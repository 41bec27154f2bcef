# sensoreval

Tools for evaluating IMU recordings of amusement rides: a filter chain that
loads raw sensor recordings and turns them into physical units, and Kalman
filters that estimate the ride's state from them.

## Layout

- `src/` — the verified library (Verus):
  - `imu` — MPU/AKM sensor configuration tables, register decoding and the
    magnetometer status check and sensitivity adjustment;
  - `recording` — raw samples of a recording, BMP2 calibration parameters and
    how a recording file splits into header and samples;
  - `axismap` — remapping (and negating) sensor axes;
  - `data` — looking up the sample valid at a point in time;
  - `graphics` — colour channels and the time window of a graph;
  - `numeric` — Python-style modulo and the integer cross product;
  - `filtering` — shape checks of distribution parameters and filter banks;
  - `state` — the estimator's state and measurement vector layouts.
- `tests/` — tests of the library.
- `app/` — the filter-chain program, the floating point math and the Kalman
  filters, which use the library for everything that is not floating point
  or I/O.
