use vstd::prelude::*;

verus! {

/// Errors reported while decoding raw sensor recordings.
#[derive(Debug, Clone, Copy, PartialEq, Eq, Structural)]
pub enum Error {
    /// the gyroscope full-scale-range code is not one of the known ones
    UnsupportedGyroFsr(u8),
    /// the accelerometer full-scale-range code is not one of the known ones
    UnsupportedAccelFsr(u8),
    /// the MPU type code is not one of the known ones
    UnsupportedMpuType(u8),
    /// the magnetometer type code is not one of the known ones
    UnsupportedMagType(u8),
    /// the magnetometer status register says no data is ready
    MagDataNotReady,
    /// the magnetometer status register reports a data overrun
    MagDataOverrun,
    /// the magnetometer status register reports a measurement overflow
    MagDataOverflow,
    /// the magnetometer status register reports a data error
    MagDataError,
    /// applying the factory sensitivity adjustment left the `i16` range
    MagAdjustmentOverflow,
    /// a recording is shorter than its header
    FileTooSmall,
    /// the number of samples of a recording does not fit into `usize`
    TooManySamples,
}

} // verus!
