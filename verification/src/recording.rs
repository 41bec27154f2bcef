use vstd::prelude::*;

use crate::error::Error;
use crate::imu::{be_i16, be_i16_from_bytes};

verus! {

/// One raw sample of a sentral pass-through recording, as stored on disk.
#[derive(Debug, Clone, Copy, Default)]
pub struct SentralPtSample {
    pub accel_0: [u8; 2],
    pub accel_1: [u8; 2],
    pub accel_2: [u8; 2],

    pub temp: [u8; 2],

    pub gyro_0: [u8; 2],
    pub gyro_1: [u8; 2],
    pub gyro_2: [u8; 2],

    pub mag: [u8; 8],

    pub time_mpu: u64,

    pub bmp2_raw: [u8; 6],
    pub time_bmp: u64,
}

impl SentralPtSample {
    /// The raw accelerometer reading (big-endian registers).
    pub fn accel(&self) -> (r: [i16; 3])
        ensures
            r@[0] as int == be_i16(self.accel_0),
            r@[1] as int == be_i16(self.accel_1),
            r@[2] as int == be_i16(self.accel_2),
    {
        [
            be_i16_from_bytes(self.accel_0),
            be_i16_from_bytes(self.accel_1),
            be_i16_from_bytes(self.accel_2),
        ]
    }

    /// The raw gyroscope reading (big-endian registers).
    pub fn gyro(&self) -> (r: [i16; 3])
        ensures
            r@[0] as int == be_i16(self.gyro_0),
            r@[1] as int == be_i16(self.gyro_1),
            r@[2] as int == be_i16(self.gyro_2),
    {
        [
            be_i16_from_bytes(self.gyro_0),
            be_i16_from_bytes(self.gyro_1),
            be_i16_from_bytes(self.gyro_2),
        ]
    }

    /// The raw magnetometer register dump.
    pub fn mag(&self) -> (r: &[u8; 8])
        ensures
            *r == self.mag,
    {
        &self.mag
    }

    /// The raw temperature reading (big-endian register).
    pub fn temp(&self) -> (r: i16)
        ensures
            r as int == be_i16(self.temp),
    {
        be_i16_from_bytes(self.temp)
    }
}

/// BMP2 calibration parameters as stored in older recordings.
#[derive(Debug, Clone, Copy, Default)]
pub struct Bmp2CalibParamLegacy {
    pub dig_t1: u16,
    pub dig_t2: i16,
    pub dig_t3: i16,
    pub dig_p1: u16,
    pub dig_p2: i16,
    pub dig_p3: i16,
    pub dig_p4: i16,
    pub dig_p5: i16,
    pub dig_p6: i16,
    pub dig_p7: i16,
    pub dig_p8: i16,
    pub dig_p9: i16,
    pub t_fine: i32,
}

/// BMP2 calibration parameters in the layout the BMP2 driver expects.
#[derive(Debug, Clone, Copy, Default)]
pub struct Bmp2CalibParam {
    pub dig_t1: u16,
    pub dig_t2: i16,
    pub dig_t3: i16,
    pub dig_p1: u16,
    pub dig_p2: i16,
    pub dig_p3: i16,
    pub dig_p4: i16,
    pub dig_p5: i16,
    pub dig_p6: i16,
    pub dig_p7: i16,
    pub dig_p8: i16,
    pub dig_p9: i16,
    pub dig_p10: i8,
    pub t_fine: i32,
}

impl Bmp2CalibParamLegacy {
    /// Converts to the driver's layout; the legacy format has no `dig_p10`,
    /// which is zero.
    pub fn to_native(&self) -> (r: Bmp2CalibParam)
        ensures
            r.dig_t1 == self.dig_t1,
            r.dig_t2 == self.dig_t2,
            r.dig_t3 == self.dig_t3,
            r.dig_p1 == self.dig_p1,
            r.dig_p2 == self.dig_p2,
            r.dig_p3 == self.dig_p3,
            r.dig_p4 == self.dig_p4,
            r.dig_p5 == self.dig_p5,
            r.dig_p6 == self.dig_p6,
            r.dig_p7 == self.dig_p7,
            r.dig_p8 == self.dig_p8,
            r.dig_p9 == self.dig_p9,
            r.dig_p10 == 0,
            r.t_fine == self.t_fine,
    {
        Bmp2CalibParam {
            dig_t1: self.dig_t1,
            dig_t2: self.dig_t2,
            dig_t3: self.dig_t3,
            dig_p1: self.dig_p1,
            dig_p2: self.dig_p2,
            dig_p3: self.dig_p3,
            dig_p4: self.dig_p4,
            dig_p5: self.dig_p5,
            dig_p6: self.dig_p6,
            dig_p7: self.dig_p7,
            dig_p8: self.dig_p8,
            dig_p9: self.dig_p9,
            dig_p10: 0,
            t_fine: self.t_fine,
        }
    }
}

/// How a recording file splits into a header and fixed-size samples.
#[derive(Debug, Clone, Copy, PartialEq, Eq, Structural)]
pub struct SampleLayout {
    /// number of complete samples after the header
    pub num_samples: usize,
    /// whether an incomplete sample follows the last complete one
    pub incomplete: bool,
}

/// Splits a recording of `file_len` bytes into a header of `header_size`
/// bytes followed by samples of `sample_size` bytes each.
pub fn sample_layout(file_len: u64, header_size: u64, sample_size: u64) -> (r: Result<SampleLayout, Error>)
    requires
        file_len >= header_size ==> sample_size > 0,
    ensures
        file_len < header_size ==> r == Err::<SampleLayout, Error>(Error::FileTooSmall),
        file_len >= header_size && (file_len - header_size) / (sample_size as int) > usize::MAX
            ==> r == Err::<SampleLayout, Error>(Error::TooManySamples),
        file_len >= header_size && (file_len - header_size) / (sample_size as int) <= usize::MAX
            ==> r == Ok::<SampleLayout, Error>(SampleLayout {
                num_samples: ((file_len - header_size) / (sample_size as int)) as usize,
                incomplete: (file_len - header_size) % (sample_size as int) != 0,
            }),
{
    if file_len < header_size {
        return Err(Error::FileTooSmall);
    }
    let all_samples_size = file_len - header_size;
    let incomplete = all_samples_size % sample_size != 0;
    let n = all_samples_size / sample_size;
    if n > usize::MAX as u64 {
        return Err(Error::TooManySamples);
    }
    Ok(SampleLayout { num_samples: n as usize, incomplete })
}

} // verus!
