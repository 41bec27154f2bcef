use vstd::prelude::*;

use crate::error::Error;

verus! {

/// MPU type code of the MPU6050
pub const MPU_TYPE_MPU6050: u8 = 0;
/// MPU type code of the MPU6500
pub const MPU_TYPE_MPU6500: u8 = 1;

/// magnetometer type code of the AK8975
pub const MAG_TYPE_AK8975: u8 = 1;
/// magnetometer type code of the AK8963
pub const MAG_TYPE_AK8963: u8 = 2;

/// AKM status-1 bit: a measurement is ready
pub const AKM_DATA_READY: u8 = 0x01;
/// AKM status-1 bit: a measurement was overwritten before it was read
pub const AKM_DATA_OVERRUN: u8 = 0x02;
/// AKM status-2 bit: the magnetic field exceeded the measurement range
pub const AKM_OVERFLOW: u8 = 0x80;
/// AKM status-2 bit: the data read was corrupted
pub const AKM_DATA_ERROR: u8 = 0x40;

/// Configuration of the MPU as dumped at the start of a recording.
#[derive(Debug, Clone, Copy, Default)]
pub struct MpuCfgDump {
    pub mputype: u8,
    pub magtype: u8,
    pub gyro_fsr: u8,
    pub accel_fsr: u8,
    pub mag_sens_adj: [i16; 3],
}

/// Gyroscope sensitivity in tenths of an LSB per degree per second for a
/// full-scale-range code (250, 500, 1000 and 2000 dps).
pub open spec fn spec_gyro_sens_x10(fsr: u8) -> Option<u16> {
    if fsr == 0 {
        Some(1310u16)
    } else if fsr == 1 {
        Some(655u16)
    } else if fsr == 2 {
        Some(328u16)
    } else if fsr == 3 {
        Some(164u16)
    } else {
        None
    }
}

/// Accelerometer sensitivity (LSB per g) for a full-scale-range code
/// (2, 4, 8 and 16 g).
pub open spec fn spec_accel_sens(fsr: u8) -> Option<u16> {
    if fsr == 0 {
        Some(16384u16)
    } else if fsr == 1 {
        Some(8192u16)
    } else if fsr == 2 {
        Some(4096u16)
    } else if fsr == 3 {
        Some(2048u16)
    } else {
        None
    }
}

/// Temperature sensitivity (LSB per degree Celsius) of an MPU type.
pub open spec fn spec_temp_sens(mputype: u8) -> Option<u16> {
    if mputype == MPU_TYPE_MPU6050 {
        Some(340u16)
    } else if mputype == MPU_TYPE_MPU6500 {
        Some(321u16)
    } else {
        None
    }
}

/// Temperature offset (LSB) of an MPU type.
pub open spec fn spec_temp_offset(mputype: u8) -> Option<i16> {
    if mputype == MPU_TYPE_MPU6050 {
        Some(-521i16)
    } else if mputype == MPU_TYPE_MPU6500 {
        Some(0i16)
    } else {
        None
    }
}

/// Magnetometer full-scale range of a magnetometer type, in uT: a reading
/// of 32768 LSB stands for this many uT.
pub open spec fn spec_mag_fsr(magtype: u8) -> Option<u16> {
    if magtype == MAG_TYPE_AK8975 {
        Some(9830u16)
    } else if magtype == MAG_TYPE_AK8963 {
        Some(4915u16)
    } else {
        None
    }
}

/// Turns an optional table value into the result reported for `err`.
pub open spec fn or_error<T>(v: Option<T>, err: Error) -> Result<T, Error> {
    match v {
        Some(x) => Ok(x),
        None => Err(err),
    }
}

/// Two bytes read as a little-endian two's complement 16 bit number.
pub open spec fn le_i16(lo: u8, hi: u8) -> int {
    let u = lo + 256 * hi;
    if u >= 32768 {
        u - 65536
    } else {
        u
    }
}

/// Two bytes read as a big-endian two's complement 16 bit number.
pub open spec fn be_i16(b: [u8; 2]) -> int {
    le_i16(b@[1], b@[0])
}

/// The status check of a magnetometer reading: `None` when the reading can be
/// used, otherwise the error it is rejected with.
pub open spec fn spec_mag_status(magtype: u8, status1: u8, status2: u8) -> Option<Error> {
    if magtype == MAG_TYPE_AK8975 {
        // the AK8975 has no overrun bit
        if status1 & AKM_DATA_READY == 0 {
            Some(Error::MagDataNotReady)
        } else if status2 & AKM_OVERFLOW != 0 {
            Some(Error::MagDataOverflow)
        } else if status2 & AKM_DATA_ERROR != 0 {
            Some(Error::MagDataError)
        } else {
            None
        }
    } else if magtype == MAG_TYPE_AK8963 {
        // the AK8963 has no data error bit
        if status1 & AKM_DATA_READY == 0 {
            Some(Error::MagDataNotReady)
        } else if status1 & AKM_DATA_OVERRUN != 0 {
            Some(Error::MagDataOverrun)
        } else if status2 & AKM_OVERFLOW != 0 {
            Some(Error::MagDataOverflow)
        } else {
            None
        }
    } else {
        Some(Error::UnsupportedMagType(magtype))
    }
}

/// The AK8975 has no overrun bit: setting or clearing bit 1 of status 1
/// does not change how a reading is judged. The AK8963 has no data error
/// bit: setting or clearing bit 6 of status 2 does not either.
pub proof fn lemma_mag_status_ignored_bits(status1: u8, status2: u8)
    ensures
        spec_mag_status(MAG_TYPE_AK8975, status1, status2) == spec_mag_status(MAG_TYPE_AK8975, status1 ^ AKM_DATA_OVERRUN, status2),
        spec_mag_status(MAG_TYPE_AK8963, status1, status2) == spec_mag_status(MAG_TYPE_AK8963, status1, status2 ^ AKM_DATA_ERROR),
{
    assert((status1 ^ 0x02u8) & 0x01u8 == status1 & 0x01u8) by (bit_vector);
    assert((status2 ^ 0x40u8) & 0x80u8 == status2 & 0x80u8) by (bit_vector);
}

/// How the AK8975's status registers decide a reading: without the
/// data-ready bit (0x01 of status 1) it is not ready; otherwise the overflow
/// bit (0x80 of status 2) rejects it as an overflow whatever else is set,
/// then the data-error bit (0x40 of status 2) rejects it as a data error;
/// with neither, the reading is accepted.
pub proof fn lemma_ak8975_status(status1: u8, status2: u8)
    ensures
        status1 & 0x01 == 0 ==> spec_mag_status(MAG_TYPE_AK8975, status1, status2) == Some(Error::MagDataNotReady),
        status1 & 0x01 != 0 && status2 & 0x80 != 0
            ==> spec_mag_status(MAG_TYPE_AK8975, status1, status2) == Some(Error::MagDataOverflow),
        status1 & 0x01 != 0 && status2 & 0x80 == 0 && status2 & 0x40 != 0
            ==> spec_mag_status(MAG_TYPE_AK8975, status1, status2) == Some(Error::MagDataError),
        status1 & 0x01 != 0 && status2 & 0xc0 == 0 ==> spec_mag_status(MAG_TYPE_AK8975, status1, status2) is None,
{
    assert(status2 & 0xc0 == 0 ==> status2 & 0x80 == 0 && status2 & 0x40 == 0) by (bit_vector);
}

/// How the AK8963's status registers decide a reading: without the
/// data-ready bit (0x01 of status 1) it is not ready; otherwise the overrun
/// bit (0x02 of status 1) rejects it; otherwise the verdict on status 2 rests
/// on its overflow bit (0x80) alone: set, the reading is an overflow; clear,
/// it is accepted, whatever the other bits of status 2 say.
pub proof fn lemma_ak8963_status(status1: u8, status2: u8)
    ensures
        spec_mag_status(MAG_TYPE_AK8963, status1, status2) == spec_mag_status(MAG_TYPE_AK8963, status1, status2 & 0x80),
        status1 & 0x01 == 0 ==> spec_mag_status(MAG_TYPE_AK8963, status1, status2) == Some(Error::MagDataNotReady),
        status1 & 0x01 != 0 && status1 & 0x02 != 0
            ==> spec_mag_status(MAG_TYPE_AK8963, status1, status2) == Some(Error::MagDataOverrun),
        status1 & 0x01 != 0 && status1 & 0x02 == 0 && status2 & 0x80 != 0
            ==> spec_mag_status(MAG_TYPE_AK8963, status1, status2) == Some(Error::MagDataOverflow),
        status1 & 0x01 != 0 && status1 & 0x02 == 0 && status2 & 0x80 == 0
            ==> spec_mag_status(MAG_TYPE_AK8963, status1, status2) is None,
{
    assert((status2 & 0x80u8) & 0x80u8 == status2 & 0x80u8) by (bit_vector);
}

/// A raw magnetometer value scaled by the factory sensitivity adjustment:
/// `raw * adj / 256`, rounded towards negative infinity.
pub open spec fn spec_mag_adjust(raw: int, adj: int) -> int {
    (raw * adj) / 256
}

/// The adjustment rounds towards negative infinity: the adjusted value `v`
/// satisfies `256 v <= raw * adj < 256 v + 256`; and the neutral adjustment
/// of 256 leaves a raw value as it is.
pub proof fn lemma_mag_adjust_floor(raw: int, adj: int)
    ensures
        256 * spec_mag_adjust(raw, adj) <= raw * adj < 256 * spec_mag_adjust(raw, adj) + 256,
        spec_mag_adjust(raw, 256) == raw,
{
    let p = raw * adj;
    assert(256 * (p / 256) <= p < 256 * (p / 256) + 256) by (nonlinear_arith);
    assert((raw * 256) / 256 == raw) by (nonlinear_arith);
}

/// Two register bytes decode to a 16 bit two's complement value: it lies in
/// the `i16` range and is congruent, modulo 65536, to the unsigned value
/// `lo + 256 hi` the bytes hold.
pub proof fn lemma_le_i16_twos_complement(lo: u8, hi: u8)
    ensures
        -32768 <= le_i16(lo, hi) <= 32767,
        le_i16(lo, hi) == lo + 256 * hi || le_i16(lo, hi) == lo + 256 * hi - 65536,
        (hi < 128) == (le_i16(lo, hi) >= 0),
{
}

/// Whether a value fits into an `i16`.
pub open spec fn fits_i16(v: int) -> bool {
    i16::MIN <= v <= i16::MAX
}

/// The adjusted value of axis `k` of a magnetometer register dump.
pub open spec fn spec_mag_axis(adj: [i16; 3], regs: [u8; 8], k: int) -> int {
    spec_mag_adjust(le_i16(regs@[1 + 2 * k], regs@[2 + 2 * k]), adj@[k] as int)
}

/// Each doubling of the accelerometer range halves its sensitivity; the
/// smallest range (2 g) maps 2 g to the full 16 bit scale of 32768 LSB.
pub proof fn lemma_accel_sens_halves(fsr: u8)
    requires
        fsr < 3,
    ensures
        spec_accel_sens(fsr) is Some,
        spec_accel_sens((fsr + 1) as u8) is Some,
        spec_accel_sens(fsr)->Some_0 == 2 * spec_accel_sens((fsr + 1) as u8)->Some_0,
        spec_accel_sens(0)->Some_0 * 2 == 32768,
{
}

impl MpuCfgDump {
    /// Get gyro sensitivity scale factor, in tenths.
    ///
    /// Used for conversion from hardware units to dps: the sensitivity in
    /// LSB/dps is the returned value divided by ten.
    pub fn gyro_sens_x10(&self) -> (r: Result<u16, Error>)
        ensures
            r == or_error(spec_gyro_sens_x10(self.gyro_fsr), Error::UnsupportedGyroFsr(self.gyro_fsr)),
    {
        match self.gyro_fsr {
            0 => Ok(1310),
            1 => Ok(655),
            2 => Ok(328),
            3 => Ok(164),
            _ => Err(Error::UnsupportedGyroFsr(self.gyro_fsr)),
        }
    }

    /// Get accel sensitivity scale factor.
    ///
    /// Used for conversion from hardware units to g's.
    pub fn accel_sens(&self) -> (r: Result<u16, Error>)
        ensures
            r == or_error(spec_accel_sens(self.accel_fsr), Error::UnsupportedAccelFsr(self.accel_fsr)),
    {
        match self.accel_fsr {
            0 => Ok(16384),
            1 => Ok(8192),
            2 => Ok(4096),
            3 => Ok(2048),
            _ => Err(Error::UnsupportedAccelFsr(self.accel_fsr)),
        }
    }

    /// Get the temperature sensitivity (LSB per degree Celsius).
    pub fn temp_sens(&self) -> (r: Result<u16, Error>)
        ensures
            r == or_error(spec_temp_sens(self.mputype), Error::UnsupportedMpuType(self.mputype)),
    {
        if self.mputype == MPU_TYPE_MPU6050 {
            Ok(340)
        } else if self.mputype == MPU_TYPE_MPU6500 {
            Ok(321)
        } else {
            Err(Error::UnsupportedMpuType(self.mputype))
        }
    }

    /// Get the temperature offset (LSB).
    pub fn temp_offset(&self) -> (r: Result<i16, Error>)
        ensures
            r == or_error(spec_temp_offset(self.mputype), Error::UnsupportedMpuType(self.mputype)),
    {
        if self.mputype == MPU_TYPE_MPU6050 {
            Ok(-521)
        } else if self.mputype == MPU_TYPE_MPU6500 {
            Ok(0)
        } else {
            Err(Error::UnsupportedMpuType(self.mputype))
        }
    }

    /// Get the magnetometer full-scale range.
    ///
    /// Used for conversion from hardware units to uT's.
    pub fn mag_fsr(&self) -> (r: Result<u16, Error>)
        ensures
            r == or_error(spec_mag_fsr(self.magtype), Error::UnsupportedMagType(self.magtype)),
    {
        if self.magtype == MAG_TYPE_AK8975 {
            Ok(9830)
        } else if self.magtype == MAG_TYPE_AK8963 {
            Ok(4915)
        } else {
            Err(Error::UnsupportedMagType(self.magtype))
        }
    }

    /// Validate a magnetometer register dump (status 1, X, Y, Z as
    /// little-endian 16 bit values, status 2) and apply the factory
    /// sensitivity adjustment.
    ///
    /// The values are returned in the sensor's own axis order; the caller
    /// scales them to uT and converts them to the accelerometer's
    /// coordinate system.
    pub fn mag_raw(&self, regs: &[u8; 8]) -> (r: Result<[i16; 3], Error>)
        ensures
            match spec_mag_status(self.magtype, regs@[0], regs@[7]) {
                Some(e) => r == Err::<[i16; 3], Error>(e),
                None => {
                    if forall|k: int| 0 <= k < 3 ==> fits_i16(#[trigger] spec_mag_axis(self.mag_sens_adj, *regs, k)) {
                        &&& r is Ok
                        &&& forall|k: int| 0 <= k < 3 ==> r->Ok_0@[k] as int == #[trigger] spec_mag_axis(self.mag_sens_adj, *regs, k)
                    } else {
                        r == Err::<[i16; 3], Error>(Error::MagAdjustmentOverflow)
                    }
                },
            },
    {
        let status1 = regs[0];
        let status2 = regs[7];

        if self.magtype == MAG_TYPE_AK8975 {
            // the AK8975 has no overrun bit
            if status1 & AKM_DATA_READY == 0 {
                return Err(Error::MagDataNotReady);
            }
            if status2 & AKM_OVERFLOW != 0 {
                return Err(Error::MagDataOverflow);
            }
            if status2 & AKM_DATA_ERROR != 0 {
                return Err(Error::MagDataError);
            }
        } else if self.magtype == MAG_TYPE_AK8963 {
            // the AK8963 has no data error bit
            if status1 & AKM_DATA_READY == 0 {
                return Err(Error::MagDataNotReady);
            }
            if status1 & AKM_DATA_OVERRUN != 0 {
                return Err(Error::MagDataOverrun);
            }
            if status2 & AKM_OVERFLOW != 0 {
                return Err(Error::MagDataOverflow);
            }
        } else {
            return Err(Error::UnsupportedMagType(self.magtype));
        }

        let mut res: [i16; 3] = [0, 0, 0];
        let mut k: usize = 0;
        while k < 3
            invariant
                0 <= k <= 3,
                spec_mag_status(self.magtype, regs@[0], regs@[7]) is None,
                forall|j: int| 0 <= j < k ==> fits_i16(#[trigger] spec_mag_axis(self.mag_sens_adj, *regs, j)),
                forall|j: int| 0 <= j < k ==> res@[j] as int == #[trigger] spec_mag_axis(self.mag_sens_adj, *regs, j),
            decreases 3 - k,
        {
            let raw = le_i16_from_bytes(regs[1 + 2 * k], regs[2 + 2 * k]);
            match adjust_mag(raw, self.mag_sens_adj[k]) {
                Some(v) => {
                    res[k] = v;
                },
                None => {
                    assert(!fits_i16(spec_mag_axis(self.mag_sens_adj, *regs, k as int)));
                    return Err(Error::MagAdjustmentOverflow);
                },
            }
            k = k + 1;
        }
        Ok(res)
    }
}

/// Decodes two bytes as a little-endian two's complement 16 bit number.
pub fn le_i16_from_bytes(lo: u8, hi: u8) -> (r: i16)
    ensures
        r as int == le_i16(lo, hi),
{
    let u: i32 = (lo as i32) + 256 * (hi as i32);
    if u >= 32768 {
        (u - 65536) as i16
    } else {
        u as i16
    }
}

/// Decodes two bytes as a big-endian two's complement 16 bit number.
pub fn be_i16_from_bytes(b: [u8; 2]) -> (r: i16)
    ensures
        r as int == be_i16(b),
{
    le_i16_from_bytes(b[1], b[0])
}

/// Applies a factory sensitivity adjustment to a raw magnetometer value,
/// `None` when the result leaves the `i16` range.
pub fn adjust_mag(raw: i16, adj: i16) -> (r: Option<i16>)
    ensures
        fits_i16(spec_mag_adjust(raw as int, adj as int)) ==> r == Some(spec_mag_adjust(raw as int, adj as int) as i16),
        !fits_i16(spec_mag_adjust(raw as int, adj as int)) ==> r is None,
{
    proof {
        let a = raw as int;
        let b = adj as int;
        assert(-0x4000_0000 <= a * b <= 0x4000_0000) by (nonlinear_arith)
            requires
                -0x8000 <= a <= 0x7fff,
                -0x8000 <= b <= 0x7fff,
        ;
    }
    let p: i32 = (raw as i32) * (adj as i32);
    let s: i32 = p >> 8u32;
    proof {
        assert((p >> 8u32) as int == (p as int) / 256) by (bit_vector);
    }
    if s >= -32768 && s <= 32767 {
        Some(s as i16)
    } else {
        None
    }
}

} // verus!
