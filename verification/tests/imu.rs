use sensoreval::imu::{adjust_mag, be_i16_from_bytes, le_i16_from_bytes, MpuCfgDump};
use sensoreval::recording::{sample_layout, Bmp2CalibParamLegacy, SampleLayout, SentralPtSample};
use sensoreval::Error;

fn cfg(mputype: u8, magtype: u8, gyro_fsr: u8, accel_fsr: u8, adj: [i16; 3]) -> MpuCfgDump {
    MpuCfgDump {
        mputype,
        magtype,
        gyro_fsr,
        accel_fsr,
        mag_sens_adj: adj,
    }
}

#[test]
fn accel_sens_table() {
    assert_eq!(cfg(0, 0, 0, 0, [0; 3]).accel_sens(), Ok(16384));
    assert_eq!(cfg(0, 0, 0, 1, [0; 3]).accel_sens(), Ok(8192));
    assert_eq!(cfg(0, 0, 0, 2, [0; 3]).accel_sens(), Ok(4096));
    assert_eq!(cfg(0, 0, 0, 3, [0; 3]).accel_sens(), Ok(2048));
    assert_eq!(cfg(0, 0, 0, 4, [0; 3]).accel_sens(), Err(Error::UnsupportedAccelFsr(4)));
}

#[test]
fn accel_sens_halves_per_range() {
    for fsr in 0..3u8 {
        let a = cfg(0, 0, 0, fsr, [0; 3]).accel_sens().unwrap();
        let b = cfg(0, 0, 0, fsr + 1, [0; 3]).accel_sens().unwrap();
        assert_eq!(a, 2 * b);
    }
}

#[test]
fn gyro_sens_table() {
    assert_eq!(cfg(0, 0, 0, 0, [0; 3]).gyro_sens_x10(), Ok(1310));
    assert_eq!(cfg(0, 0, 1, 0, [0; 3]).gyro_sens_x10(), Ok(655));
    assert_eq!(cfg(0, 0, 2, 0, [0; 3]).gyro_sens_x10(), Ok(328));
    assert_eq!(cfg(0, 0, 3, 0, [0; 3]).gyro_sens_x10(), Ok(164));
    assert_eq!(cfg(0, 0, 9, 0, [0; 3]).gyro_sens_x10(), Err(Error::UnsupportedGyroFsr(9)));
    // divided by ten, the values are the sensitivities in LSB per dps
    assert_eq!(f64::from(cfg(0, 0, 1, 0, [0; 3]).gyro_sens_x10().unwrap()) / 10.0, 65.5f64);
    assert_eq!(f64::from(cfg(0, 0, 2, 0, [0; 3]).gyro_sens_x10().unwrap()) / 10.0, 32.8f64);
}

#[test]
fn temp_tables() {
    assert_eq!(cfg(0, 0, 0, 0, [0; 3]).temp_sens(), Ok(340));
    assert_eq!(cfg(1, 0, 0, 0, [0; 3]).temp_sens(), Ok(321));
    assert_eq!(cfg(2, 0, 0, 0, [0; 3]).temp_sens(), Err(Error::UnsupportedMpuType(2)));
    assert_eq!(cfg(0, 0, 0, 0, [0; 3]).temp_offset(), Ok(-521));
    assert_eq!(cfg(1, 0, 0, 0, [0; 3]).temp_offset(), Ok(0));
    assert_eq!(cfg(7, 0, 0, 0, [0; 3]).temp_offset(), Err(Error::UnsupportedMpuType(7)));
}

#[test]
fn mag_fsr_table() {
    assert_eq!(cfg(0, 1, 0, 0, [0; 3]).mag_fsr(), Ok(9830));
    assert_eq!(cfg(0, 2, 0, 0, [0; 3]).mag_fsr(), Ok(4915));
    assert_eq!(cfg(0, 0, 0, 0, [0; 3]).mag_fsr(), Err(Error::UnsupportedMagType(0)));
}

#[test]
fn byte_decoding() {
    assert_eq!(le_i16_from_bytes(0x34, 0x12), 0x1234);
    assert_eq!(le_i16_from_bytes(0xff, 0xff), -1);
    assert_eq!(le_i16_from_bytes(0x00, 0x80), i16::MIN);
    assert_eq!(be_i16_from_bytes([0x12, 0x34]), 0x1234);
    assert_eq!(be_i16_from_bytes([0x7f, 0xff]), i16::MAX);
    for v in [i16::MIN, -300, -1, 0, 1, 300, i16::MAX] {
        assert_eq!(be_i16_from_bytes(v.to_be_bytes()), v);
        let b = v.to_le_bytes();
        assert_eq!(le_i16_from_bytes(b[0], b[1]), v);
    }
}

#[test]
fn mag_adjustment() {
    assert_eq!(adjust_mag(100, 256), Some(100));
    assert_eq!(adjust_mag(100, 128), Some(50));
    // rounds towards negative infinity, like an arithmetic shift
    assert_eq!(adjust_mag(-1, 1), Some(-1));
    assert_eq!(adjust_mag(-3, 128), Some(-2));
    assert_eq!(adjust_mag(i16::MAX, 512), None);
    assert_eq!(adjust_mag(i16::MIN, 256), Some(i16::MIN));
}

#[test]
fn mag_raw_ak8963() {
    let c = cfg(1, 2, 0, 0, [256, 256, 128]);
    // status1: ready, X = 0x0010, Y = -1, Z = 200, status2: 0
    let regs = [0x01, 0x10, 0x00, 0xff, 0xff, 0xc8, 0x00, 0x00];
    assert_eq!(c.mag_raw(&regs), Ok([16, -1, 100]));

    let mut r = regs;
    r[0] = 0x00;
    assert_eq!(c.mag_raw(&r), Err(Error::MagDataNotReady));
    r[0] = 0x03;
    assert_eq!(c.mag_raw(&r), Err(Error::MagDataOverrun));
    r[0] = 0x01;
    r[7] = 0x80;
    assert_eq!(c.mag_raw(&r), Err(Error::MagDataOverflow));
    // the AK8963 has no data error bit
    r[7] = 0x40;
    assert_eq!(c.mag_raw(&r), Ok([16, -1, 100]));
}

#[test]
fn mag_raw_ak8975() {
    let c = cfg(0, 1, 0, 0, [256, 256, 256]);
    let regs = [0x01, 0x01, 0x00, 0x02, 0x00, 0x03, 0x00, 0x00];
    assert_eq!(c.mag_raw(&regs), Ok([1, 2, 3]));

    // the AK8975 has no overrun bit
    let mut r = regs;
    r[0] = 0x03;
    assert_eq!(c.mag_raw(&r), Ok([1, 2, 3]));
    r[7] = 0x40;
    assert_eq!(c.mag_raw(&r), Err(Error::MagDataError));
    r[7] = 0xc0;
    assert_eq!(c.mag_raw(&r), Err(Error::MagDataOverflow));
    r[0] = 0x02;
    assert_eq!(c.mag_raw(&r), Err(Error::MagDataNotReady));
}

#[test]
fn mag_raw_errors() {
    let regs = [0x01, 0xff, 0x7f, 0x00, 0x00, 0x00, 0x00, 0x00];
    assert_eq!(
        cfg(0, 3, 0, 0, [256; 3]).mag_raw(&regs),
        Err(Error::UnsupportedMagType(3))
    );
    assert_eq!(
        cfg(0, 2, 0, 0, [512, 256, 256]).mag_raw(&regs),
        Err(Error::MagAdjustmentOverflow)
    );
}

#[test]
fn sentral_sample_decoding() {
    let s = SentralPtSample {
        accel_0: [0x00, 0x01],
        accel_1: [0xff, 0xff],
        accel_2: [0x80, 0x00],
        temp: [0x01, 0x00],
        gyro_0: [0x12, 0x34],
        gyro_1: [0xfe, 0xdc],
        gyro_2: [0x00, 0x00],
        mag: [1, 2, 3, 4, 5, 6, 7, 8],
        time_mpu: 5,
        bmp2_raw: [0; 6],
        time_bmp: 6,
    };
    assert_eq!(s.accel(), [1, -1, i16::MIN]);
    assert_eq!(s.gyro(), [0x1234, -292, 0]);
    assert_eq!(s.temp(), 256);
    assert_eq!(s.mag(), &[1, 2, 3, 4, 5, 6, 7, 8]);
}

#[test]
fn bmp2_calib_to_native() {
    let l = Bmp2CalibParamLegacy {
        dig_t1: 1,
        dig_t2: -2,
        dig_t3: 3,
        dig_p1: 4,
        dig_p2: -5,
        dig_p3: 6,
        dig_p4: 7,
        dig_p5: 8,
        dig_p6: 9,
        dig_p7: 10,
        dig_p8: 11,
        dig_p9: -12,
        t_fine: -13,
    };
    let n = l.to_native();
    assert_eq!(
        (n.dig_t1, n.dig_t2, n.dig_t3, n.dig_p1, n.dig_p2, n.dig_p3, n.dig_p4),
        (1, -2, 3, 4, -5, 6, 7)
    );
    assert_eq!(
        (n.dig_p5, n.dig_p6, n.dig_p7, n.dig_p8, n.dig_p9, n.dig_p10, n.t_fine),
        (8, 9, 10, 11, -12, 0, -13)
    );
}

#[test]
fn recording_layout() {
    assert_eq!(sample_layout(10, 38, 44), Err(Error::FileTooSmall));
    // a file shorter than its header is refused before any sample is counted
    assert_eq!(sample_layout(10, 38, 0), Err(Error::FileTooSmall));
    assert_eq!(
        sample_layout(38, 38, 44),
        Ok(SampleLayout {
            num_samples: 0,
            incomplete: false
        })
    );
    assert_eq!(
        sample_layout(38 + 3 * 44, 38, 44),
        Ok(SampleLayout {
            num_samples: 3,
            incomplete: false
        })
    );
    assert_eq!(
        sample_layout(38 + 3 * 44 + 7, 38, 44),
        Ok(SampleLayout {
            num_samples: 3,
            incomplete: true
        })
    );
}
