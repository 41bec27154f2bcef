use sensoreval::axismap::AxisMap;
use sensoreval::data::id_for_time;
use sensoreval::filtering::{check_filter_shapes, check_parameters, ImmError, ParamError};
use sensoreval::graphics::{graph_offsets, rgba_channels};
use sensoreval::numeric::Cross;
use sensoreval::state::{StateUtils, X, Z};

#[test]
fn pymod() {
    assert_eq!(sensoreval::numeric::pymod(-5, 4), 3);
    assert_eq!(sensoreval::numeric::pymod(5, 2), 1);
}

#[test]
fn pymod_sign_of_divisor() {
    assert_eq!(sensoreval::numeric::pymod(5, -3), -1);
    assert_eq!(sensoreval::numeric::pymod(-5, -3), -2);
    assert_eq!(sensoreval::numeric::pymod(6, -3), 0);
    assert_eq!(sensoreval::numeric::pymod(-6, 3), 0);
    assert_eq!(sensoreval::numeric::pymod(i64::MIN, 7), ((i64::MIN % 7) + 7) % 7);
    for n in -20..20i64 {
        for m in [-7i64, -3, -1, 1, 2, 5] {
            let r = sensoreval::numeric::pymod(n, m);
            assert_eq!(r, n.rem_euclid(m) + if m < 0 && n.rem_euclid(m) != 0 { m } else { 0 });
            // range, congruence and idempotence
            if m > 0 {
                assert!(0 <= r && r < m);
            } else {
                assert!(m < r && r <= 0);
            }
            assert_eq!((n - r) % m, 0);
            assert_eq!(sensoreval::numeric::pymod(r, m), r);
        }
    }
}

#[test]
fn axismap_copy() {
    let map = AxisMap(vec![-2, 3, 1]);
    let src = [10i64, 20, 30];
    let mut dst = [0i64; 4];
    map.copy(&mut dst, &src);
    assert_eq!(dst, [-20, 30, 10, 0]);

    let mut dst = [7i64; 3];
    map.copy_single(&mut dst, &src, 2);
    assert_eq!(dst, [7, 7, 10]);

    let mut fdst = [0.0f64; 3];
    map.copy(&mut fdst, &[1.5, -2.5, 3.5]);
    assert_eq!(fdst, [2.5, 3.5, 1.5]);
}

#[test]
fn axismap_default_is_identity() {
    let map = AxisMap::default();
    assert_eq!(map.0, vec![1, 2, 3]);
    let src = [4i32, -5, 6];
    let mut dst = [0i32; 3];
    map.copy(&mut dst, &src);
    assert_eq!(dst, src);
}

#[test]
fn id_for_time_lookup() {
    let times = [10u64, 20, 30, 40];
    // the first sample at or after the time
    assert_eq!(id_for_time(&times, 0, 25), Some(2));
    assert_eq!(id_for_time(&times, 0, 30), Some(2));
    assert_eq!(id_for_time(&times, 0, 5), Some(0));
    assert_eq!(id_for_time(&times, 0, 40), Some(3));
    assert_eq!(id_for_time(&times, 0, 41), None);
    assert_eq!(id_for_time(&times, 4, 0), None);
    assert_eq!(id_for_time(&times, 9, 0), None);
    // indices are into the whole dataset, also when the search starts later
    assert_eq!(id_for_time(&times, 1, 35), Some(3));
    assert_eq!(id_for_time(&times, 2, 10), Some(2));
    assert_eq!(id_for_time(&[], 0, 10), None);
}

#[test]
fn rgba_split() {
    assert_eq!(rgba_channels(0x1122_3344), (0x11, 0x22, 0x33, 0x44));
    assert_eq!(rgba_channels(0xffff_ffff), (255, 255, 255, 255));
    assert_eq!(rgba_channels(0x0000_00ff), (0, 0, 0, 255));
    for c in [0u32, 1, 0x64dd_17e5, 0xff8f_00e5, u32::MAX] {
        let (r, g, b, a) = rgba_channels(c);
        assert_eq!(u32::from_be_bytes([r, g, b, a]), c);
    }
}

#[test]
fn graph_window() {
    // newest first, window of 10
    let times = [100u64, 95, 91, 90, 89, 50];
    assert_eq!(graph_offsets(&times, 10), vec![0, 5, 9, 10]);
    assert_eq!(graph_offsets(&times, 0), vec![0]);
    assert_eq!(graph_offsets(&[], 10), Vec::<u64>::new());
    // near time zero the window is clamped at zero
    assert_eq!(graph_offsets(&[5, 3, 0], 10), vec![0, 2, 5]);
    for o in graph_offsets(&times, 10) {
        assert!(o <= 10);
    }
}

#[test]
fn cross_product() {
    let a = [1i64, 0, 0];
    let b = [0i64, 1, 0];
    assert_eq!(a.cross(&b), [0, 0, 1]);
    assert_eq!(b.cross(&a), [0, 0, -1]);
    let c = [3i64, -2, 5];
    let d = [-1i64, 4, 2];
    let x = c.cross(&d);
    assert_eq!(x, [-24, -11, 10]);
    let y = d.cross(&c);
    assert_eq!(y, [24, 11, -10]);
    assert_eq!(c[0] * x[0] + c[1] * x[1] + c[2] * x[2], 0);
}

#[test]
fn state_indices() {
    assert_eq!(X::len(), 7);
    assert_eq!(Z::len(), 6);
    let xs = [X::Theta, X::ThetaD, X::Radius, X::SensorPos, X::RotE, X::RotN, X::RotU];
    for (i, x) in xs.iter().enumerate() {
        assert_eq!(x.id(), i);
    }
    let angles: Vec<bool> = xs.iter().map(|x| x.is_angle()).collect();
    assert_eq!(angles, vec![true, false, false, true, true, true, true]);
    let zs = [Z::AccelE, Z::AccelN, Z::AccelU, Z::GyroE, Z::GyroN, Z::GyroU];
    for (i, z) in zs.iter().enumerate() {
        assert_eq!(z.id(), i);
    }
}

#[test]
fn distribution_parameter_shapes() {
    assert_eq!(check_parameters(None, 2, (2, 2)), Ok(2));
    assert_eq!(check_parameters(Some(3), 3, (3, 3)), Ok(3));
    assert_eq!(check_parameters(Some(3), 2, (3, 3)), Err(ParamError::WrongVecLen(3)));
    assert_eq!(check_parameters(None, 2, (2, 3)), Err(ParamError::NotSquare));
    assert_eq!(check_parameters(None, 1, (1, 1)), Ok(1));
}

#[test]
fn imm_filter_shapes() {
    assert_eq!(check_filter_shapes(&[]), Err(ImmError::NotEnoughFilters));
    assert_eq!(check_filter_shapes(&[6]), Err(ImmError::NotEnoughFilters));
    assert_eq!(check_filter_shapes(&[6, 6]), Ok(6));
    assert_eq!(check_filter_shapes(&[6, 6, 4]), Err(ImmError::DifferentFilterShapes));
}

#[test]
fn id_for_time_sorted_splits_at_time() {
    let times = [0u64, 10, 10, 20, 35, 50];
    let mut prev = 0usize;
    for us in 0..60u64 {
        match id_for_time(&times, 0, us) {
            Some(k) => {
                assert!(times[..k].iter().all(|&t| t < us));
                assert!(times[k..].iter().all(|&t| t >= us));
                assert!(k >= prev);
                prev = k;
            }
            None => assert!(times.iter().all(|&t| t < us)),
        }
    }
}
