use telemetry_session::cert::nul_terminate;
use telemetry_session::telemetry::{serialize_sample, Sample, Scalar, Triple};

fn scalar(neg: bool, int_part: u32, frac: Vec<u8>) -> Scalar {
    Scalar::new(neg, int_part, frac).unwrap()
}

fn triple(x: Scalar, y: Scalar, z: Scalar) -> Triple {
    Triple::new(x, y, z)
}

#[test]
fn payload_has_fixed_shape_and_field_order() {
    // acceleration (1.0, -2.5, 0.0) and gyro (0.1, 0.2, 0.3)
    let gyro = triple(
        scalar(false, 0, vec![1]),
        scalar(false, 0, vec![2]),
        scalar(false, 0, vec![3]),
    );
    let acc = triple(
        scalar(false, 1, vec![0]),
        scalar(true, 2, vec![5]),
        scalar(false, 0, vec![0]),
    );
    let sample = Sample::new(gyro, acc);
    let payload = serialize_sample(&sample);
    assert_eq!(
        payload,
        b"{\"gyro\": (0.1, 0.2, 0.3), \"acc\": (1.0, -2.5, 0.0)}".to_vec()
    );
}

#[test]
fn payload_renders_multi_digit_and_long_fractions() {
    let gyro = triple(
        scalar(false, 105, vec![2, 5]),
        scalar(true, 0, vec![5]),
        scalar(false, 4294967295, vec![0]),
    );
    let acc = triple(
        scalar(false, 0, vec![0, 0, 1]),
        scalar(true, 10, vec![0]),
        scalar(false, 7, vec![1, 2, 5]),
    );
    let sample = Sample::new(gyro, acc);
    let payload = serialize_sample(&sample);
    assert_eq!(
        payload,
        b"{\"gyro\": (105.25, -0.5, 4294967295.0), \"acc\": (0.001, -10.0, 7.125)}".to_vec()
    );
}

#[test]
fn scalar_new_rejects_a_fraction_entry_that_is_no_digit() {
    assert!(Scalar::new(false, 1, vec![0, 10]).is_none());
    assert!(Scalar::new(true, 0, vec![255]).is_none());
}

#[test]
fn scalar_new_rejects_an_empty_fraction() {
    assert!(Scalar::new(false, 1, vec![]).is_none());
}

#[test]
fn scalar_new_accepts_every_digit() {
    let s = Scalar::new(true, 9, vec![0, 1, 2, 3, 4, 5, 6, 7, 8, 9]).unwrap();
    assert!(s.neg);
    assert_eq!(s.int_part, 9);
    assert_eq!(s.frac, vec![0, 1, 2, 3, 4, 5, 6, 7, 8, 9]);
}

#[test]
fn nul_terminate_appends_one_nul() {
    let bytes = b"-----BEGIN-----".to_vec();
    let out = nul_terminate(bytes);
    assert_eq!(out, b"-----BEGIN-----\0".to_vec());
    let empty = nul_terminate(Vec::new());
    assert_eq!(empty, vec![0u8]);
}
