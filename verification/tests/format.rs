use blinky::format::fmt_i16;
use blinky::format::header_bytes;
use blinky::format::line_bytes;
use blinky::format::report_bytes;
use blinky::sensor::SensorSnapshot;

#[test]
fn fmt_zero() {
    assert_eq!(fmt_i16(0), b"0".to_vec());
}

#[test]
fn fmt_positive() {
    assert_eq!(fmt_i16(7), b"7".to_vec());
    assert_eq!(fmt_i16(42), b"42".to_vec());
    assert_eq!(fmt_i16(12345), b"12345".to_vec());
}

#[test]
fn fmt_negative() {
    assert_eq!(fmt_i16(-1), b"-1".to_vec());
    assert_eq!(fmt_i16(-305), b"-305".to_vec());
}

#[test]
fn fmt_extremes() {
    assert_eq!(fmt_i16(i16::MAX), b"32767".to_vec());
    assert_eq!(fmt_i16(i16::MIN), b"-32768".to_vec());
}

#[test]
fn fmt_round_decades() {
    assert_eq!(fmt_i16(10), b"10".to_vec());
    assert_eq!(fmt_i16(100), b"100".to_vec());
    assert_eq!(fmt_i16(-10000), b"-10000".to_vec());
}

#[test]
fn header_is_fixed() {
    assert_eq!(header_bytes(), b"\nFROM MPU6050: \n".to_vec());
}

#[test]
fn line_layout() {
    assert_eq!(line_bytes(b'A', b'X', -17), b"AX: -17\n".to_vec());
    assert_eq!(line_bytes(b'T', b'P', 0), b"TP: 0\n".to_vec());
}

#[test]
fn report_layout() {
    let s = SensorSnapshot {
        acc_x: 1,
        acc_y: -2,
        acc_z: 3,
        temp: -4,
        gyro_x: 5,
        gyro_y: -6,
        gyro_z: 32767,
    };
    let expected = b"AX: 1\nAY: -2\nAZ: 3\nTP: -4\nGX: 5\nGY: -6\nGZ: 32767\n".to_vec();
    assert_eq!(report_bytes(&s), expected);
}
