use dmexec::pidfile::decimal_bytes;

#[test]
fn decimal_bytes_zero() {
    assert_eq!(decimal_bytes(0), b"0".to_vec());
}

#[test]
fn decimal_bytes_plain_value() {
    assert_eq!(decimal_bytes(407), b"407".to_vec());
}

#[test]
fn decimal_bytes_round_value() {
    assert_eq!(decimal_bytes(1000), b"1000".to_vec());
}

#[test]
fn decimal_bytes_largest() {
    assert_eq!(decimal_bytes(u32::MAX), b"4294967295".to_vec());
}
