use serve_md::decimal::{push_padded, to_padded};

#[test]
fn numbers_shorter_than_the_width_get_zeros() {
    assert_eq!(to_padded(7, 2), "07");
    assert_eq!(to_padded(0, 2), "00");
    assert_eq!(to_padded(5, 4), "0005");
    assert_eq!(to_padded(970, 4), "0970");
    assert_eq!(to_padded(42, 10), "0000000042");
}

#[test]
fn numbers_of_the_width_are_unchanged() {
    assert_eq!(to_padded(59, 2), "59");
    assert_eq!(to_padded(2024, 4), "2024");
    assert_eq!(to_padded(10, 2), "10");
}

#[test]
fn numbers_longer_than_the_width_are_written_in_full() {
    assert_eq!(to_padded(123, 2), "123");
    assert_eq!(to_padded(10000, 4), "10000");
    assert_eq!(to_padded(u64::MAX, 4), "18446744073709551615");
}

#[test]
fn width_zero_and_one_pad_nothing() {
    assert_eq!(to_padded(0, 0), "0");
    assert_eq!(to_padded(0, 1), "0");
    assert_eq!(to_padded(3000, 0), "3000");
    assert_eq!(to_padded(9, 1), "9");
}

#[test]
fn padded_agrees_with_the_standard_formatting() {
    for n in (0u64..100000u64).step_by(37) {
        assert_eq!(to_padded(n, 4), format!("{:04}", n));
        assert_eq!(to_padded(n, 2), format!("{:02}", n));
        assert_eq!(to_padded(n, 0), format!("{}", n));
    }
}

#[test]
fn push_padded_appends() {
    let mut text = String::from("port ");
    push_padded(&mut text, 80, 5);
    assert_eq!(text, "port 00080");
    push_padded(&mut text, 7, 1);
    assert_eq!(text, "port 000807");
}
