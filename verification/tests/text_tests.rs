use sbcli::text::{decimal_string, trim};

#[test]
fn decimal_of_zero() {
    assert_eq!(decimal_string(0), "0");
}

#[test]
fn decimal_of_a_cookie() {
    assert_eq!(decimal_string(1447413700), "1447413700");
}

#[test]
fn decimal_of_extremes() {
    assert_eq!(decimal_string(9), "9");
    assert_eq!(decimal_string(10), "10");
    assert_eq!(decimal_string(u32::MAX), "4294967295");
}

#[test]
fn decimal_reads_back() {
    for n in [0u32, 7, 42, 1000, 65535, 2088901711] {
        assert_eq!(decimal_string(n).parse::<u32>().unwrap(), n);
    }
}

#[test]
fn trim_removes_unicode_white_space_at_both_ends() {
    assert_eq!(trim("  logout \r\n"), "logout");
    assert_eq!(trim("\u{3000}\u{a0}a b\u{2028}\t"), "a b");
    assert_eq!(trim(""), "");
    assert_eq!(trim(" \n\t "), "");
    assert_eq!(trim("x"), "x");
    assert_eq!(trim("\u{200b}x"), "\u{200b}x");
}
