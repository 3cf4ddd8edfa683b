use fast_dbc_to_c::text::{decimal_text, hex_text, trim};

#[test]
fn decimal_of_small_and_large_numbers() {
    assert_eq!(decimal_text(0), "0");
    assert_eq!(decimal_text(7), "7");
    assert_eq!(decimal_text(10), "10");
    assert_eq!(decimal_text(16383), "16383");
    assert_eq!(decimal_text(1_000_000), "1000000");
    assert_eq!(decimal_text(u64::MAX), "18446744073709551615");
}

#[test]
fn decimal_agrees_with_the_standard_rendering() {
    for n in [0u64, 1, 9, 10, 11, 99, 100, 101, 255, 256, 4095, 65535, 1 << 40, u64::MAX - 1] {
        assert_eq!(decimal_text(n), format!("{}", n));
    }
}

#[test]
fn hexadecimal_is_lower_case_without_padding() {
    assert_eq!(hex_text(0), "0");
    assert_eq!(hex_text(0x100), "100");
    assert_eq!(hex_text(15), "f");
    assert_eq!(hex_text(16), "10");
    assert_eq!(hex_text(0xDEAD_BEEF), "deadbeef");
    assert_eq!(hex_text(u32::MAX), "ffffffff");
}

#[test]
fn hexadecimal_agrees_with_the_standard_rendering() {
    for n in [0u32, 1, 9, 10, 15, 16, 17, 255, 256, 0x7FF, 0x800, 0x1FFF_FFFF, 0x8000_0000] {
        assert_eq!(hex_text(n), format!("{:x}", n));
    }
}

#[test]
fn trim_cuts_white_space_off_both_ends() {
    assert_eq!(trim("  abc  "), "abc");
    assert_eq!(trim("\t\nabc"), "abc");
    assert_eq!(trim("abc\r\n"), "abc");
    assert_eq!(trim("abc"), "abc");
    assert_eq!(trim("\u{a0}\u{2003}wide\u{3000}"), "wide");
}

#[test]
fn trim_keeps_white_space_inside() {
    assert_eq!(trim(" a  b "), "a  b");
    assert_eq!(trim(" Deg C "), "Deg C");
}

#[test]
fn trim_of_nothing_but_white_space_is_empty() {
    assert_eq!(trim(""), "");
    assert_eq!(trim(" "), "");
    assert_eq!(trim(" \t \n "), "");
}

#[test]
fn trim_agrees_with_the_standard_trim() {
    for s in ["", " ", "x", " x", "x ", " x y ", "\u{feff} x", "é ", " 中文 ", "\u{85}a\u{85}"] {
        assert_eq!(trim(s), s.trim());
    }
}
