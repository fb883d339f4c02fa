//! Texts: the library's own operations against those of the standard library.

use xiaomi_pc_manager_lite::text::{
    chars_of, contains, copy_str, ends_with, eq_ignore_case, is_ascii_digit, is_ascii_letter,
    is_hex_digit, is_white_space, push_decimal, push_hex, push_hex_of_byte, push_hex_of_u32,
    push_lower_hex_of_byte, push_lower_hex_of_u16, starts_with, str_eq, str_less, string_of,
    to_upper, to_uppercase, trim,
};

#[test]
fn character_classes_agree_with_std() {
    for n in 0..=0x10FFFFu32 {
        if let Some(c) = char::from_u32(n) {
            assert_eq!(is_white_space(c), c.is_whitespace(), "{:x}", n);
            assert_eq!(is_hex_digit(c), c.is_ascii_hexdigit(), "{:x}", n);
            assert_eq!(is_ascii_letter(c), c.is_ascii_alphabetic(), "{:x}", n);
            assert_eq!(is_ascii_digit(c), c.is_ascii_digit(), "{:x}", n);
            assert_eq!(to_upper(c), c.to_ascii_uppercase(), "{:x}", n);
        }
    }
}

const SAMPLES: [&str; 9] = [
    "", "a", " a b ", "\u{3000}键\u{a0}", "01-28-01", "MIFS", "mifs", "电池养护", "\t\n",
];

#[test]
fn operations_agree_with_std() {
    for a in SAMPLES {
        assert_eq!(trim(a), a.trim());
        assert_eq!(copy_str(a), a);
        assert_eq!(chars_of(a), a.chars().collect::<Vec<char>>());
        assert_eq!(to_uppercase(a), a.to_ascii_uppercase());
        for b in SAMPLES {
            assert_eq!(str_eq(a, b), a == b);
            assert_eq!(starts_with(a, b), a.starts_with(b));
            assert_eq!(ends_with(a, b), a.ends_with(b));
            assert_eq!(contains(a, b), a.contains(b));
            assert_eq!(str_less(a, b), a < b);
            assert_eq!(eq_ignore_case(a, b), a.eq_ignore_ascii_case(b));
        }
    }
    assert!(contains("ACPI\\PNP0C14\\MIFS_0", "MIFS"));
    assert_eq!(string_of(&vec!['a', '键', 'c'], 1, 3), "键c");
}

#[test]
fn numbers_agree_with_std() {
    for n in [0u64, 1, 9, 10, 15, 16, 99, 255, 256, 65535, 1 << 32, u64::MAX] {
        let mut s = String::from("<");
        push_decimal(&mut s, n);
        assert_eq!(s, format!("<{}", n));
        let mut s = String::from("<");
        push_hex(&mut s, n);
        assert_eq!(s, format!("<{:x}", n));
    }
    for b in 0..=255u8 {
        let mut s = String::new();
        push_hex_of_byte(&mut s, b);
        push_lower_hex_of_byte(&mut s, b);
        assert_eq!(s, format!("{:02X}{:02x}", b, b));
    }
    for n in [0u32, 0xA, 0x8004_102F, u32::MAX] {
        let mut s = String::new();
        push_hex_of_u32(&mut s, n);
        assert_eq!(s, format!("{:08X}", n));
    }
    for n in [0u16, 0xA, 0x168, u16::MAX] {
        let mut s = String::new();
        push_lower_hex_of_u16(&mut s, n);
        assert_eq!(s, format!("{:04x}", n));
    }
}
