use mips_decoder::text::{push_decimal, push_hexadecimal};

fn decimal(n: u32) -> String {
    let mut out = String::new();
    push_decimal(&mut out, n);
    out
}

fn hexadecimal(n: u32) -> String {
    let mut out = String::new();
    push_hexadecimal(&mut out, n);
    out
}

#[test]
fn decimal_numerals_are_appended() {
    let mut out = String::new();
    push_decimal(&mut out, 0);
    assert_eq!(out, "0");
    push_decimal(&mut out, 31);
    assert_eq!(out, "031");
    push_decimal(&mut out, 4_294_967_295);
    assert_eq!(out, "0314294967295");
}

#[test]
fn hexadecimal_numerals_are_lower_case() {
    let mut out = String::from("x");
    push_hexadecimal(&mut out, 0xabcdef);
    assert_eq!(out, "xabcdef");
    push_hexadecimal(&mut out, 0);
    assert_eq!(out, "xabcdef0");
    push_hexadecimal(&mut out, 0xffff_ffff);
    assert_eq!(out, "xabcdef0ffffffff");
}

#[test]
fn numerals_have_no_leading_zero() {
    assert_eq!(decimal(0), "0");
    assert_eq!(decimal(9), "9");
    assert_eq!(decimal(10), "10");
    assert_eq!(decimal(100), "100");
    assert_eq!(decimal(1_000_000_000), "1000000000");
    assert_eq!(hexadecimal(0), "0");
    assert_eq!(hexadecimal(9), "9");
    assert_eq!(hexadecimal(10), "a");
    assert_eq!(hexadecimal(15), "f");
    assert_eq!(hexadecimal(16), "10");
    assert_eq!(hexadecimal(0x1000), "1000");
    assert_eq!(hexadecimal(0x8000_0000), "80000000");
}

#[test]
fn every_digit_is_written() {
    assert_eq!(decimal(1_234_567_890), "1234567890");
    assert_eq!(hexadecimal(0x0123_4567), "1234567");
    assert_eq!(hexadecimal(0x89ab_cdef), "89abcdef");
}

#[test]
fn numerals_agree_with_std() {
    let mut n: u32 = 1;
    for _ in 0..5000 {
        assert_eq!(decimal(n), format!("{}", n));
        assert_eq!(hexadecimal(n), format!("{:x}", n));
        n = n.wrapping_mul(1_664_525).wrapping_add(1_013_904_223);
    }
    for n in 0..=0x1_0000u32 {
        assert_eq!(decimal(n), format!("{}", n));
        assert_eq!(hexadecimal(n), format!("{:x}", n));
    }
}
