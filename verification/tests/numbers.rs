use rusty_hue::arith::{floor_quotient, integer_sqrt, nearest_quotient};
use rusty_hue::gamma::{gamma_compress, gamma_expand, LINEAR_INTENSITY, LINEAR_ONE};
use rusty_hue::text::{decimal_text, digit_str, shortest_decimal_text, replace_all, str_equal};

#[test]
fn nearest_quotient_rounds_halves_up() {
    assert_eq!(nearest_quotient(7, 2), 4);
    assert_eq!(nearest_quotient(-7, 2), -3);
    assert_eq!(nearest_quotient(5, 3), 2);
    assert_eq!(nearest_quotient(4, 3), 1);
    assert_eq!(nearest_quotient(-4, 3), -1);
    assert_eq!(nearest_quotient(-5, 3), -2);
    assert_eq!(nearest_quotient(0, 9), 0);
    assert_eq!(nearest_quotient(-1, 2), 0);
    assert_eq!(nearest_quotient(-3, 2), -1);
    assert_eq!(nearest_quotient(12, 4), 3);
    assert_eq!(nearest_quotient(-12, 4), -3);
}

#[test]
fn floor_quotient_rounds_down() {
    assert_eq!(floor_quotient(7, 2), 3);
    assert_eq!(floor_quotient(-7, 2), -4);
    assert_eq!(floor_quotient(-8, 2), -4);
    assert_eq!(floor_quotient(8, 2), 4);
    assert_eq!(floor_quotient(0, 5), 0);
    assert_eq!(floor_quotient(-1, 5), -1);
}

#[test]
fn integer_sqrt_rounds_down() {
    assert_eq!(integer_sqrt(0), 0);
    assert_eq!(integer_sqrt(1), 1);
    assert_eq!(integer_sqrt(3), 1);
    assert_eq!(integer_sqrt(4), 2);
    assert_eq!(integer_sqrt(99), 9);
    assert_eq!(integer_sqrt(100), 10);
    assert_eq!(integer_sqrt(100_000_000), 10_000);
    assert_eq!(integer_sqrt(u128::MAX), u64::MAX);
    assert_eq!(integer_sqrt((u64::MAX as u128) * (u64::MAX as u128) - 1), u64::MAX - 1);
}

#[test]
fn transfer_curve_values() {
    assert_eq!(gamma_expand(0), 0);
    assert_eq!(gamma_expand(1), 303);
    assert_eq!(gamma_expand(10), 3035);
    assert_eq!(gamma_expand(11), 3346);
    assert_eq!(gamma_expand(100), 127437);
    assert_eq!(gamma_expand(128), 215860);
    assert_eq!(gamma_expand(255), LINEAR_ONE);
}

#[test]
fn transfer_curve_follows_the_formula() {
    for c in 0..=255u8 {
        let v = c as f64 / 255.0;
        let linear = if v > 0.04045 { ((v + 0.055) / 1.055).powf(2.4) } else { v / 12.92 };
        let millionths = linear * 1_000_000.0;
        let g = gamma_expand(c) as f64;
        assert!(g <= millionths + 1e-6 && millionths < g + 1.0 + 1e-6, "{} {} {}", c, g, millionths);
        assert_eq!(gamma_expand(c), LINEAR_INTENSITY[c as usize]);
    }
}

#[test]
fn compressing_gives_the_channel_back() {
    for c in 0..=255u8 {
        assert_eq!(gamma_compress(gamma_expand(c) as i128), c);
    }
}

#[test]
fn compressing_truncates_and_clamps() {
    assert_eq!(gamma_compress(-1), 0);
    assert_eq!(gamma_compress(i128::MIN), 0);
    assert_eq!(gamma_compress(0), 0);
    assert_eq!(gamma_compress(302), 0);
    assert_eq!(gamma_compress(303), 1);
    assert_eq!(gamma_compress(3345), 10);
    assert_eq!(gamma_compress(3346), 11);
    assert_eq!(gamma_compress(127436), 99);
    assert_eq!(gamma_compress(127437), 100);
    assert_eq!(gamma_compress(999_999), 254);
    assert_eq!(gamma_compress(1_000_000), 255);
    assert_eq!(gamma_compress(35_000_000), 255);
    assert_eq!(gamma_compress(i128::MAX), 255);
}

#[test]
fn numbers_in_decimal() {
    assert_eq!(decimal_text(0), "0");
    assert_eq!(decimal_text(7), "7");
    assert_eq!(decimal_text(10), "10");
    assert_eq!(decimal_text(254), "254");
    assert_eq!(decimal_text(u64::MAX), "18446744073709551615");
    assert_eq!(digit_str(0), "0");
    assert_eq!(digit_str(9), "9");
}

#[test]
fn ten_thousandths_in_the_shortest_decimal_form() {
    assert_eq!(shortest_decimal_text(0), "0");
    assert_eq!(shortest_decimal_text(1), "0.0001");
    assert_eq!(shortest_decimal_text(3290), "0.329");
    assert_eq!(shortest_decimal_text(3200), "0.32");
    assert_eq!(shortest_decimal_text(3000), "0.3");
    assert_eq!(shortest_decimal_text(5000), "0.5");
    assert_eq!(shortest_decimal_text(2500), "0.25");
    assert_eq!(shortest_decimal_text(100), "0.01");
    assert_eq!(shortest_decimal_text(10), "0.001");
    assert_eq!(shortest_decimal_text(1010), "0.101");
    assert_eq!(shortest_decimal_text(10000), "1");
    assert_eq!(shortest_decimal_text(-30000), "-3");
    assert_eq!(shortest_decimal_text(120000), "12");
    assert_eq!(shortest_decimal_text(-2500), "-0.25");
    assert_eq!(shortest_decimal_text(-12345), "-1.2345");
    assert_eq!(shortest_decimal_text(-1), "-0.0001");
    assert_eq!(shortest_decimal_text(i64::MAX), "922337203685477.5807");
    assert_eq!(shortest_decimal_text(i64::MIN), "-922337203685477.5808");
}

#[test]
fn strings_are_compared_by_characters() {
    assert!(str_equal("", ""));
    assert!(str_equal("LCT001", "LCT001"));
    assert!(!str_equal("LCT001", "LCT002"));
    assert!(!str_equal("LCT001", "LCT00"));
    assert!(!str_equal("LCT00", "LCT001"));
    assert!(str_equal("gr\u{fc}n", "gr\u{fc}n"));
    assert!(!str_equal("gr\u{fc}n", "grun"));
}

#[test]
fn replacing_goes_from_the_left_without_overlap() {
    assert_eq!(replace_all("aaa", "aa", "b"), "ba");
    assert_eq!(replace_all("aaaa", "aa", "b"), "bb");
    assert_eq!(replace_all("abab", "aba", "x"), "xb");
    assert_eq!(replace_all("", "a", "x"), "");
    assert_eq!(replace_all("abc", "", "-"), "-a-b-c-");
    assert_eq!(replace_all("", "", "x"), "x");
    assert_eq!(replace_all("gr\u{fc}n", "", ""), "gr\u{fc}n");
    assert_eq!(replace_all("a", "ab", "x"), "a");
    assert_eq!(replace_all("type", "type", "light_type"), "light_type");
    assert_eq!(replace_all("\"a\\\"b\"", "\"", ""), "a\\b");
    assert_eq!(replace_all("gr\u{fc}n gr\u{fc}n", "\u{fc}", "ue"), "gruen gruen");
    for (s, from, to) in [
        ("{\"type\":\"Extended color light\",\"archetype\":1}", "type", "light_type"),
        ("tytytype", "type", "-"),
        ("xxxx", "x", "xx"),
        ("abcabc", "bc", ""),
        ("mississippi", "ssi", "SSI"),
        ("mississippi", "issi", "!"),
        ("mississippi", "", "."),
        ("", "", ""),
        ("a", "", "long"),
    ] {
        assert_eq!(replace_all(s, from, to), s.replace(from, to));
    }
}
