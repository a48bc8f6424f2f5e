use employee_directory::text::{
    blank, chars_of, contains_char, decimal, digit, is_white_space_char, numeral, occurs,
};

fn letters(text: &str) -> Vec<char> {
    text.chars().collect()
}

#[test]
fn decimal_writes_a_number_without_leading_zeros() {
    assert_eq!(decimal(0), "0");
    assert_eq!(decimal(7), "7");
    assert_eq!(decimal(10), "10");
    assert_eq!(decimal(12), "12");
    assert_eq!(decimal(9_000_100), "9000100");
    assert_eq!(decimal(u64::MAX), "18446744073709551615");
    let mut n: u64 = 1;
    while n < 1_000_000_000_000 {
        assert_eq!(decimal(n), n.to_string());
        assert_eq!(decimal(n - 1), (n - 1).to_string());
        n *= 7;
    }
}

#[test]
fn numeral_puts_a_minus_sign_before_a_negative_number() {
    assert_eq!(numeral(0), "0");
    assert_eq!(numeral(42), "42");
    assert_eq!(numeral(-1), "-1");
    assert_eq!(numeral(-120), "-120");
    assert_eq!(numeral(i64::MAX), "9223372036854775807");
    assert_eq!(numeral(i64::MIN), "-9223372036854775808");
    assert_eq!(numeral(i64::MIN + 1), "-9223372036854775807");
}

#[test]
fn digit_is_the_numeral_of_a_number_below_ten() {
    assert_eq!(digit(0), '0');
    assert_eq!(digit(5), '5');
    assert_eq!(digit(9), '9');
}

#[test]
fn white_space_is_what_trimming_removes() {
    let mut code: u32 = 0;
    while code <= 0x10FFFF {
        if let Some(c) = char::from_u32(code) {
            assert_eq!(is_white_space_char(c), c.is_whitespace());
        }
        code += 1;
    }
}

#[test]
fn blank_text_has_nothing_but_white_space() {
    assert!(blank(""));
    assert!(blank(" \t\n\r\u{b}\u{c}"));
    assert!(blank("\u{85}\u{a0}\u{1680}\u{2000}\u{200a}\u{2028}\u{2029}\u{202f}\u{205f}\u{3000}"));
    assert!(!blank("a"));
    assert!(!blank("  a  "));
    assert!(!blank("\u{200b}"));
    assert!(!blank("\u{180e}"));
}

#[test]
fn contains_char_finds_a_character_anywhere() {
    assert!(contains_char("a@b", '@'));
    assert!(contains_char("@ab", '@'));
    assert!(contains_char("ab@", '@'));
    assert!(!contains_char("ab", '@'));
    assert!(!contains_char("", '@'));
    assert!(contains_char("naïve", 'ï'));
}

#[test]
fn chars_of_gives_the_characters_in_order() {
    assert_eq!(chars_of(""), Vec::<char>::new());
    assert_eq!(chars_of("a@b"), vec!['a', '@', 'b']);
    assert_eq!(chars_of("é…z"), vec!['é', '…', 'z']);
}

#[test]
fn occurs_finds_a_substring() {
    assert!(occurs(&letters(""), &letters("")));
    assert!(occurs(&letters(""), &letters("abc")));
    assert!(occurs(&letters("abc"), &letters("abc")));
    assert!(occurs(&letters("bc"), &letters("abc")));
    assert!(occurs(&letters("ab"), &letters("abc")));
    assert!(occurs(&letters("b"), &letters("abc")));
    assert!(occurs(&letters("aab"), &letters("aaab")));
    assert!(!occurs(&letters("abcd"), &letters("abc")));
    assert!(!occurs(&letters("ac"), &letters("abc")));
    assert!(!occurs(&letters("a"), &letters("")));
    assert!(occurs(&letters("ba"), &letters("abab abb")));
}
