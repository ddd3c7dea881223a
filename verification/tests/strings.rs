use ravioni::strings::{
    contains_text, decimal_string, find_last, join_texts, parse_decimal, parse_u32, replace_char,
    same_text, split_by_non_letters, split_text, string_of, chars_of, to_lowercase_ascii,
    to_uppercase_ascii, trim_end_of, two_digit_string,
};

#[test]
fn splits_by_whitespace_and_special_characters() {
    let text = "Hello, World! 123";
    let words = split_by_non_letters(text);
    assert_eq!(words, vec!["Hello", "World"]);
}

#[test]
fn splits_by_special_characters() {
    let text = "Rust-lang:2023-eng";
    let words = split_by_non_letters(text);
    assert_eq!(words, vec!["Rust", "lang", "eng"]);
}

#[test]
fn splits_by_periods() {
    let text = "A.Movie.I.Made.2004.French";
    let words = split_by_non_letters(text);
    assert_eq!(words, vec!["A", "Movie", "I", "Made", "French"]);
}

#[test]
fn letters_outside_ascii_belong_to_words() {
    assert_eq!(vec!["Öß", "été"], split_by_non_letters("Öß-été"));
    assert!(split_by_non_letters("12 34").is_empty());
}

#[test]
fn joining_pieces_gives_the_text_back() {
    let pieces = split_text("a..b.", '.');
    assert_eq!(vec!["a", "", "b", ""], pieces);
    assert_eq!("a..b.", join_texts(&pieces, 0, pieces.len(), "."));
    assert_eq!(1, split_text("", '.').len());
}

#[test]
fn decimal_numbers_are_read_back() {
    assert_eq!("0", decimal_string(0));
    assert_eq!("18446744073709551615", decimal_string(u64::MAX));
    assert_eq!(Some(u64::MAX), parse_decimal("18446744073709551615", u64::MAX));
    assert_eq!("07", two_digit_string(7));
    assert_eq!("123", two_digit_string(123));
    assert_eq!(Some(7), parse_u32("07"));
}

#[test]
fn only_numbers_that_fit_are_read() {
    assert_eq!(Some(4294967295), parse_u32("4294967295"));
    assert_eq!(None, parse_u32("4294967296"));
    assert_eq!(None, parse_u32(""));
    assert_eq!(None, parse_u32("+"));
    assert_eq!(Some(5), parse_u32("+5"));
    assert_eq!(None, parse_u32("-5"));
    assert_eq!(None, parse_u32("5 "));
}

#[test]
fn letter_case_changes_in_ascii_only() {
    assert_eq!("abcÖ", to_lowercase_ascii("ABCÖ"));
    assert_eq!("ABCö", to_uppercase_ascii("abcö"));
}

#[test]
fn texts_are_searched_and_changed() {
    assert!(same_text("abc", "abc"));
    assert!(!same_text("abc", "abd"));
    assert!(!same_text("abc", "ab"));
    assert!(contains_text("a --> b", "-->"));
    assert!(!contains_text("a -- > b", "-->"));
    assert!(contains_text("", ""));
    assert_eq!("a b", replace_char("a.b", '.', ' '));
    let chars = chars_of("a.b.c");
    assert_eq!(Some(3), find_last(&chars, '.'));
    assert_eq!(None, find_last(&chars, 'x'));
    assert_eq!(".b", string_of(&chars, 1, 3));
    assert_eq!("  a", trim_end_of("  a \t\u{a0}"));
    assert_eq!("", trim_end_of(" \n"));
}
