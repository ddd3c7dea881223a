//! Laws of texts: characters, numbers, pieces and words.

use vstd::prelude::*;

use crate::strings;
use crate::strings::{
    contains_text, decimal_string, join_texts, parse_decimal, replace_char, split_by_non_letters,
    split_text, to_lowercase_ascii, to_uppercase_ascii, trim_end_of, two_digit_string,
};

verus! {

// ---------------------------------------------------------------------------------------------
// Characters
// ---------------------------------------------------------------------------------------------

/// Of the ASCII characters, the 52 letters are letters, the ten digits are numbers, and the space
/// and the control characters from the tabulator to the carriage return are white space.
pub proof fn ascii_characters_have_their_classes(c: char)
    requires
        (c as u32) < 0x80,
    ensures
        strings::is_letter(c) <==> 'a' <= c <= 'z' || 'A' <= c <= 'Z',
        strings::is_number(c) <==> '0' <= c <= '9',
        strings::is_space(c) <==> c == ' ' || '\t' <= c <= '\r',
{
}

/// A change of letter case keeps the length, moves the letters of one case by 32 and leaves every
/// other character as it is.
pub proof fn letter_case_moves_letters(s: &str, small: String, capital: String, i: int)
    requires
        call_ensures(to_lowercase_ascii, (s,), small),
        call_ensures(to_uppercase_ascii, (s,), capital),
        0 <= i < s@.len(),
    ensures
        small@.len() == s@.len(),
        capital@.len() == s@.len(),
        if 'A' <= s@[i] <= 'Z' {
            small@[i] as u32 == s@[i] as u32 + 32
        } else {
            small@[i] == s@[i]
        },
        if 'a' <= s@[i] <= 'z' {
            capital@[i] as u32 == s@[i] as u32 - 32
        } else {
            capital@[i] == s@[i]
        },
{
}

/// Replacing a character keeps the length, changes the places that hold the character, and no
/// other place.
pub proof fn replacing_changes_one_character(s: &str, from: char, to: char, r: String, i: int)
    requires
        call_ensures(replace_char, (s, from, to), r),
        0 <= i < s@.len(),
    ensures
        r@.len() == s@.len(),
        s@[i] == from ==> r@[i] == to,
        s@[i] != from ==> r@[i] == s@[i],
{
}

/// Trimming takes white space off the end, all of it and nothing else.
pub proof fn trimming_takes_only_white_space_off(s: &str, r: String)
    requires
        call_ensures(trim_end_of, (s,), r),
    ensures
        r@.len() <= s@.len(),
        r@ == s@.take(r@.len() as int),
        forall|i: int| r@.len() <= i < s@.len() ==> strings::is_space(#[trigger] s@[i]),
        r@.len() > 0 ==> !strings::is_space(r@.last()),
{
    let space = |c: char| strings::is_space(c);
    strings::trim_end_is_trimmed(s@, space);
    trimmed_ends_are_padding(s@, space);
    assert(r@ =~= s@.take(r@.len() as int));
}

/// What is trimmed off an end is padding.
pub proof fn trimmed_ends_are_padding(s: Seq<char>, padding: spec_fn(char) -> bool)
    ensures
        strings::trim_end(s, padding).len() <= s.len(),
        strings::trim_end(s, padding) == s.take(strings::trim_end(s, padding).len() as int),
        forall|i: int|
            strings::trim_end(s, padding).len() <= i < s.len() ==> padding(#[trigger] s[i]),
    decreases s.len(),
{
    if s.len() > 0 && padding(s.last()) {
        let shorter = s.drop_last();
        trimmed_ends_are_padding(shorter, padding);
        assert(forall|i: int| 0 <= i < shorter.len() ==> shorter[i] == #[trigger] s[i]);
        assert(strings::trim_end(s, padding) =~= s.take(
            strings::trim_end(s, padding).len() as int,
        ));
    } else {
        assert(s.take(s.len() as int) =~= s);
    }
}

/// What is trimmed off a start is padding.
pub proof fn trimmed_starts_are_padding(s: Seq<char>, padding: spec_fn(char) -> bool)
    ensures
        strings::trim_start(s, padding).len() <= s.len(),
        strings::trim_start(s, padding) == s.skip(s.len() - strings::trim_start(s, padding).len()),
        forall|i: int|
            0 <= i < s.len() - strings::trim_start(s, padding).len() ==> padding(#[trigger] s[i]),
    decreases s.len(),
{
    if s.len() > 0 && padding(s[0]) {
        let shorter = s.skip(1);
        trimmed_starts_are_padding(shorter, padding);
        let r = strings::trim_start(s, padding);
        assert forall|i: int| 0 <= i < s.len() - r.len() implies padding(#[trigger] s[i]) by {
            if i > 0 {
                assert(padding(shorter[i - 1]));
            }
        }
        assert(r =~= s.skip(s.len() - r.len()));
    } else {
        assert(s.skip(0) =~= s);
    }
}

/// A text holds a part exactly where it consists of something, the part and something.
pub proof fn parts_are_found(s: &str, part: &str, b: bool)
    requires
        call_ensures(contains_text, (s, part), b),
    ensures
        b <==> exists|before: Seq<char>, after: Seq<char>|
            s@ == #[trigger] (before + part@ + after),
{
    if b {
        let i = choose|i: int| strings::occurs_at(s@, i, part@);
        let before = s@.take(i);
        let after = s@.skip(i + part@.len());
        assert(s@ =~= before + part@ + after);
    }
    if exists|before: Seq<char>, after: Seq<char>| s@ == #[trigger] (before + part@ + after) {
        let (before, after) = choose|before: Seq<char>, after: Seq<char>|
            s@ == #[trigger] (before + part@ + after);
        let i = before.len() as int;
        assert(s@.subrange(i, i + part@.len()) =~= part@);
        assert(strings::occurs_at(s@, i, part@));
    }
}

/// A list of texts holds the texts of its strings, in their places.
pub proof fn texts_are_those_of_the_strings(v: Seq<String>)
    ensures
        strings::texts(v).len() == v.len(),
        forall|i: int| 0 <= i < v.len() ==> #[trigger] strings::texts(v)[i] == v[i]@,
{
}

// ---------------------------------------------------------------------------------------------
// Numbers
// ---------------------------------------------------------------------------------------------

/// A number of one digit is written as that digit, and with a digit put behind another number
/// that number is ten times as large.
pub proof fn digits_count_tenfold(n: u64, d: u64, shorter: String, longer: String)
    requires
        d < 10,
        n > 0 ==> 10 * n + d <= u64::MAX,
        call_ensures(decimal_string, (n,), shorter),
        call_ensures(decimal_string, ((10 * n + d) as u64,), longer),
    ensures
        n == 0 ==> longer@ == seq![(48 + d) as char],
        n > 0 ==> longer@ == shorter@.push((48 + d) as char),
{
    if n > 0 {
        assert((10 * n + d) / 10 == n);
        assert((10 * n + d) % 10 == d as int);
    }
}

/// A digit behind a run of digits makes its number ten times as large and adds its own value.
pub proof fn values_grow_tenfold(s: Seq<char>, c: char)
    requires
        '0' <= c <= '9',
    ensures
        strings::digits_value(Seq::<char>::empty()) == 0,
        strings::digits_value(s.push(c)) == 10 * strings::digits_value(s) + (c as u32 - 48),
{
    assert(s.push(c).drop_last() =~= s);
}

/// A number below ten gets a zero in front, and any other number is written as it is.
pub proof fn short_numbers_get_a_zero(n: u64, plain: String, padded: String)
    requires
        call_ensures(decimal_string, (n,), plain),
        call_ensures(two_digit_string, (n,), padded),
    ensures
        n < 10 ==> padded@ == seq!['0'] + plain@,
        n >= 10 ==> padded@ == plain@,
{
    assert(n < 10 ==> padded@ =~= seq!['0'] + plain@);
}

/// A number is read back, with a plus sign or without one, where it is not too large.
pub proof fn numbers_are_read_back(s: &str, max: u64, r: Option<u64>, n: u64, written: String)
    requires
        call_ensures(parse_decimal, (s, max), r),
        call_ensures(decimal_string, (n,), written),
        s@ == written@ || s@ == seq!['+'] + written@,
    ensures
        n <= max ==> r == Some(n),
        n > max ==> r is None,
{
    strings::decimal_is_read_back(n as nat);
    assert(strings::is_digit(written@[0]));
    if s@ != written@ {
        assert(s@.skip(1) =~= written@);
    }
    assert(strings::unsigned_part(s@) == written@);
}

/// Only digits are read as a number, in front of which one plus sign may stand.
pub proof fn only_digits_are_numbers(s: &str, max: u64, r: Option<u64>, i: int)
    requires
        call_ensures(parse_decimal, (s, max), r),
    ensures
        s@.len() == 0 ==> r is None,
        s@.len() == 1 && s@[0] == '+' ==> r is None,
        0 <= i < s@.len() && !('0' <= s@[i] <= '9') && !(i == 0 && s@[0] == '+') ==> r is None,
        r matches Some(v) ==> v <= max,
{
    if 0 <= i < s@.len() && !('0' <= s@[i] <= '9') && !(i == 0 && s@[0] == '+') {
        let digits = strings::unsigned_part(s@);
        if s@[0] == '+' {
            assert(digits[i - 1] == s@[i]);
        } else {
            assert(digits[i] == s@[i]);
        }
        assert(!strings::all_digits(digits));
    }
}

// ---------------------------------------------------------------------------------------------
// Splitting and joining
// ---------------------------------------------------------------------------------------------

/// One piece is joined to itself, and a further piece comes behind a separator.
pub proof fn joining_puts_the_separator_between(
    pieces: Seq<Seq<char>>,
    piece: Seq<char>,
    separator: Seq<char>,
)
    ensures
        strings::join(Seq::empty(), separator) == Seq::<char>::empty(),
        strings::join(seq![piece], separator) == piece,
        pieces.len() > 0 ==> strings::join(pieces.push(piece), separator) == strings::join(
            pieces,
            separator,
        ) + separator + piece,
{
    reveal_with_fuel(strings::join, 2);
    assert(seq![piece].drop_last() =~= Seq::<Seq<char>>::empty());
    assert(strings::join(seq![piece], separator) =~= piece);
    assert(pieces.push(piece).drop_last() =~= pieces);
}

/// Two pieces are joined with the separator between them.
pub proof fn two_pieces_are_joined(a: Seq<char>, b: Seq<char>, separator: Seq<char>)
    ensures
        strings::join(seq![a, b], separator) == a + separator + b,
{
    joining_puts_the_separator_between(seq![a], b, separator);
    assert(seq![a].push(b) =~= seq![a, b]);
    joining_puts_the_separator_between(seq![], a, separator);
}

/// Splitting pieces that were joined gives the pieces back, where none of them holds the
/// separator.
pub proof fn splitting_undoes_join(pieces: Seq<Seq<char>>, separator: char)
    requires
        pieces.len() > 0,
        forall|i: int| 0 <= i < pieces.len() ==> !(#[trigger] pieces[i]).contains(separator),
    ensures
        strings::split(strings::join(pieces, seq![separator]), separator) == pieces,
    decreases pieces.len(),
{
    let glue = seq![separator];
    let init = pieces.drop_last();
    let piece = pieces.last();
    assert(!pieces[pieces.len() - 1].contains(separator));
    assert(init.push(piece) =~= pieces);
    joining_puts_the_separator_between(init, piece, glue);
    if init.len() == 0 {
        assert(pieces =~= seq![piece]);
        strings::split_without_separator(piece, separator);
    } else {
        assert forall|i: int| 0 <= i < init.len() implies !(#[trigger] init[i]).contains(
            separator,
        ) by {
            assert(init[i] == pieces[i]);
        }
        splitting_undoes_join(init, separator);
        strings::split_after_separator(strings::join(init, glue), separator, piece);
    }
}

/// What is split and joined again is what it was, and the pieces hold no separator.
pub proof fn a_text_is_its_pieces(
    s: &str,
    separator: char,
    pieces: Vec<String>,
    glue: &str,
    joined: String,
)
    requires
        call_ensures(split_text, (s, separator), pieces),
        glue@ == seq![separator],
        call_ensures(join_texts, (&pieces, 0usize, pieces@.len() as usize, glue), joined),
        pieces@.len() <= usize::MAX,
    ensures
        joined@ == s@,
        pieces@.len() > 0,
        forall|i: int, j: int|
            0 <= i < pieces@.len() && 0 <= j < pieces@[i]@.len() ==> #[trigger] pieces@[i]@[j]
                != separator,
{
    strings::joining_undoes_split(s@, separator);
    strings::split_is_not_empty(s@, separator);
    strings::split_pieces_hold_no_separator(s@, separator);
    let all = strings::texts(pieces@);
    assert(all.subrange(0, pieces@.len() as int) =~= all);
    assert forall|i: int, j: int|
        0 <= i < pieces@.len() && 0 <= j < pieces@[i]@.len() implies #[trigger] pieces@[i]@[j]
        != separator by {
        assert(all[i][j] == pieces@[i]@[j]);
        assert(strings::split(s@, separator)[i][j] != separator);
    }
}

// ---------------------------------------------------------------------------------------------
// Words
// ---------------------------------------------------------------------------------------------

/// A text of letters is one word, whole.
pub proof fn letters_are_one_word(s: Seq<char>)
    requires
        s.len() > 0,
        forall|i: int| 0 <= i < s.len() ==> strings::is_letter(#[trigger] s[i]),
    ensures
        strings::letter_runs(s) == seq![s],
    decreases s.len(),
{
    let shorter = s.drop_last();
    assert(strings::is_letter(s[s.len() - 1]));
    if shorter.len() > 0 {
        assert forall|i: int| 0 <= i < shorter.len() implies strings::is_letter(
            #[trigger] shorter[i],
        ) by {
            assert(strings::is_letter(s[i]));
        }
        letters_are_one_word(shorter);
        assert(strings::is_letter(s[s.len() - 2]));
        assert(shorter.push(s.last()) =~= s);
        assert(strings::letter_runs(s) =~= seq![s]);
    } else {
        assert(strings::letter_runs(shorter) =~= Seq::<Seq<char>>::empty());
        assert(s =~= seq![s.last()]);
        assert(strings::letter_runs(s) =~= seq![s]);
    }
}

/// A character that is no letter ends the words in front of it and belongs to none: the words
/// are those in front of it and those behind it.
pub proof fn other_characters_part_words(before: Seq<char>, c: char, after: Seq<char>)
    requires
        !strings::is_letter(c),
    ensures
        strings::letter_runs(before + seq![c] + after) == strings::letter_runs(before)
            + strings::letter_runs(after),
    decreases after.len(),
{
    let whole = before + seq![c] + after;
    if after.len() == 0 {
        assert(whole.drop_last() =~= before);
        assert(whole.last() == c);
        assert(strings::letter_runs(after) =~= Seq::<Seq<char>>::empty());
        assert(strings::letter_runs(whole) =~= strings::letter_runs(before)
            + strings::letter_runs(after));
    } else {
        let shorter = after.drop_last();
        other_characters_part_words(before, c, shorter);
        assert(whole.drop_last() =~= before + seq![c] + shorter);
        assert(whole.last() == after.last());
        if after.len() > 1 {
            assert(whole[whole.len() - 2] == after[after.len() - 2]);
        } else {
            assert(whole[whole.len() - 2] == c);
        }
        if strings::is_letter(after.last()) && after.len() > 1 && strings::is_letter(
            after[after.len() - 2],
        ) {
            strings::letter_runs_hold_the_letters(shorter);
            assert(shorter.last() == after[after.len() - 2]);
        }
        assert(strings::letter_runs(whole) =~= strings::letter_runs(before)
            + strings::letter_runs(after));
    }
}

/// The words of a text with a character in it that is no letter are the words in front of that
/// character and those behind it.
pub proof fn words_of_parts(
    input: &str,
    first: &str,
    c: char,
    second: &str,
    words: Vec<&str>,
    first_words: Vec<&str>,
    second_words: Vec<&str>,
)
    requires
        input@ == first@ + seq![c] + second@,
        !strings::is_letter(c),
        call_ensures(split_by_non_letters, (input,), words),
        call_ensures(split_by_non_letters, (first,), first_words),
        call_ensures(split_by_non_letters, (second,), second_words),
    ensures
        words@.len() == first_words@.len() + second_words@.len(),
        forall|i: int|
            0 <= i < first_words@.len() ==> (#[trigger] words@[i])@ == first_words@[i]@,
        forall|i: int|
            first_words@.len() <= i < words@.len() ==> (#[trigger] words@[i])@ == second_words@[i
                - first_words@.len()]@,
{
    other_characters_part_words(first@, c, second@);
    let all = strings::slices(words@);
    let left = strings::slices(first_words@);
    let right = strings::slices(second_words@);
    assert(all == left + right);
    assert(all.len() == words@.len());
    assert forall|i: int| 0 <= i < first_words@.len() implies (#[trigger] words@[i])@
        == first_words@[i]@ by {
        assert(all[i] == left[i]);
    }
    assert forall|i: int| first_words@.len() <= i < words@.len() implies (#[trigger] words@[i])@
        == second_words@[i - first_words@.len()]@ by {
        assert(all[i] == right[i - first_words@.len()]);
    }
}

/// A text of letters is one word, and an empty text has none.
pub proof fn words_of_letters(input: &str, words: Vec<&str>)
    requires
        forall|i: int| 0 <= i < input@.len() ==> strings::is_letter(#[trigger] input@[i]),
        call_ensures(split_by_non_letters, (input,), words),
    ensures
        input@.len() == 0 ==> words@.len() == 0,
        input@.len() > 0 ==> words@.len() == 1 && words@[0]@ == input@,
{
    let all = strings::slices(words@);
    assert(all.len() == words@.len());
    if input@.len() > 0 {
        letters_are_one_word(input@);
        assert(all[0] == words@[0]@);
    }
}

} // verus!
