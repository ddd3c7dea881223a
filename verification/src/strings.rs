//! Text as sequences of characters: numbers, splitting and joining, letter case, word runs.

use vstd::prelude::*;

verus! {

// ---------------------------------------------------------------------------------------------
// Characters
// ---------------------------------------------------------------------------------------------

/// Whether `c` is one of `0` to `9`.
pub open spec fn is_digit(c: char) -> bool {
    '0' <= c <= '9'
}

/// Whether `c` is one of the 26 basic Latin letters, in either case.
pub open spec fn is_ascii_letter(c: char) -> bool {
    ('a' <= c <= 'z') || ('A' <= c <= 'Z')
}

/// Whether `c` is one of the white space characters below U+0080.
pub open spec fn is_ascii_space(c: char) -> bool {
    c == ' ' || ('\t' <= c <= '\r')
}

/// Whether a character outside ASCII has the Unicode property `Alphabetic`.
pub uninterp spec fn unicode_alphabetic(c: char) -> bool;

/// Whether a character outside ASCII has the Unicode property `White_Space`.
pub uninterp spec fn unicode_white_space(c: char) -> bool;

/// Whether a character outside ASCII belongs to a Unicode category of numbers.
pub uninterp spec fn unicode_numeric(c: char) -> bool;

/// Whether `c` is a letter.
pub open spec fn is_letter(c: char) -> bool {
    if (c as u32) < 0x80 {
        is_ascii_letter(c)
    } else {
        unicode_alphabetic(c)
    }
}

/// Whether `c` is white space.
pub open spec fn is_space(c: char) -> bool {
    if (c as u32) < 0x80 {
        is_ascii_space(c)
    } else {
        unicode_white_space(c)
    }
}

/// Whether `c` is a number in the Unicode sense, which goes beyond the ten digits.
pub open spec fn is_number(c: char) -> bool {
    if (c as u32) < 0x80 {
        is_digit(c)
    } else {
        unicode_numeric(c)
    }
}

/// The lower case of a text that is not all ASCII.
pub uninterp spec fn unicode_lowercase(s: Seq<char>) -> Seq<char>;

/// Whether all characters of `s` are ASCII characters.
pub open spec fn is_ascii_text(s: Seq<char>) -> bool {
    forall|i: int| 0 <= i < s.len() ==> (#[trigger] s[i] as u32) < 0x80
}

/// `s` in lower case.
pub open spec fn lowered(s: Seq<char>) -> Seq<char> {
    if is_ascii_text(s) {
        lowercase(s)
    } else {
        unicode_lowercase(s)
    }
}

/// `str::to_lowercase`: the lower case of the text by the Unicode rules, which in an ASCII text
/// change the capital letters into the small ones and nothing else.
pub assume_specification[ str::to_lowercase ](s: &str) -> (r: String)
    ensures
        r@ == (if is_ascii_text(s@) {
            lowercase(s@)
        } else {
            unicode_lowercase(s@)
        }),
;

/// `char::is_alphabetic`: the Unicode property `Alphabetic`, which among the ASCII characters
/// the letters have and no other character has.
pub assume_specification[ char::is_alphabetic ](c: char) -> (b: bool)
    ensures
        b == (if (c as u32) < 0x80 {
            is_ascii_letter(c)
        } else {
            unicode_alphabetic(c)
        }),
;

/// `char::is_whitespace`: the Unicode property `White_Space`, which among the ASCII characters
/// the space and U+0009 to U+000D have.
pub assume_specification[ char::is_whitespace ](c: char) -> (b: bool)
    ensures
        b == (if (c as u32) < 0x80 {
            is_ascii_space(c)
        } else {
            unicode_white_space(c)
        }),
;

/// `char::is_numeric`: the Unicode categories of numbers, which among the ASCII characters hold
/// the ten digits.
pub assume_specification[ char::is_numeric ](c: char) -> (b: bool)
    ensures
        b == (if (c as u32) < 0x80 {
            is_digit(c)
        } else {
            unicode_numeric(c)
        }),
;

/// `String::push`: appends one character.
pub assume_specification[ String::push ](s: &mut String, c: char)
    ensures
        final(s)@ == old(s)@.push(c),
;

/// Whether `c` is a digit.
pub fn digit(c: char) -> (b: bool)
    ensures
        b == is_digit(c),
{
    '0' <= c && c <= '9'
}

/// `c`, with the basic Latin capital letters made small.
pub open spec fn lower(c: char) -> char {
    if 'A' <= c <= 'Z' {
        (c as u32 + 32) as char
    } else {
        c
    }
}

/// `c`, with the basic Latin small letters made capital.
pub open spec fn upper(c: char) -> char {
    if 'a' <= c <= 'z' {
        (c as u32 - 32) as char
    } else {
        c
    }
}

fn lower_char(c: char) -> (r: char)
    ensures
        r == lower(c),
{
    if 'A' <= c && c <= 'Z' {
        (c as u8 + 32) as char
    } else {
        c
    }
}

fn upper_char(c: char) -> (r: char)
    ensures
        r == upper(c),
{
    if 'a' <= c && c <= 'z' {
        (c as u8 - 32) as char
    } else {
        c
    }
}

// ---------------------------------------------------------------------------------------------
// Texts
// ---------------------------------------------------------------------------------------------

/// The characters of each string of a sequence.
pub open spec fn texts(v: Seq<String>) -> Seq<Seq<char>> {
    v.map_values(|s: String| s@)
}

/// The characters of each slice of a sequence.
pub open spec fn slices(v: Seq<&str>) -> Seq<Seq<char>> {
    v.map_values(|s: &str| s@)
}

/// Whether `part` occurs in `s` at position `i`.
pub open spec fn occurs_at(s: Seq<char>, i: int, part: Seq<char>) -> bool {
    &&& 0 <= i
    &&& i + part.len() <= s.len()
    &&& s.subrange(i, i + part.len()) == part
}

/// Whether `part` occurs anywhere in `s`.
pub open spec fn occurs_in(s: Seq<char>, part: Seq<char>) -> bool {
    exists|i: int| occurs_at(s, i, part)
}

/// `s` in basic Latin small letters.
pub open spec fn lowercase(s: Seq<char>) -> Seq<char> {
    s.map_values(|c: char| lower(c))
}

/// `s` in basic Latin capital letters.
pub open spec fn uppercase(s: Seq<char>) -> Seq<char> {
    s.map_values(|c: char| upper(c))
}

/// `s` with each `from` replaced by `to`.
pub open spec fn replaced(s: Seq<char>, from: char, to: char) -> Seq<char> {
    s.map_values(|c: char| if c == from { to } else { c })
}

/// The position of the last `c` in `s`.
pub open spec fn last_position(s: Seq<char>, c: char) -> Option<int>
    decreases s.len(),
{
    if s.len() == 0 {
        None
    } else if s.last() == c {
        Some(s.len() - 1)
    } else {
        last_position(s.drop_last(), c)
    }
}

/// A last position lies in the text, holds the character, and no later position does; where
/// there is none, the character does not occur.
pub proof fn last_position_is_last(s: Seq<char>, c: char)
    ensures
        last_position(s, c) matches Some(p) ==> 0 <= p < s.len() && s[p] == c && forall|j: int|
            p < j < s.len() ==> #[trigger] s[j] != c,
        last_position(s, c) is None ==> forall|j: int| 0 <= j < s.len() ==> #[trigger] s[j] != c,
    decreases s.len(),
{
    if s.len() > 0 && s.last() != c {
        last_position_is_last(s.drop_last(), c);
        assert(forall|j: int| 0 <= j < s.len() - 1 ==> s.drop_last()[j] == #[trigger] s[j]);
    }
}

/// The position that holds the character, with none after it, is the last position.
pub proof fn last_position_is_unique(s: Seq<char>, c: char, p: int)
    requires
        0 <= p < s.len(),
        s[p] == c,
        forall|j: int| p < j < s.len() ==> #[trigger] s[j] != c,
    ensures
        last_position(s, c) == Some(p),
{
    last_position_is_last(s, c);
    if let Some(q) = last_position(s, c) {
        if q < p {
            assert(s[p] != c);
        }
        if p < q {
            assert(s[q] != c);
        }
    }
}

/// The position of the last `c` in `chars`.
pub fn find_last(chars: &Vec<char>, c: char) -> (r: Option<usize>)
    ensures
        r matches Some(p) ==> last_position(chars@, c) == Some(p as int) && p < chars.len(),
        r is None ==> last_position(chars@, c) is None,
{
    let mut i: usize = chars.len();
    assert(chars@.take(i as int) =~= chars@);
    while i > 0
        invariant
            i <= chars.len(),
            last_position(chars@, c) == last_position(chars@.take(i as int), c),
        decreases i,
    {
        assert(chars@.take(i as int).drop_last() =~= chars@.take(i - 1));
        i -= 1;
        if chars[i] == c {
            return Some(i);
        }
    }
    None
}

/// `s` without the characters at its start for which `padding` holds.
pub open spec fn trim_start(s: Seq<char>, padding: spec_fn(char) -> bool) -> Seq<char>
    decreases s.len(),
{
    if s.len() > 0 && padding(s[0]) {
        trim_start(s.skip(1), padding)
    } else {
        s
    }
}

/// `s` without the characters at its end for which `padding` holds.
pub open spec fn trim_end(s: Seq<char>, padding: spec_fn(char) -> bool) -> Seq<char>
    decreases s.len(),
{
    if s.len() > 0 && padding(s.last()) {
        trim_end(s.drop_last(), padding)
    } else {
        s
    }
}

/// What is left after trimming the start is an end of the text that does not start with padding.
pub proof fn trim_start_is_trimmed(s: Seq<char>, padding: spec_fn(char) -> bool)
    ensures
        trim_start(s, padding).is_suffix_of(s),
        trim_start(s, padding).len() > 0 ==> !padding(trim_start(s, padding)[0]),
    decreases s.len(),
{
    if s.len() > 0 && padding(s[0]) {
        trim_start_is_trimmed(s.skip(1), padding);
        let r = trim_start(s, padding);
        assert(r == s.skip(1).subrange(s.len() - 1 - r.len(), s.len() - 1));
        assert(r =~= s.subrange(s.len() - r.len(), s.len() as int));
    }
}

/// What is left after trimming the end is a start of the text that does not end with padding.
pub proof fn trim_end_is_trimmed(s: Seq<char>, padding: spec_fn(char) -> bool)
    ensures
        trim_end(s, padding).is_prefix_of(s),
        trim_end(s, padding).len() > 0 ==> !padding(trim_end(s, padding).last()),
    decreases s.len(),
{
    if s.len() > 0 && padding(s.last()) {
        trim_end_is_trimmed(s.drop_last(), padding);
    }
}

/// `s` without the white space at its end.
pub fn trim_end_of(s: &str) -> (r: String)
    ensures
        r@ == trim_end(s@, |c: char| is_space(c)),
{
    let chars = chars_of(s);
    let mut end: usize = chars.len();
    assert(s@.take(end as int) =~= s@);
    while end > 0 && chars[end - 1].is_whitespace()
        invariant
            chars@ == s@,
            end <= chars@.len(),
            trim_end(s@, |c: char| is_space(c)) == trim_end(
                s@.take(end as int),
                |c: char| is_space(c),
            ),
        decreases end,
    {
        assert(s@.take(end as int).drop_last() =~= s@.take(end - 1));
        end -= 1;
    }
    let r = string_of(&chars, 0, end);
    assert(r@ =~= s@.take(end as int));
    r
}

pub broadcast proof fn texts_push(v: Seq<String>, s: String)
    ensures
        #[trigger] texts(v.push(s)) == texts(v).push(s@),
{
    assert(texts(v.push(s)) =~= texts(v).push(s@));
}

pub broadcast proof fn texts_add(a: Seq<String>, b: Seq<String>)
    ensures
        #[trigger] texts(a + b) == texts(a) + texts(b),
{
    assert(texts(a + b) =~= texts(a) + texts(b));
}

pub broadcast proof fn texts_empty()
    ensures
        #[trigger] texts(Seq::<String>::empty()) == Seq::<Seq<char>>::empty(),
{
    assert(texts(Seq::<String>::empty()) =~= Seq::<Seq<char>>::empty());
}

pub broadcast group group_texts {
    texts_push,
    texts_add,
    texts_empty,
}

/// The characters of `s`.
pub fn chars_of(s: &str) -> (r: Vec<char>)
    ensures
        r@ == s@,
{
    let mut r: Vec<char> = Vec::new();
    for c in it: s.chars()
        invariant
            it.seq() == s@,
            r@ == s@.take(it.index()),
    {
        r.push(c);
        assert(s@.take(it.index() + 1) =~= s@.take(it.index()).push(c));
    }
    assert(s@.take(s@.len() as int) =~= s@);
    r
}

/// The string made of the characters from `from` up to `to`.
pub fn string_of(chars: &Vec<char>, from: usize, to: usize) -> (r: String)
    requires
        from <= to <= chars@.len(),
    ensures
        r@ == chars@.subrange(from as int, to as int),
{
    let mut r = String::new();
    let mut i: usize = from;
    while i < to
        invariant
            from <= i <= to <= chars@.len(),
            r@ == chars@.subrange(from as int, i as int),
        decreases to - i,
    {
        r.push(chars[i]);
        i += 1;
        assert(chars@.subrange(from as int, i as int) =~= chars@.subrange(
            from as int,
            i - 1,
        ).push(chars@[i - 1]));
    }
    r
}

/// Whether `part` occurs in `chars` at position `i`.
pub fn occurs_here(chars: &Vec<char>, i: usize, part: &str) -> (b: bool)
    ensures
        b == occurs_at(chars@, i as int, part@),
{
    let wanted = chars_of(part);
    if i > chars.len() || wanted.len() > chars.len() - i {
        return false;
    }
    let mut k: usize = 0;
    while k < wanted.len()
        invariant
            i + wanted.len() <= chars.len(),
            k <= wanted.len(),
            wanted@ == part@,
            forall|j: int| 0 <= j < k ==> chars@[i + j] == #[trigger] wanted@[j],
        decreases wanted@.len() - k,
    {
        if chars[i + k] != wanted[k] {
            assert(chars@.subrange(i as int, i + part@.len())[k as int] != part@[k as int]);
            return false;
        }
        k += 1;
    }
    assert(chars@.subrange(i as int, i + part@.len()) =~= part@);
    true
}

/// Whether two texts are the same.
pub fn same_text(a: &str, b: &str) -> (r: bool)
    ensures
        r == (a@ == b@),
{
    let chars = chars_of(a);
    let other = chars_of(b);
    if chars.len() != other.len() {
        return false;
    }
    let r = occurs_here(&chars, 0, b);
    assert(a@.subrange(0, a@.len() as int) =~= a@);
    r
}

/// Whether `part` occurs anywhere in `s`.
pub fn contains_text(s: &str, part: &str) -> (b: bool)
    ensures
        b == occurs_in(s@, part@),
{
    let chars = chars_of(s);
    let mut i: usize = 0;
    while i < chars.len()
        invariant
            chars@ == s@,
            i <= chars@.len(),
            forall|j: int| 0 <= j < i ==> !#[trigger] occurs_at(s@, j, part@),
        decreases chars@.len() - i,
    {
        if occurs_here(&chars, i, part) {
            return true;
        }
        i += 1;
    }
    occurs_here(&chars, i, part)
}

/// `s` in basic Latin small letters.
pub fn to_lowercase_ascii(s: &str) -> (r: String)
    ensures
        r@ == lowercase(s@),
{
    let mut r = String::new();
    for c in it: s.chars()
        invariant
            it.seq() == s@,
            r@ == lowercase(s@.take(it.index())),
    {
        r.push(lower_char(c));
        assert(lowercase(s@.take(it.index() + 1)) =~= lowercase(s@.take(it.index())).push(
            lower(c),
        ));
    }
    assert(s@.take(s@.len() as int) =~= s@);
    r
}

/// `s` in basic Latin capital letters.
pub fn to_uppercase_ascii(s: &str) -> (r: String)
    ensures
        r@ == uppercase(s@),
{
    let mut r = String::new();
    for c in it: s.chars()
        invariant
            it.seq() == s@,
            r@ == uppercase(s@.take(it.index())),
    {
        r.push(upper_char(c));
        assert(uppercase(s@.take(it.index() + 1)) =~= uppercase(s@.take(it.index())).push(
            upper(c),
        ));
    }
    assert(s@.take(s@.len() as int) =~= s@);
    r
}

/// `s` with each `from` replaced by `to`.
pub fn replace_char(s: &str, from: char, to: char) -> (r: String)
    ensures
        r@ == replaced(s@, from, to),
{
    let mut r = String::new();
    for c in it: s.chars()
        invariant
            it.seq() == s@,
            r@ == replaced(s@.take(it.index()), from, to),
    {
        if c == from {
            r.push(to);
        } else {
            r.push(c);
        }
        assert(replaced(s@.take(it.index() + 1), from, to) =~= replaced(
            s@.take(it.index()),
            from,
            to,
        ).push(if c == from { to } else { c }));
    }
    assert(s@.take(s@.len() as int) =~= s@);
    r
}


// ---------------------------------------------------------------------------------------------
// Numbers
// ---------------------------------------------------------------------------------------------

/// The character of a digit.
pub open spec fn digit_char(d: nat) -> char {
    (48 + d) as char
}

/// `n` in decimal notation, without leading zeros.
pub open spec fn decimal(n: nat) -> Seq<char>
    decreases n,
{
    if n < 10 {
        seq![digit_char(n)]
    } else {
        decimal(n / 10).push(digit_char(n % 10))
    }
}

/// `n` in decimal notation, with at least two digits.
pub open spec fn two_digits(n: nat) -> Seq<char> {
    if n < 10 {
        seq!['0', digit_char(n)]
    } else {
        decimal(n)
    }
}

/// Whether `s` holds digits only.
pub open spec fn all_digits(s: Seq<char>) -> bool {
    forall|i: int| 0 <= i < s.len() ==> is_digit(#[trigger] s[i])
}

/// The number that a run of digits stands for.
pub open spec fn digits_value(s: Seq<char>) -> nat
    decreases s.len(),
{
    if s.len() == 0 {
        0
    } else {
        digits_value(s.drop_last()) * 10 + (s.last() as u32 - 48) as nat
    }
}

/// `s` without the plus sign that may stand in front of a number.
pub open spec fn unsigned_part(s: Seq<char>) -> Seq<char> {
    if s.len() > 0 && s[0] == '+' {
        s.skip(1)
    } else {
        s
    }
}

/// The number that `s` denotes, if `s` is an optional plus sign followed by one or more digits
/// and the number is at most `max`.
pub open spec fn parsed(s: Seq<char>, max: nat) -> Option<nat> {
    let digits = unsigned_part(s);
    if digits.len() > 0 && all_digits(digits) && digits_value(digits) <= max {
        Some(digits_value(digits))
    } else {
        None
    }
}

/// A number's decimal notation is one or more digits, which stand for that number.
pub proof fn decimal_is_read_back(n: nat)
    ensures
        decimal(n).len() > 0,
        all_digits(decimal(n)),
        digits_value(decimal(n)) == n,
    decreases n,
{
    reveal_with_fuel(digits_value, 2);
    if n < 10 {
        assert(decimal(n).drop_last() =~= Seq::<char>::empty());
    } else {
        decimal_is_read_back(n / 10);
        assert(decimal(n).drop_last() =~= decimal(n / 10));
    }
}

/// Writing a number and reading it gives the number back.
pub proof fn parsing_undoes_decimal(n: nat, max: nat)
    requires
        n <= max,
    ensures
        parsed(decimal(n), max) == Some(n),
{
    decimal_is_read_back(n);
    assert(is_digit(decimal(n)[0]));
}

/// Two different numbers are never written alike.
pub proof fn decimal_is_injective(m: nat, n: nat)
    requires
        decimal(m) == decimal(n),
    ensures
        m == n,
{
    decimal_is_read_back(m);
    decimal_is_read_back(n);
}

/// The two-digit notation of a number reads back as the number.
pub proof fn parsing_undoes_two_digits(n: nat, max: nat)
    requires
        n <= max,
    ensures
        parsed(two_digits(n), max) == Some(n),
        all_digits(two_digits(n)),
        two_digits(n).len() >= 2,
{
    decimal_is_read_back(n);
    if n < 10 {
        reveal_with_fuel(digits_value, 3);
        let s = two_digits(n);
        assert(s.drop_last() =~= seq!['0']);
        assert(s.drop_last().drop_last() =~= Seq::<char>::empty());
    } else {
        decimal_is_read_back(n / 10);
        assert(is_digit(decimal(n)[0]));
    }
}

proof fn prefix_value_is_smaller(s: Seq<char>, k: int)
    requires
        0 <= k <= s.len(),
        all_digits(s),
    ensures
        digits_value(s.take(k)) <= digits_value(s),
    decreases s.len(),
{
    if k < s.len() {
        prefix_value_is_smaller(s.drop_last(), k);
        assert(s.drop_last().take(k) =~= s.take(k));
    } else {
        assert(s.take(k) =~= s);
    }
}

/// `n` in decimal notation.
pub fn decimal_string(n: u64) -> (r: String)
    ensures
        r@ == decimal(n as nat),
    decreases n,
{
    let last: u8 = (n % 10) as u8;
    let mut r = if n < 10 {
        String::new()
    } else {
        decimal_string(n / 10)
    };
    r.push((48 + last) as char);
    r
}

/// `n` in decimal notation, with at least two digits.
pub fn two_digit_string(n: u64) -> (r: String)
    ensures
        r@ == two_digits(n as nat),
{
    if n < 10 {
        let mut r = String::new();
        r.push('0');
        r.append(decimal_string(n).as_str());
        assert(r@ =~= two_digits(n as nat));
        r
    } else {
        decimal_string(n)
    }
}

/// Reads a number of at most `max`.
pub fn parse_decimal(s: &str, max: u64) -> (r: Option<u64>)
    ensures
        r matches Some(v) ==> parsed(s@, max as nat) == Some(v as nat),
        r is None ==> parsed(s@, max as nat) is None,
{
    let chars = chars_of(s);
    let start: usize = if chars.len() > 0 && chars[0] == '+' {
        1
    } else {
        0
    };
    let ghost digits = unsigned_part(s@);
    assert(digits =~= s@.skip(start as int));
    if start == chars.len() {
        return None;
    }
    let mut value: u64 = 0;
    let mut i: usize = start;
    assert(digits.take(0) =~= Seq::<char>::empty());
    while i < chars.len()
        invariant
            chars@ == s@,
            start <= i <= chars.len(),
            digits == s@.skip(start as int),
            digits == unsigned_part(s@),
            digits.len() > 0,
            value <= max,
            value == digits_value(digits.take(i - start)),
            forall|j: int| 0 <= j < i - start ==> is_digit(#[trigger] digits[j]),
        decreases chars.len() - i,
    {
        let c = chars[i];
        assert(c == digits[i - start]);
        if !digit(c) {
            return None;
        }
        let next: u128 = value as u128 * 10 + (c as u32 - 48) as u128;
        proof {
            let k = i - start;
            assert(digits.take(k + 1).drop_last() =~= digits.take(k));
            assert(digits.take(k + 1).last() == c);
            assert(next == digits_value(digits.take(k + 1)));
        }
        if next > max as u128 {
            proof {
                if all_digits(digits) {
                    prefix_value_is_smaller(digits, i - start + 1);
                }
            }
            return None;
        }
        value = next as u64;
        i += 1;
    }
    assert(digits.take(digits.len() as int) =~= digits);
    Some(value)
}

/// Reads a number that fits in 32 bits.
pub fn parse_u32(s: &str) -> (r: Option<u32>)
    ensures
        r matches Some(v) ==> parsed(s@, u32::MAX as nat) == Some(v as nat),
        r is None ==> parsed(s@, u32::MAX as nat) is None,
{
    match parse_decimal(s, u32::MAX as u64) {
        Some(v) => Some(v as u32),
        None => None,
    }
}

// ---------------------------------------------------------------------------------------------
// Splitting and joining
// ---------------------------------------------------------------------------------------------

/// The pieces of `s` between the occurrences of `separator`, in order. There is always one
/// piece more than there are separators, and pieces may be empty.
pub open spec fn split(s: Seq<char>, separator: char) -> Seq<Seq<char>>
    decreases s.len(),
{
    if s.len() == 0 {
        seq![Seq::<char>::empty()]
    } else {
        let before = split(s.drop_last(), separator);
        if s.last() == separator {
            before.push(Seq::<char>::empty())
        } else {
            before.drop_last().push(before.last().push(s.last()))
        }
    }
}

/// The pieces one after the other, with `separator` between each two of them.
pub open spec fn join(pieces: Seq<Seq<char>>, separator: Seq<char>) -> Seq<char>
    decreases pieces.len(),
{
    if pieces.len() == 0 {
        Seq::empty()
    } else {
        let before = join(pieces.drop_last(), separator);
        (if pieces.len() == 1 {
            before
        } else {
            before + separator
        }) + pieces.last()
    }
}

/// A split has at least one piece.
pub proof fn split_is_not_empty(s: Seq<char>, separator: char)
    ensures
        split(s, separator).len() > 0,
    decreases s.len(),
{
    if s.len() > 0 {
        split_is_not_empty(s.drop_last(), separator);
    }
}

/// Joining the pieces of a text with the separator that it was split at gives the text back.
pub proof fn joining_undoes_split(s: Seq<char>, separator: char)
    ensures
        join(split(s, separator), seq![separator]) == s,
    decreases s.len(),
{
    reveal_with_fuel(join, 2);
    if s.len() == 0 {
        assert(split(s, separator).drop_last() =~= Seq::<Seq<char>>::empty());
        assert(join(split(s, separator), seq![separator]) =~= s);
    } else {
        let shorter = s.drop_last();
        let before = split(shorter, separator);
        let pieces = split(s, separator);
        split_is_not_empty(shorter, separator);
        joining_undoes_split(shorter, separator);
        assert(pieces.drop_last() =~= if s.last() == separator {
            before
        } else {
            before.drop_last()
        });
        let glue = seq![separator];
        if s.last() == separator {
            assert(join(pieces, glue) == join(before, glue) + glue + Seq::<char>::empty());
        } else {
            let start = if before.len() == 1 {
                join(before.drop_last(), glue)
            } else {
                join(before.drop_last(), glue) + glue
            };
            assert(join(before, glue) == start + before.last());
            assert(join(pieces, glue) == start + before.last().push(s.last()));
        }
        assert(join(before, glue) == shorter);
        assert(s =~= shorter.push(s.last()));
        assert(join(pieces, glue) =~= shorter.push(s.last()));
    }
}

/// No piece of a split holds the separator.
pub proof fn split_pieces_hold_no_separator(s: Seq<char>, separator: char)
    ensures
        forall|i: int, j: int|
            0 <= i < split(s, separator).len() && 0 <= j < split(s, separator)[i].len()
                ==> #[trigger] split(s, separator)[i][j] != separator,
    decreases s.len(),
{
    if s.len() > 0 {
        split_is_not_empty(s.drop_last(), separator);
        split_pieces_hold_no_separator(s.drop_last(), separator);
        let before = split(s.drop_last(), separator);
        let pieces = split(s, separator);
        assert forall|i: int, j: int|
            0 <= i < pieces.len() && 0 <= j < pieces[i].len() implies #[trigger] pieces[i][j]
            != separator by {
            if i < pieces.len() - 1 {
                assert(pieces[i] == before[i]);
                assert(before[i][j] != separator);
            } else if s.last() != separator {
                if j < before.last().len() {
                    assert(pieces[i][j] == before[i][j]);
                }
            }
        }
    }
}

/// A text without the separator is its own only piece.
pub proof fn split_without_separator(s: Seq<char>, separator: char)
    requires
        !s.contains(separator),
    ensures
        split(s, separator) == seq![s],
    decreases s.len(),
{
    if s.len() > 0 {
        let shorter = s.drop_last();
        assert forall|i: int| 0 <= i < shorter.len() implies shorter[i] != separator by {
            assert(s.contains(s[i]));
        }
        split_without_separator(shorter, separator);
        assert(s.contains(s.last()));
        assert(shorter.push(s.last()) =~= s);
        assert(split(s, separator) =~= seq![s]);
    } else {
        assert(s =~= Seq::<char>::empty());
    }
}

/// A separator and a text without one, put behind a text, add one piece to its pieces.
pub proof fn split_after_separator(s: Seq<char>, separator: char, piece: Seq<char>)
    requires
        !piece.contains(separator),
    ensures
        split(s + seq![separator] + piece, separator) == split(s, separator).push(piece),
    decreases piece.len(),
{
    let whole = s + seq![separator] + piece;
    split_is_not_empty(s, separator);
    if piece.len() == 0 {
        assert(whole.drop_last() =~= s);
        assert(whole.last() == separator);
        assert(piece =~= Seq::<char>::empty());
    } else {
        let shorter = piece.drop_last();
        assert forall|i: int| 0 <= i < shorter.len() implies shorter[i] != separator by {
            assert(piece.contains(piece[i]));
        }
        split_after_separator(s, separator, shorter);
        assert(piece.contains(piece.last()));
        assert(whole.drop_last() =~= s + seq![separator] + shorter);
        assert(shorter.push(piece.last()) =~= piece);
        assert(split(whole, separator) =~= split(s, separator).push(piece));
    }
}

/// The pieces of `s` between the occurrences of `separator`.
pub fn split_text(s: &str, separator: char) -> (r: Vec<String>)
    ensures
        texts(r@) == split(s@, separator),
{
    let mut pieces: Vec<String> = Vec::new();
    let mut current = String::new();
    proof {
        assert(s@.take(0) =~= Seq::<char>::empty());
        assert(texts(pieces@).push(current@) =~= split(s@.take(0), separator));
    }
    for c in it: s.chars()
        invariant
            it.seq() == s@,
            texts(pieces@).push(current@) == split(s@.take(it.index()), separator),
    {
        proof {
            let k = it.index();
            assert(s@.take(k + 1).drop_last() =~= s@.take(k));
            assert(s@.take(k + 1).last() == c);
        }
        let ghost before = split(s@.take(it.index()), separator);
        let ghost current_text = current@;
        assert(before.drop_last() =~= texts(pieces@));
        if c == separator {
            let ghost old_pieces = pieces@;
            pieces.push(current);
            current = String::new();
            proof {
                texts_push(old_pieces, pieces@.last());
                assert(pieces@ =~= old_pieces.push(pieces@.last()));
            }
        } else {
            current.push(c);
        }
        assert(texts(pieces@).push(current@) =~= split(s@.take(it.index() + 1), separator));
    }
    let ghost old_pieces = pieces@;
    assert(s@.take(s@.len() as int) =~= s@);
    pieces.push(current);
    proof {
        texts_push(old_pieces, pieces@.last());
        assert(pieces@ =~= old_pieces.push(pieces@.last()));
    }
    pieces
}

/// The pieces from `from` up to `to`, joined with `separator`.
pub fn join_texts(pieces: &Vec<String>, from: usize, to: usize, separator: &str) -> (r: String)
    requires
        from <= to <= pieces@.len(),
    ensures
        r@ == join(texts(pieces@).subrange(from as int, to as int), separator@),
{
    let mut r = String::new();
    let mut i: usize = from;
    let ghost all = texts(pieces@);
    assert(all.subrange(from as int, from as int) =~= Seq::<Seq<char>>::empty());
    while i < to
        invariant
            from <= i <= to <= pieces@.len(),
            all == texts(pieces@),
            r@ == join(all.subrange(from as int, i as int), separator@),
        decreases to - i,
    {
        if i > from {
            r.append(separator);
        }
        r.append(pieces[i].as_str());
        proof {
            let longer = all.subrange(from as int, i + 1);
            assert(longer.drop_last() =~= all.subrange(from as int, i as int));
            assert(longer.last() == pieces@[i as int]@);
        }
        i += 1;
    }
    r
}

// ---------------------------------------------------------------------------------------------
// Words
// ---------------------------------------------------------------------------------------------

/// The maximal runs of letters in `s`, in order.
pub open spec fn letter_runs(s: Seq<char>) -> Seq<Seq<char>>
    decreases s.len(),
{
    if s.len() == 0 {
        Seq::empty()
    } else {
        let before = letter_runs(s.drop_last());
        if !is_letter(s.last()) {
            before
        } else if s.len() > 1 && is_letter(s[s.len() - 2]) {
            before.drop_last().push(before.last().push(s.last()))
        } else {
            before.push(seq![s.last()])
        }
    }
}

/// Every word is a nonempty run of letters, the words together hold all letters of the text
/// in their order, and a text that ends in a letter ends in its last word.
pub proof fn letter_runs_hold_the_letters(s: Seq<char>)
    ensures
        forall|i: int| 0 <= i < letter_runs(s).len() ==> (#[trigger] letter_runs(s)[i]).len() > 0,
        forall|i: int, j: int|
            0 <= i < letter_runs(s).len() && 0 <= j < letter_runs(s)[i].len() ==> is_letter(
                #[trigger] letter_runs(s)[i][j],
            ),
        letter_runs(s).flatten() == s.filter(|c: char| is_letter(c)),
        s.len() > 0 && is_letter(s.last()) ==> letter_runs(s).len() > 0
            && letter_runs(s).last().is_suffix_of(s),
    decreases s.len(),
{
    let letter = |c: char| is_letter(c);
    reveal(Seq::filter);
    if s.len() == 0 {
        assert(letter_runs(s) =~= Seq::<Seq<char>>::empty());
        assert(letter_runs(s).flatten() =~= Seq::<char>::empty());
        assert(s.filter(letter) =~= Seq::<char>::empty());
    } else {
        let shorter = s.drop_last();
        letter_runs_hold_the_letters(shorter);
        let before = letter_runs(shorter);
        let runs = letter_runs(s);
        assert(s.filter(letter) == if is_letter(s.last()) {
            shorter.filter(letter).push(s.last())
        } else {
            shorter.filter(letter)
        });
        if is_letter(s.last()) {
            if s.len() > 1 && is_letter(s[s.len() - 2]) {
                assert(shorter.last() == s[s.len() - 2]);
                let init = before.drop_last();
                assert(before =~= init.push(before.last()));
                Seq::lemma_flatten_push(init, before.last());
                Seq::lemma_flatten_push(init, before.last().push(s.last()));
                assert(runs.flatten() =~= before.flatten().push(s.last()));
                assert forall|i: int, j: int|
                    0 <= i < runs.len() && 0 <= j < runs[i].len() implies is_letter(
                    #[trigger] runs[i][j],
                ) by {
                    if i < runs.len() - 1 {
                        assert(runs[i] == before[i]);
                        assert(is_letter(before[i][j]));
                    } else if j < before.last().len() {
                        assert(runs[i][j] == before[before.len() - 1][j]);
                    }
                }
                assert forall|i: int| 0 <= i < runs.len() implies (#[trigger] runs[i]).len()
                    > 0 by {
                    if i < runs.len() - 1 {
                        assert(runs[i] == before[i]);
                    }
                }
                let w = before.last();
                assert(shorter.subrange(shorter.len() - w.len(), shorter.len() as int) =~= w);
                assert(s.subrange(s.len() - w.len() - 1, s.len() as int) =~= w.push(s.last()));
            } else {
                Seq::lemma_flatten_push(before, seq![s.last()]);
                assert(runs.flatten() =~= before.flatten().push(s.last()));
                assert forall|i: int, j: int|
                    0 <= i < runs.len() && 0 <= j < runs[i].len() implies is_letter(
                    #[trigger] runs[i][j],
                ) by {
                    if i < runs.len() - 1 {
                        assert(runs[i] == before[i]);
                        assert(is_letter(before[i][j]));
                    }
                }
                assert(s.subrange(s.len() - 1, s.len() as int) =~= seq![s.last()]);
            }
        }
    }
}

/// The words of `input`: its maximal runs of letters.
pub fn split_by_non_letters(input: &str) -> (r: Vec<&str>)
    ensures
        slices(r@) == letter_runs(input@),
{
    let chars = chars_of(input);
    let mut words: Vec<&str> = Vec::new();
    let mut start: usize = 0;
    let mut in_word = false;
    let mut i: usize = 0;
    assert(slices(words@) =~= letter_runs(input@.take(0)));
    while i < chars.len()
        invariant
            chars@ == input@,
            start <= i <= chars.len(),
            in_word ==> start < i,
            in_word == (i > 0 && is_letter(input@[i - 1])),
            letter_runs(input@.take(i as int)) == if in_word {
                slices(words@).push(input@.subrange(start as int, i as int))
            } else {
                slices(words@)
            },
        decreases chars.len() - i,
    {
        let c = chars[i];
        proof {
            let longer = input@.take(i + 1);
            assert(longer.drop_last() =~= input@.take(i as int));
            assert(longer.last() == c);
            if i > 0 {
                assert(longer[longer.len() - 2] == input@[i - 1]);
            }
        }
        if c.is_alphabetic() {
            if !in_word {
                start = i;
                in_word = true;
                assert(input@.subrange(start as int, i + 1) =~= seq![c]);
            } else {
                assert(input@.subrange(start as int, i + 1) =~= input@.subrange(
                    start as int,
                    i as int,
                ).push(c));
                assert(slices(words@).push(input@.subrange(start as int, i as int)).drop_last()
                    =~= slices(words@));
            }
        } else if in_word {
            let word = input.substring_char(start, i);
            let ghost old_words = words@;
            words.push(word);
            in_word = false;
            assert(slices(words@) =~= slices(old_words).push(word@));
        }
        i += 1;
    }
    assert(input@.take(input@.len() as int) =~= input@);
    if in_word {
        let word = input.substring_char(start, i);
        let ghost old_words = words@;
        words.push(word);
        assert(slices(words@) =~= slices(old_words).push(word@));
    }
    words
}

} // verus!
