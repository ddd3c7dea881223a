//! Titles for the output file, guessed from the name of the input file.

use vstd::prelude::*;

use crate::strings;

verus! {

// ---------------------------------------------------------------------------------------------
// Episodes
// ---------------------------------------------------------------------------------------------

/// Whether `s` names a season and an episode, as in `S07E11`, in either letter case.
pub open spec fn is_season_episode(s: Seq<char>) -> bool {
    &&& s.len() == 6
    &&& strings::upper(s[0]) == 'S'
    &&& strings::is_digit(s[1])
    &&& strings::is_digit(s[2])
    &&& strings::upper(s[3]) == 'E'
    &&& strings::is_digit(s[4])
    &&& strings::is_digit(s[5])
}

/// The first of the segments from `i` on that names a season and an episode.
pub open spec fn first_season_episode(segments: Seq<Seq<char>>, i: int) -> Option<int>
    decreases segments.len() - i,
{
    if i < 0 || i >= segments.len() {
        None
    } else if is_season_episode(segments[i]) {
        Some(i)
    } else {
        first_season_episode(segments, i + 1)
    }
}

/// The title of an episode, whose season and number stand in segment `i`: the words before it,
/// the season and number in capital letters, and the words after it, if there are any.
pub open spec fn episode_title(segments: Seq<Seq<char>>, i: int) -> Seq<char> {
    let show = strings::join(segments.take(i), " "@);
    let name = strings::join(segments.skip(i + 1), " "@);
    let head = show + " - "@ + strings::uppercase(segments[i]);
    if name.len() == 0 {
        head
    } else {
        head + " - "@ + name
    }
}

/// Whether `s` names a season and an episode.
pub fn is_season_episode_token(s: &str) -> (b: bool)
    ensures
        b == is_season_episode(s@),
{
    let chars = strings::chars_of(s);
    if chars.len() != 6 {
        return false;
    }
    if !(chars[0] == 'S' || chars[0] == 's') {
        return false;
    }
    if !(chars[3] == 'E' || chars[3] == 'e') {
        return false;
    }
    strings::digit(chars[1]) && strings::digit(chars[2]) && strings::digit(chars[4])
        && strings::digit(chars[5])
}

fn find_season_episode(segments: &Vec<String>) -> (r: Option<usize>)
    ensures
        r matches Some(i) ==> first_season_episode(strings::texts(segments@), 0) == Some(i as int)
            && i < segments@.len(),
        r is None ==> first_season_episode(strings::texts(segments@), 0) is None,
{
    let ghost all = strings::texts(segments@);
    let mut i: usize = 0;
    while i < segments.len()
        invariant
            all == strings::texts(segments@),
            i <= segments.len(),
            first_season_episode(all, 0) == first_season_episode(all, i as int),
        decreases segments.len() - i,
    {
        assert(all[i as int] == segments@[i as int]@);
        if is_season_episode_token(segments[i].as_str()) {
            return Some(i);
        }
        i += 1;
    }
    None
}

// ---------------------------------------------------------------------------------------------
// Movies without a year
// ---------------------------------------------------------------------------------------------

/// Whether four digits stand in `s` from `i` on.
pub open spec fn four_digits_at(s: Seq<char>, i: int) -> bool {
    &&& 0 <= i
    &&& i + 4 <= s.len()
    &&& strings::is_digit(s[i])
    &&& strings::is_digit(s[i + 1])
    &&& strings::is_digit(s[i + 2])
    &&& strings::is_digit(s[i + 3])
}

/// Whether four digits stand anywhere in `s` in a row.
pub open spec fn has_four_digits(s: Seq<char>) -> bool {
    exists|i: int| four_digits_at(s, i)
}

/// What separates a title from the rest of a file name.
pub open spec fn is_padding(c: char) -> bool {
    strings::is_space(c) || c == '.' || c == '_' || c == '-'
}

/// `s` without padding at its ends.
pub open spec fn trimmed(s: Seq<char>) -> Seq<char> {
    strings::trim_end(strings::trim_start(s, |c: char| is_padding(c)), |c: char| is_padding(c))
}

/// A title as it is shown: without padding at its ends, and with spaces for dots.
pub open spec fn clean_title(s: Seq<char>) -> Seq<char> {
    strings::replaced(trimmed(s), '.', ' ')
}

/// The words of a file name that tell how the file was made, in small letters.
pub open spec fn metadata_tokens() -> Seq<Seq<char>> {
    seq![
        "+ extras"@,
        "1080p"@,
        "2160p"@,
        "480p"@,
        "720p"@,
        "ac3"@,
        "atmos"@,
        "av1"@,
        "bdrip"@,
        "bluray"@,
        "dts"@,
        "dvdrip"@,
        "edition"@,
        "extended"@,
        "h264"@,
        "h265"@,
        "hdr"@,
        "hdrip"@,
        "hevc"@,
        "proper"@,
        "remastered"@,
        "remux"@,
        "repack"@,
        "rm4k"@,
        "truehd"@,
        "uhd"@,
        "web-dl"@,
        "webdl"@,
        "webrip"@,
        "x264"@,
        "x265"@,
    ]
}

/// Whether a text in small letters looks like a resolution: it starts with three digits or more
/// and ends in `p`.
pub open spec fn is_resolution(s: Seq<char>) -> bool {
    &&& s.len() >= 3
    &&& s.last() == 'p'
    &&& strings::is_digit(s[0])
    &&& strings::is_digit(s[1])
    &&& strings::is_digit(s[2])
}

/// Whether a segment of a file name tells how the file was made, in whatever letter case.
pub open spec fn is_metadata(segment: Seq<char>) -> bool {
    metadata_tokens().contains(strings::lowercase(segment)) || is_resolution(
        strings::lowercase(segment),
    )
}

/// The first of the segments from `i` on that tells how the file was made, or the number of
/// segments if none does.
pub open spec fn first_metadata(segments: Seq<Seq<char>>, i: int) -> int
    decreases segments.len() - i,
{
    if i < 0 || i >= segments.len() || is_metadata(segments[i]) {
        i
    } else {
        first_metadata(segments, i + 1)
    }
}

/// The title in a name that holds no year: the segments before the first one that tells how the
/// file was made, or all of them if it is the very first.
pub open spec fn title_without_year(base: Seq<char>) -> Seq<char> {
    let segments = strings::split(base, '.');
    let first = first_metadata(segments, 0);
    let count = if first == 0 {
        segments.len() as int
    } else {
        first
    };
    clean_title(strings::join(segments.take(count), " "@))
}

/// A shown title holds no dot, and padding stands neither at its start nor at its end.
pub proof fn shown_titles_are_clean(s: Seq<char>)
    ensures
        !clean_title(s).contains('.'),
        clean_title(s).len() > 0 ==> !is_padding(clean_title(s)[0]) && !is_padding(
            clean_title(s).last(),
        ),
{
    let pad = |c: char| is_padding(c);
    let start = strings::trim_start(s, pad);
    let t = strings::trim_end(start, pad);
    strings::trim_start_is_trimmed(s, pad);
    strings::trim_end_is_trimmed(start, pad);
    assert(t == trimmed(s));
    if t.len() > 0 {
        assert(t[0] == start[0]);
        assert(pad(t[0]) == is_padding(t[0]));
        assert(pad(t.last()) == is_padding(t.last()));
    }
    assert forall|i: int| 0 <= i < t.len() implies clean_title(s)[i] != '.' by {}
}

fn padding(c: char) -> (b: bool)
    ensures
        b == is_padding(c),
{
    c.is_whitespace() || c == '.' || c == '_' || c == '-'
}

/// A title as it is shown: without padding at its ends, and with spaces for dots.
pub fn shown_title(s: &str) -> (r: String)
    ensures
        r@ == clean_title(s@),
{
    let chars = strings::chars_of(s);
    let ghost pad = |c: char| is_padding(c);
    let mut from: usize = 0;
    assert(s@.skip(0) =~= s@);
    while from < chars.len() && padding(chars[from])
        invariant
            chars@ == s@,
            from <= chars.len(),
            pad == (|c: char| is_padding(c)),
            strings::trim_start(s@, pad) == strings::trim_start(s@.skip(from as int), pad),
        decreases chars.len() - from,
    {
        assert(s@.skip(from as int).skip(1) =~= s@.skip(from + 1));
        from += 1;
    }
    let ghost rest = s@.skip(from as int);
    let mut to: usize = chars.len();
    assert(s@.subrange(from as int, to as int) =~= rest);
    while to > from && padding(chars[to - 1])
        invariant
            chars@ == s@,
            from <= to <= chars.len(),
            pad == (|c: char| is_padding(c)),
            strings::trim_end(rest, pad) == strings::trim_end(
                s@.subrange(from as int, to as int),
                pad,
            ),
        decreases to,
    {
        assert(s@.subrange(from as int, to as int).drop_last() =~= s@.subrange(
            from as int,
            to - 1,
        ));
        to -= 1;
    }
    let title = strings::string_of(&chars, from, to);
    strings::replace_char(title.as_str(), '.', ' ')
}

/// Whether four digits stand anywhere in `s` in a row.
pub fn has_four_digit_year(s: &str) -> (b: bool)
    ensures
        b == has_four_digits(s@),
{
    let chars = strings::chars_of(s);
    let mut i: usize = 0;
    while i < chars.len() && chars.len() - i >= 4
        invariant
            chars@ == s@,
            i <= chars.len(),
            forall|j: int| 0 <= j < i ==> !#[trigger] four_digits_at(s@, j),
        decreases chars.len() - i,
    {
        if four_digits_here(&chars, i) {
            return true;
        }
        i += 1;
    }
    false
}

fn four_digits_here(chars: &Vec<char>, i: usize) -> (b: bool)
    ensures
        b == four_digits_at(chars@, i as int),
{
    i < chars.len() && chars.len() - i >= 4 && strings::digit(chars[i]) && strings::digit(
        chars[i + 1],
    ) && strings::digit(chars[i + 2]) && strings::digit(chars[i + 3])
}

fn is_metadata_segment(segment: &str) -> (b: bool)
    ensures
        b == is_metadata(segment@),
{
    let lower = strings::to_lowercase_ascii(segment);
    let tokens: [&str; 31] = [
        "+ extras",
        "1080p",
        "2160p",
        "480p",
        "720p",
        "ac3",
        "atmos",
        "av1",
        "bdrip",
        "bluray",
        "dts",
        "dvdrip",
        "edition",
        "extended",
        "h264",
        "h265",
        "hdr",
        "hdrip",
        "hevc",
        "proper",
        "remastered",
        "remux",
        "repack",
        "rm4k",
        "truehd",
        "uhd",
        "web-dl",
        "webdl",
        "webrip",
        "x264",
        "x265",
    ];
    assert(strings::slices(tokens@) =~= metadata_tokens());
    let mut i: usize = 0;
    while i < 31
        invariant
            i <= 31,
            tokens@.len() == 31,
            strings::slices(tokens@) == metadata_tokens(),
            lower@ == strings::lowercase(segment@),
            forall|j: int| 0 <= j < i ==> #[trigger] metadata_tokens()[j] != lower@,
        decreases 31 - i,
    {
        assert(metadata_tokens()[i as int] == tokens@[i as int]@);
        if strings::same_text(lower.as_str(), tokens[i]) {
            return true;
        }
        i += 1;
    }
    let chars = strings::chars_of(lower.as_str());
    chars.len() >= 3 && chars[chars.len() - 1] == 'p' && strings::digit(chars[0])
        && strings::digit(chars[1]) && strings::digit(chars[2])
}

/// Guesses the title from a name that holds no year.
pub fn infer_title_without_year(base: &str) -> (r: String)
    ensures
        r@ == title_without_year(base@),
{
    let segments = strings::split_text(base, '.');
    let ghost all = strings::texts(segments@);
    let mut cutoff: usize = 0;
    while cutoff < segments.len() && !is_metadata_segment(segments[cutoff].as_str())
        invariant
            all == strings::texts(segments@),
            cutoff <= segments.len(),
            first_metadata(all, 0) == first_metadata(all, cutoff as int),
        decreases segments.len() - cutoff,
    {
        assert(all[cutoff as int] == segments@[cutoff as int]@);
        cutoff += 1;
    }
    proof {
        if cutoff < segments.len() {
            assert(all[cutoff as int] == segments@[cutoff as int]@);
        }
    }
    if cutoff == 0 {
        cutoff = segments.len();
    }
    let title = strings::join_texts(&segments, 0, cutoff, " ");
    assert(all.subrange(0, cutoff as int) =~= all.take(cutoff as int));
    shown_title(title.as_str())
}

// ---------------------------------------------------------------------------------------------
// Movies with a year
// ---------------------------------------------------------------------------------------------

/// Whether `c` is a blank, which may stand between the parts of a movie's name.
pub open spec fn is_blank(c: char) -> bool {
    c == ' ' || c == '\t'
}

/// Whether `c` may stand in front of an edition.
pub open spec fn is_edition_separator(c: char) -> bool {
    c == ' ' || c == '.' || c == '-' || c == '_'
}

/// The first position from `i` on that holds no blank.
pub open spec fn after_blanks(s: Seq<char>, i: int) -> int
    decreases s.len() - i,
{
    if 0 <= i < s.len() && is_blank(s[i]) {
        after_blanks(s, i + 1)
    } else {
        i
    }
}

/// The first position from `i` on that holds no edition separator.
pub open spec fn after_separators(s: Seq<char>, i: int) -> int
    decreases s.len() - i,
{
    if 0 <= i < s.len() && is_edition_separator(s[i]) {
        after_separators(s, i + 1)
    } else {
        i
    }
}

/// Whether four digits in parentheses stand in `s` from `i` on.
pub open spec fn year_in_parentheses_at(s: Seq<char>, i: int) -> bool {
    &&& 0 <= i
    &&& i + 6 <= s.len()
    &&& s[i] == '('
    &&& four_digits_at(s, i + 1)
    &&& s[i + 5] == ')'
}

/// How many characters the year that stands in `s` from `i` on takes, or 0 if none stands there.
pub open spec fn year_length(s: Seq<char>, i: int) -> int {
    if year_in_parentheses_at(s, i) {
        6
    } else if four_digits_at(s, i) {
        4
    } else {
        0
    }
}

/// The first position from `i` on at which a year stands.
pub open spec fn first_year(s: Seq<char>, i: int) -> Option<int>
    decreases s.len() - i,
{
    if i < 0 || i >= s.len() {
        None
    } else if year_length(s, i) > 0 {
        Some(i)
    } else {
        first_year(s, i + 1)
    }
}

/// The edition that is named in `s` from `i` on, as it is shown.
pub open spec fn edition_at(s: Seq<char>, i: int) -> Option<Seq<char>> {
    if strings::occurs_at(s, i, "Unrated Director's Cut"@) {
        Some("Unrated Director's Cut"@)
    } else if strings::occurs_at(s, i, "Director's Cut"@) {
        Some("Director's Cut"@)
    } else if strings::occurs_at(s, i, "REMASTERED"@) {
        Some("Remastered"@)
    } else if strings::occurs_at(s, i, "Remastered"@) {
        Some("Remastered"@)
    } else if strings::occurs_at(s, i, "Special Edition"@) {
        Some("Special Edition"@)
    } else if strings::occurs_at(s, i, "International Cut"@) {
        Some("International Cut"@)
    } else if strings::occurs_at(s, i, "Unrated"@) {
        Some("Unrated"@)
    } else if strings::occurs_at(s, i, "Uncut"@) {
        Some("Uncut"@)
    } else {
        None
    }
}

/// The parts of a movie's name: what stands before the first year (blanks at the start aside),
/// the digits of that year, and the edition that follows it, if one does. A name that starts
/// with the year, or that holds none, has no such parts.
pub open spec fn movie_parts(s: Seq<char>) -> Option<(Seq<char>, Seq<char>, Option<Seq<char>>)> {
    let start = after_blanks(s, 0);
    match first_year(s, start) {
        None => None,
        Some(y) => {
            let digits = if year_in_parentheses_at(s, y) {
                y + 1
            } else {
                y
            };
            let rest = after_separators(s, after_blanks(s, y + year_length(s, y)));
            if y == start {
                None
            } else {
                Some(
                    (s.subrange(start, y), s.subrange(digits, digits + 4), edition_at(s, rest)),
                )
            }
        },
    }
}

/// The title of a movie: the name as it is shown, the year in parentheses, and the edition.
pub open spec fn movie_title(
    name: Seq<char>,
    year: Seq<char>,
    edition: Option<Seq<char>>,
) -> Seq<char> {
    let head = clean_title(name) + " ("@ + year + ")"@;
    match edition {
        None => head,
        Some(e) => head + " "@ + e,
    }
}

/// The parts of a movie's name.
pub struct MovieName {
    pub title: String,
    pub year: String,
    pub edition: Option<String>,
}

impl View for MovieName {
    type V = (Seq<char>, Seq<char>, Option<Seq<char>>);

    open spec fn view(&self) -> (Seq<char>, Seq<char>, Option<Seq<char>>) {
        (
            self.title@,
            self.year@,
            match self.edition {
                None => None,
                Some(e) => Some(e@),
            },
        )
    }
}

proof fn first_year_is_found(s: Seq<char>, i: int)
    requires
        0 <= i,
    ensures
        first_year(s, i) matches Some(y) ==> i <= y && year_length(s, y) > 0 && y + year_length(
            s,
            y,
        ) <= s.len(),
    decreases s.len() - i,
{
    if i < s.len() && year_length(s, i) == 0 {
        first_year_is_found(s, i + 1);
    }
}

proof fn first_year_is_first(s: Seq<char>, i: int, j: int)
    requires
        0 <= i <= j,
        first_year(s, i) matches Some(y) ==> j < y,
        first_year(s, i) is None ==> j < s.len(),
    ensures
        year_length(s, j) == 0,
    decreases s.len() - i,
{
    if i < j {
        first_year_is_first(s, i + 1, j);
    }
}

proof fn blanks_end_later(s: Seq<char>, i: int)
    requires
        0 <= i,
    ensures
        i <= after_blanks(s, i),
    decreases s.len() - i,
{
    if i < s.len() && is_blank(s[i]) {
        blanks_end_later(s, i + 1);
    }
}

/// A movie's year is four digits, its title is not empty, and it ends at the first year: the
/// name is blanks, the title, and then the year, and no year stands at any earlier place of the
/// title.
pub proof fn movie_title_ends_at_its_first_year(s: Seq<char>)
    ensures
        movie_parts(s) matches Some((title, year, edition)) ==> {
            let start = after_blanks(s, 0);
            &&& year.len() == 4
            &&& strings::all_digits(year)
            &&& title.len() > 0
            &&& strings::occurs_at(s, start, title)
            &&& year_length(s, start + title.len()) > 0
            &&& forall|j: int| start <= j < start + title.len() ==> #[trigger] year_length(s, j) == 0
        },
{
    let start = after_blanks(s, 0);
    blanks_end_later(s, 0);
    first_year_is_found(s, start);
    if let Some((title, year, edition)) = movie_parts(s) {
        assert forall|j: int| start <= j < start + title.len() implies #[trigger] year_length(s, j)
            == 0 by {
            first_year_is_first(s, start, j);
        }
    }
}

fn year_length_here(chars: &Vec<char>, i: usize) -> (n: usize)
    requires
        i < chars@.len(),
    ensures
        n == year_length(chars@, i as int),
{
    if chars.len() - i >= 6 && chars[i] == '(' && four_digits_here(chars, i + 1) && chars[i + 5]
        == ')' {
        6
    } else if four_digits_here(chars, i) {
        4
    } else {
        0
    }
}

fn edition_here(chars: &Vec<char>, i: usize) -> (r: Option<String>)
    ensures
        r matches Some(e) ==> edition_at(chars@, i as int) == Some(e@),
        r is None ==> edition_at(chars@, i as int) is None,
{
    if strings::occurs_here(chars, i, "Unrated Director's Cut") {
        Some("Unrated Director's Cut".to_string())
    } else if strings::occurs_here(chars, i, "Director's Cut") {
        Some("Director's Cut".to_string())
    } else if strings::occurs_here(chars, i, "REMASTERED") {
        Some("Remastered".to_string())
    } else if strings::occurs_here(chars, i, "Remastered") {
        Some("Remastered".to_string())
    } else if strings::occurs_here(chars, i, "Special Edition") {
        Some("Special Edition".to_string())
    } else if strings::occurs_here(chars, i, "International Cut") {
        Some("International Cut".to_string())
    } else if strings::occurs_here(chars, i, "Unrated") {
        Some("Unrated".to_string())
    } else if strings::occurs_here(chars, i, "Uncut") {
        Some("Uncut".to_string())
    } else {
        None
    }
}

/// Takes a movie's name apart.
pub fn parse_movie(base: &str) -> (r: Option<MovieName>)
    ensures
        r matches Some(m) ==> movie_parts(base@) == Some(m@),
        r is None ==> movie_parts(base@) is None,
{
    let chars = strings::chars_of(base);
    let ghost s = base@;
    let mut start: usize = 0;
    while start < chars.len() && (chars[start] == ' ' || chars[start] == '\t')
        invariant
            chars@ == s,
            start <= chars.len(),
            after_blanks(s, 0) == after_blanks(s, start as int),
        decreases chars.len() - start,
    {
        start += 1;
    }
    let mut year: usize = start;
    while year < chars.len() && year_length_here(&chars, year) == 0
        invariant
            chars@ == s,
            start <= year <= chars.len(),
            first_year(s, start as int) == first_year(s, year as int),
        decreases chars.len() - year,
    {
        year += 1;
    }
    if year == chars.len() || year == start {
        return None;
    }
    proof {
        first_year_is_found(s, year as int);
    }
    let length = year_length_here(&chars, year);
    let digits: usize = if length == 6 {
        year + 1
    } else {
        year
    };
    let end: usize = year + length;
    let mut rest: usize = end;
    while rest < chars.len() && (chars[rest] == ' ' || chars[rest] == '\t')
        invariant
            chars@ == s,
            rest <= chars.len(),
            after_blanks(s, end as int) == after_blanks(s, rest as int),
        decreases chars.len() - rest,
    {
        rest += 1;
    }
    let ghost blanks = rest as int;
    while rest < chars.len() && (chars[rest] == ' ' || chars[rest] == '.' || chars[rest] == '-'
        || chars[rest] == '_')
        invariant
            chars@ == s,
            rest <= chars.len(),
            after_separators(s, blanks) == after_separators(s, rest as int),
        decreases chars.len() - rest,
    {
        rest += 1;
    }
    Some(
        MovieName {
            title: strings::string_of(&chars, start, year),
            year: strings::string_of(&chars, digits, digits + 4),
            edition: edition_here(&chars, rest),
        },
    )
}

// ---------------------------------------------------------------------------------------------
// Titles
// ---------------------------------------------------------------------------------------------

/// A file name without its extension: what stands before its last dot.
pub open spec fn without_extension(filename: Seq<char>) -> Seq<char> {
    match strings::last_position(filename, '.') {
        Some(p) => filename.take(p),
        None => filename,
    }
}

/// The title that a file name without its extension stands for. A name with a season and an
/// episode in one of its dotted segments (but not the first) is an episode, a name without four
/// digits in a row is cut before the first segment that tells how the file was made, and any
/// other name is a movie with its year, or else it stands for itself.
pub open spec fn title_of(base: Seq<char>) -> Seq<char> {
    let segments = strings::split(base, '.');
    match first_season_episode(segments, 0) {
        Some(i) if i > 0 => episode_title(segments, i),
        _ => if !has_four_digits(base) {
            title_without_year(base)
        } else {
            match movie_parts(base) {
                None => base,
                Some((name, year, edition)) => movie_title(name, year, edition),
            }
        },
    }
}

/// The extension plays no part in the title.
pub proof fn title_ignores_the_extension(base: Seq<char>, a: Seq<char>, b: Seq<char>)
    requires
        !a.contains('.'),
        !b.contains('.'),
    ensures
        without_extension(base + seq!['.'] + a) == base,
        title_of(without_extension(base + seq!['.'] + a)) == title_of(
            without_extension(base + seq!['.'] + b),
        ),
{
    let p = base.len() as int;
    strings::last_position_is_unique(base + seq!['.'] + a, '.', p);
    strings::last_position_is_unique(base + seq!['.'] + b, '.', p);
    assert((base + seq!['.'] + a).take(p) =~= base);
    assert((base + seq!['.'] + b).take(p) =~= base);
}

fn episode_title_of(segments: &Vec<String>, i: usize) -> (r: String)
    requires
        i < segments@.len(),
    ensures
        r@ == episode_title(strings::texts(segments@), i as int),
{
    let ghost all = strings::texts(segments@);
    let count: usize = segments.len();
    let mut title = strings::join_texts(segments, 0, i, " ");
    let name = strings::join_texts(segments, i + 1, count, " ");
    proof {
        assert(all.subrange(0, i as int) =~= all.take(i as int));
        assert(all.subrange(i + 1, all.len() as int) =~= all.skip(i + 1));
        assert(all[i as int] == segments@[i as int]@);
    }
    title.append(" - ");
    title.append(strings::to_uppercase_ascii(segments[i].as_str()).as_str());
    if !name.as_str().is_empty() {
        title.append(" - ");
        title.append(name.as_str());
    }
    title
}

/// The title of a movie, from the parts of its name.
pub fn title_of_movie(movie: &MovieName) -> (r: String)
    ensures
        r@ == movie_title(movie@.0, movie@.1, movie@.2),
{
    let mut title = shown_title(movie.title.as_str());
    title.append(" (");
    title.append(movie.year.as_str());
    title.append(")");
    if let Some(edition) = &movie.edition {
        title.append(" ");
        title.append(edition.as_str());
    }
    title
}

/// Guesses the title of a video from the name of its file.
pub fn extract_matroska_title_from_filename(filename: &str) -> (r: String)
    ensures
        r@ == title_of(without_extension(filename@)),
{
    let chars = strings::chars_of(filename);
    let base = match strings::find_last(&chars, '.') {
        Some(p) => strings::string_of(&chars, 0, p),
        None => strings::string_of(&chars, 0, chars.len()),
    };
    assert(base@ =~= without_extension(filename@));
    let segments = strings::split_text(base.as_str(), '.');
    if let Some(i) = find_season_episode(&segments) {
        if i > 0 {
            return episode_title_of(&segments, i);
        }
    }
    if !has_four_digit_year(base.as_str()) {
        return infer_title_without_year(base.as_str());
    }
    match parse_movie(base.as_str()) {
        Some(movie) => title_of_movie(&movie),
        None => base,
    }
}

} // verus!
