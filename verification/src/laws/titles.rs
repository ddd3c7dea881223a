//! Laws of titles: what they are made of, for each form that a file name can have.

use vstd::prelude::*;

use crate::laws::texts;
use crate::parsing;
use crate::parsing::{
    extract_matroska_title_from_filename, has_four_digit_year, is_season_episode_token,
    shown_title,
};
use crate::strings;

verus! {

// ---------------------------------------------------------------------------------------------
// Episodes
// ---------------------------------------------------------------------------------------------

/// Whether `s` is an S, two digits, an E and two digits, with the letters in either case.
pub open spec fn is_token(s: Seq<char>) -> bool {
    &&& s.len() == 6
    &&& s[0] == 'S' || s[0] == 's'
    &&& '0' <= s[1] <= '9'
    &&& '0' <= s[2] <= '9'
    &&& s[3] == 'E' || s[3] == 'e'
    &&& '0' <= s[4] <= '9'
    &&& '0' <= s[5] <= '9'
}

/// A text is taken for a season and an episode exactly where it has that form.
pub proof fn tokens_have_one_form(s: &str, b: bool)
    requires
        call_ensures(is_season_episode_token, (s,), b),
    ensures
        b <==> is_token(s@),
{
    token_is_season_episode(s@);
}

proof fn token_is_season_episode(s: Seq<char>)
    ensures
        parsing::is_season_episode(s) <==> is_token(s),
{
}

proof fn first_token_is_found(segments: Seq<Seq<char>>, i: int, k: int)
    requires
        0 <= i <= k < segments.len(),
        is_token(segments[k]),
        forall|j: int| i <= j < k ==> !is_token(#[trigger] segments[j]),
    ensures
        parsing::first_season_episode(segments, i) == Some(k),
    decreases k - i,
{
    token_is_season_episode(segments[i]);
    if i < k {
        first_token_is_found(segments, i + 1, k);
    }
}

proof fn no_token_is_found(segments: Seq<Seq<char>>, i: int)
    requires
        0 <= i <= segments.len(),
        forall|j: int| i <= j < segments.len() ==> !is_token(#[trigger] segments[j]),
    ensures
        parsing::first_season_episode(segments, i) is None,
    decreases segments.len() - i,
{
    if i < segments.len() {
        token_is_season_episode(segments[i]);
        no_token_is_found(segments, i + 1);
    }
}

/// Whether a file name is `base`, a dot and an extension, or else `base` alone without any dot.
pub open spec fn is_file_name_of(filename: Seq<char>, base: Seq<char>) -> bool {
    ||| filename == base && !base.contains('.')
    ||| exists|extension: Seq<char>|
        filename == #[trigger] (base + seq!['.'] + extension) && !extension.contains('.')
}

proof fn base_is_found(filename: Seq<char>, base: Seq<char>)
    requires
        is_file_name_of(filename, base),
    ensures
        parsing::without_extension(filename) == base,
{
    if filename == base && !base.contains('.') {
        strings::last_position_is_last(filename, '.');
    } else {
        let extension = choose|extension: Seq<char>|
            filename == #[trigger] (base + seq!['.'] + extension) && !extension.contains('.');
        parsing::title_ignores_the_extension(base, extension, extension);
    }
}

/// The title of an episode is the segments before its token, the token in capital letters and the
/// segments behind it, where there are any: with a space between segments and a dash between the
/// three. The token is the first one in the name and not its first segment. What other segments
/// there are, and what digits they hold, does not matter.
pub proof fn episodes_are_titled_by_their_tokens(
    filename: &str,
    before: Seq<Seq<char>>,
    token: Seq<char>,
    after: Seq<Seq<char>>,
    r: String,
)
    requires
        call_ensures(extract_matroska_title_from_filename, (filename,), r),
        is_file_name_of(filename@, strings::join(before + seq![token] + after, seq!['.'])),
        before.len() > 0,
        is_token(token),
        forall|i: int| 0 <= i < before.len() ==> !is_token(#[trigger] before[i]),
        forall|i: int| 0 <= i < before.len() ==> !(#[trigger] before[i]).contains('.'),
        forall|i: int| 0 <= i < after.len() ==> !(#[trigger] after[i]).contains('.'),
    ensures
        ({
            let head = strings::join(before, seq![' ']) + seq![' ', '-', ' '] + seq![
                'S',
                token[1],
                token[2],
                'E',
                token[4],
                token[5],
            ];
            let tail = strings::join(after, seq![' ']);
            if tail.len() == 0 {
                r@ == head
            } else {
                r@ == head + seq![' ', '-', ' '] + tail
            }
        }),
{
    let segments = before + seq![token] + after;
    let base = strings::join(segments, seq!['.']);
    let k = before.len() as int;
    assert forall|i: int| 0 <= i < segments.len() implies !(#[trigger] segments[i]).contains(
        '.',
    ) by {
        if i < k {
            assert(segments[i] == before[i]);
        } else if i > k {
            assert(segments[i] == after[i - k - 1]);
        } else {
            assert(!token.contains('.'));
        }
    }
    base_is_found(filename@, base);
    texts::splitting_undoes_join(segments, '.');
    assert forall|j: int| 0 <= j < k implies !is_token(#[trigger] segments[j]) by {
        assert(segments[j] == before[j]);
    }
    assert(segments[k] == token);
    first_token_is_found(segments, 0, k);
    assert(segments.take(k) =~= before);
    assert(segments.skip(k + 1) =~= after);
    reveal_strlit(" ");
    reveal_strlit(" - ");
    assert(" "@ =~= seq![' ']);
    assert(" - "@ =~= seq![' ', '-', ' ']);
    assert(strings::uppercase(token) =~= seq!['S', token[1], token[2], 'E', token[4], token[5]]);
}

// ---------------------------------------------------------------------------------------------
// Movies without a year
// ---------------------------------------------------------------------------------------------

/// Whether `c` is white space, a dot, an underscore or a hyphen.
pub open spec fn is_edge(c: char) -> bool {
    strings::is_space(c) || c == '.' || c == '_' || c == '-'
}

/// Whether `title` is `name` without white space, dots, underscores and hyphens at its two ends,
/// and with spaces in place of the dots that are left.
pub open spec fn is_shown(title: Seq<char>, name: Seq<char>) -> bool {
    exists|from: int, to: int| #[trigger] is_shown_between(title, name, from, to)
}

/// Whether `title` is what stands in `name` between two positions, with spaces in place of dots,
/// and nothing else there or around could be left out.
pub open spec fn is_shown_between(title: Seq<char>, name: Seq<char>, from: int, to: int) -> bool {
    &&& 0 <= from <= to <= name.len()
    &&& title.len() == to - from
    &&& forall|k: int|
        0 <= k < title.len() ==> #[trigger] title[k] == (if name[from + k] == '.' {
            ' '
        } else {
            name[from + k]
        })
    &&& forall|k: int| 0 <= k < from ==> is_edge(#[trigger] name[k])
    &&& forall|k: int| to <= k < name.len() ==> is_edge(#[trigger] name[k])
    &&& from < to ==> !is_edge(name[from]) && !is_edge(name[to - 1])
}

proof fn clean_titles_are_shown(name: Seq<char>)
    ensures
        is_shown(parsing::clean_title(name), name),
{
    let pad = |c: char| parsing::is_padding(c);
    let rest = strings::trim_start(name, pad);
    let t = strings::trim_end(rest, pad);
    texts::trimmed_starts_are_padding(name, pad);
    texts::trimmed_ends_are_padding(rest, pad);
    strings::trim_start_is_trimmed(name, pad);
    strings::trim_end_is_trimmed(rest, pad);
    let from = name.len() - rest.len();
    let to = from + t.len();
    let title = parsing::clean_title(name);
    assert forall|k: int| 0 <= k < title.len() implies #[trigger] title[k] == (if name[from + k]
        == '.' {
        ' '
    } else {
        name[from + k]
    }) by {
        assert(t[k] == rest[k]);
        assert(rest[k] == name[from + k]);
    }
    assert forall|k: int| 0 <= k < from implies is_edge(#[trigger] name[k]) by {
        assert(pad(name[k]));
    }
    assert forall|k: int| to <= k < name.len() implies is_edge(#[trigger] name[k]) by {
        assert(rest[k - from] == name[k]);
        assert(pad(rest[k - from]));
    }
    if from < to {
        assert(rest[0] == name[from]);
        assert(!pad(rest[0]));
        assert(t.last() == name[to - 1]);
        assert(!pad(t.last()));
    }
    assert(is_shown_between(title, name, from, to));
}

/// A title is shown without white space, dots, underscores and hyphens at its ends, all of them
/// and nothing else, and with spaces in place of the dots that are left.
pub proof fn titles_are_shown_clean(s: &str, r: String)
    requires
        call_ensures(shown_title, (s,), r),
    ensures
        is_shown(r@, s@),
{
    clean_titles_are_shown(s@);
}

/// Whether four digits stand in `s` from `i` on.
pub open spec fn digits_stand_at(s: Seq<char>, i: int) -> bool {
    &&& 0 <= i <= s.len() - 4
    &&& '0' <= s[i] <= '9'
    &&& '0' <= s[i + 1] <= '9'
    &&& '0' <= s[i + 2] <= '9'
    &&& '0' <= s[i + 3] <= '9'
}

/// A name holds a year wherever four digits stand in a row in it.
pub proof fn four_digits_in_a_row_are_found(s: &str, b: bool)
    requires
        call_ensures(has_four_digit_year, (s,), b),
    ensures
        b <==> exists|i: int| #[trigger] digits_stand_at(s@, i),
{
    digits_are_found(s@);
}

proof fn digits_are_found(s: Seq<char>)
    ensures
        parsing::has_four_digits(s) <==> exists|i: int| #[trigger] digits_stand_at(s, i),
{
    if parsing::has_four_digits(s) {
        let i = choose|i: int| parsing::four_digits_at(s, i);
        assert(digits_stand_at(s, i));
    }
    if exists|i: int| #[trigger] digits_stand_at(s, i) {
        let i = choose|i: int| #[trigger] digits_stand_at(s, i);
        assert(parsing::four_digits_at(s, i));
    }
}

/// Whether a word in small letters tells of the picture, the sound, the source or the edition of
/// a file.
pub open spec fn is_known_word(word: Seq<char>) -> bool {
    ||| word == "+ extras"@
    ||| word == "1080p"@
    ||| word == "2160p"@
    ||| word == "480p"@
    ||| word == "720p"@
    ||| word == "ac3"@
    ||| word == "atmos"@
    ||| word == "av1"@
    ||| word == "bdrip"@
    ||| word == "bluray"@
    ||| word == "dts"@
    ||| word == "dvdrip"@
    ||| word == "edition"@
    ||| word == "extended"@
    ||| word == "h264"@
    ||| word == "h265"@
    ||| word == "hdr"@
    ||| word == "hdrip"@
    ||| word == "hevc"@
    ||| word == "proper"@
    ||| word == "remastered"@
    ||| word == "remux"@
    ||| word == "repack"@
    ||| word == "rm4k"@
    ||| word == "truehd"@
    ||| word == "uhd"@
    ||| word == "web-dl"@
    ||| word == "webdl"@
    ||| word == "webrip"@
    ||| word == "x264"@
    ||| word == "x265"@
}

/// Whether a word starts with three digits and ends in a P, as resolutions do.
pub open spec fn ends_like_a_resolution(word: Seq<char>) -> bool {
    &&& word.len() > 3
    &&& '0' <= word[0] <= '9'
    &&& '0' <= word[1] <= '9'
    &&& '0' <= word[2] <= '9'
    &&& word.last() == 'p' || word.last() == 'P'
}

/// Whether a segment of a name tells how the file was made, and so ends the title.
pub open spec fn ends_a_title(segment: Seq<char>) -> bool {
    is_known_word(strings::lowercase(segment)) || ends_like_a_resolution(segment)
}

proof fn known_words_are_tokens(word: Seq<char>)
    ensures
        parsing::metadata_tokens().contains(word) <==> is_known_word(word),
{
    let tokens = parsing::metadata_tokens();
    assert(tokens[0] == "+ extras"@);
    assert(tokens[1] == "1080p"@);
    assert(tokens[2] == "2160p"@);
    assert(tokens[3] == "480p"@);
    assert(tokens[4] == "720p"@);
    assert(tokens[5] == "ac3"@);
    assert(tokens[6] == "atmos"@);
    assert(tokens[7] == "av1"@);
    assert(tokens[8] == "bdrip"@);
    assert(tokens[9] == "bluray"@);
    assert(tokens[10] == "dts"@);
    assert(tokens[11] == "dvdrip"@);
    assert(tokens[12] == "edition"@);
    assert(tokens[13] == "extended"@);
    assert(tokens[14] == "h264"@);
    assert(tokens[15] == "h265"@);
    assert(tokens[16] == "hdr"@);
    assert(tokens[17] == "hdrip"@);
    assert(tokens[18] == "hevc"@);
    assert(tokens[19] == "proper"@);
    assert(tokens[20] == "remastered"@);
    assert(tokens[21] == "remux"@);
    assert(tokens[22] == "repack"@);
    assert(tokens[23] == "rm4k"@);
    assert(tokens[24] == "truehd"@);
    assert(tokens[25] == "uhd"@);
    assert(tokens[26] == "web-dl"@);
    assert(tokens[27] == "webdl"@);
    assert(tokens[28] == "webrip"@);
    assert(tokens[29] == "x264"@);
    assert(tokens[30] == "x265"@);
    if tokens.contains(word) {
        let i = choose|i: int| 0 <= i < tokens.len() && tokens[i] == word;
        assert(tokens.len() == 31);
        assert(is_known_word(tokens[i]));
    }
    if is_known_word(word) {
        assert(exists|i: int| 0 <= i < tokens.len() && #[trigger] tokens[i] == word);
    }
}

proof fn metadata_ends_a_title(segment: Seq<char>)
    ensures
        parsing::is_metadata(segment) <==> ends_a_title(segment),
{
    let lower = strings::lowercase(segment);
    known_words_are_tokens(lower);
    if segment.len() > 0 {
        assert(lower.last() == strings::lower(segment.last()));
    }
}

proof fn title_ends_here(segments: Seq<Seq<char>>, i: int, k: int)
    requires
        0 <= i <= k <= segments.len(),
        forall|j: int| i <= j < k ==> !ends_a_title(#[trigger] segments[j]),
        k < segments.len() ==> ends_a_title(segments[k]),
    ensures
        parsing::first_metadata(segments, i) == k,
    decreases k - i,
{
    if i < segments.len() {
        metadata_ends_a_title(segments[i]);
    }
    if i < k {
        title_ends_here(segments, i + 1, k);
    }
}

/// Whether a name is that of an episode: one of its segments is a token, and its first segment is
/// none.
pub open spec fn is_episode(segments: Seq<Seq<char>>) -> bool {
    &&& !is_token(segments[0])
    &&& exists|i: int| 0 < i < segments.len() && is_token(#[trigger] segments[i])
}

proof fn other_names_are_no_episodes(segments: Seq<Seq<char>>)
    requires
        segments.len() > 0,
        !is_episode(segments),
    ensures
        parsing::first_season_episode(segments, 0) matches Some(i) ==> i == 0,
{
    if is_token(segments[0]) {
        first_token_is_found(segments, 0, 0);
    } else {
        assert forall|j: int| 0 <= j < segments.len() implies !is_token(#[trigger] segments[j]) by {
            assert(j > 0 ==> !is_token(segments[j]));
        }
        no_token_is_found(segments, 0);
    }
}

/// The title of a name that is no episode and holds no four digits in a row is its segments up to
/// the first one that tells how the file was made, with spaces between them. Where that is the
/// very first segment, the title is all segments.
pub proof fn names_without_a_year_end_where_the_making_is_told(
    filename: &str,
    kept: Seq<Seq<char>>,
    rest: Seq<Seq<char>>,
    r: String,
)
    requires
        call_ensures(extract_matroska_title_from_filename, (filename,), r),
        is_file_name_of(filename@, strings::join(kept + rest, seq!['.'])),
        kept.len() > 0,
        forall|i: int| 0 <= i < kept.len() ==> !(#[trigger] kept[i]).contains('.'),
        forall|i: int| 0 <= i < rest.len() ==> !(#[trigger] rest[i]).contains('.'),
        !is_episode(kept + rest),
        forall|i: int| !(#[trigger] digits_stand_at(strings::join(kept + rest, seq!['.']), i)),
        ends_a_title(kept[0]) ==> rest.len() == 0,
        !ends_a_title(kept[0]) ==> (forall|i: int|
            0 <= i < kept.len() ==> !ends_a_title(#[trigger] kept[i])) && (rest.len() > 0
            ==> ends_a_title(rest[0])),
    ensures
        is_shown(r@, strings::join(kept, seq![' '])),
{
    let segments = kept + rest;
    let base = strings::join(segments, seq!['.']);
    assert forall|i: int| 0 <= i < segments.len() implies !(#[trigger] segments[i]).contains(
        '.',
    ) by {
        if i < kept.len() {
            assert(segments[i] == kept[i]);
        } else {
            assert(segments[i] == rest[i - kept.len()]);
        }
    }
    base_is_found(filename@, base);
    texts::splitting_undoes_join(segments, '.');
    other_names_are_no_episodes(segments);
    digits_are_found(base);
    reveal_strlit(" ");
    assert(" "@ =~= seq![' ']);
    assert(segments[0] == kept[0]);
    let k = kept.len() as int;
    if ends_a_title(kept[0]) {
        title_ends_here(segments, 0, 0);
        assert(segments.take(k) =~= kept);
    } else {
        assert forall|j: int| 0 <= j < k implies !ends_a_title(#[trigger] segments[j]) by {
            assert(segments[j] == kept[j]);
        }
        if rest.len() > 0 {
            assert(segments[k] == rest[0]);
        }
        title_ends_here(segments, 0, k);
        assert(segments.take(k) =~= kept);
    }
    clean_titles_are_shown(strings::join(kept, seq![' ']));
}

// ---------------------------------------------------------------------------------------------
// Movies with a year
// ---------------------------------------------------------------------------------------------

/// Whether a year stands in `s` from `i` on: four digits, bare or in parentheses.
pub open spec fn year_stands_at(s: Seq<char>, i: int) -> bool {
    ||| digits_stand_at(s, i)
    ||| 0 <= i <= s.len() - 6 && s[i] == '(' && digits_stand_at(s, i + 1) && s[i + 5] == ')'
}

proof fn years_are_found(s: Seq<char>, i: int)
    ensures
        parsing::year_length(s, i) > 0 <==> year_stands_at(s, i),
{
}

proof fn the_first_year_is_found(s: Seq<char>, i: int, y: int)
    requires
        0 <= i <= y < s.len(),
        year_stands_at(s, y),
        forall|j: int| i <= j < y ==> !#[trigger] year_stands_at(s, j),
    ensures
        parsing::first_year(s, i) == Some(y),
    decreases y - i,
{
    years_are_found(s, i);
    if i < y {
        assert(!year_stands_at(s, i));
        the_first_year_is_found(s, i + 1, y);
    }
}

proof fn blanks_are_skipped(s: Seq<char>, i: int, k: int)
    requires
        0 <= i <= k <= s.len(),
        forall|j: int| i <= j < k ==> #[trigger] s[j] == ' ' || s[j] == '\t',
        k < s.len() ==> s[k] != ' ' && s[k] != '\t',
    ensures
        parsing::after_blanks(s, i) == k,
    decreases k - i,
{
    if i < k {
        assert(s[i] == ' ' || s[i] == '\t');
        blanks_are_skipped(s, i + 1, k);
    }
}

/// Whether `c` is a space, a dot, a hyphen or an underscore.
pub open spec fn is_separator(c: char) -> bool {
    c == ' ' || c == '.' || c == '-' || c == '_'
}

proof fn separators_are_skipped(s: Seq<char>, i: int, k: int)
    requires
        0 <= i <= k <= s.len(),
        forall|j: int| i <= j < k ==> is_separator(#[trigger] s[j]),
        k < s.len() ==> !is_separator(s[k]),
    ensures
        parsing::after_separators(s, i) == k,
    decreases k - i,
{
    if i < k {
        assert(is_separator(s[i]));
        separators_are_skipped(s, i + 1, k);
    }
}

proof fn gaps_are_skipped(s: Seq<char>, i: int, m: int, k: int)
    requires
        0 <= i <= m <= k < s.len(),
        forall|j: int| i <= j < m ==> #[trigger] s[j] == ' ' || s[j] == '\t',
        forall|j: int| m <= j < k ==> is_separator(#[trigger] s[j]),
        !is_separator(s[k]),
        s[k] != '\t',
    ensures
        parsing::after_separators(s, parsing::after_blanks(s, i)) == k,
    decreases k - i,
{
    if i < m {
        assert(s[i] == ' ' || s[i] == '\t');
        gaps_are_skipped(s, i + 1, m, k);
    } else if i < k && s[i] == ' ' {
        gaps_are_skipped(s, i + 1, i + 1, k);
    } else {
        if i < k {
            assert(is_separator(s[i]));
        }
        blanks_are_skipped(s, i, i);
        separators_are_skipped(s, i, k);
    }
}

/// Whether `base` is blanks, a title, a year and an ending: the title starts with no blank, the
/// year is four digits, bare or in parentheses, and no year stands anywhere before it.
pub open spec fn is_movie_name(
    base: Seq<char>,
    blanks: Seq<char>,
    title: Seq<char>,
    digits: Seq<char>,
    in_parentheses: bool,
    ending: Seq<char>,
) -> bool {
    let year = if in_parentheses {
        seq!['('] + digits + seq![')']
    } else {
        digits
    };
    &&& base == blanks + title + year + ending
    &&& forall|i: int| 0 <= i < blanks.len() ==> #[trigger] blanks[i] == ' ' || blanks[i] == '\t'
    &&& title.len() > 0
    &&& title[0] != ' ' && title[0] != '\t'
    &&& digits.len() == 4
    &&& digits_stand_at(digits, 0)
    &&& forall|j: int|
        blanks.len() <= j < blanks.len() + title.len() ==> !#[trigger] year_stands_at(base, j)
}

proof fn movies_are_taken_apart(
    base: Seq<char>,
    blanks: Seq<char>,
    title: Seq<char>,
    digits: Seq<char>,
    in_parentheses: bool,
    ending: Seq<char>,
)
    requires
        is_movie_name(base, blanks, title, digits, in_parentheses, ending),
        !is_episode(strings::split(base, '.')),
    ensures
        ({
            let end = base.len() - ending.len();
            parsing::title_of(base) == parsing::movie_title(
                title,
                digits,
                parsing::edition_at(
                    base,
                    parsing::after_separators(base, parsing::after_blanks(base, end)),
                ),
            )
        }),
{
    let year = if in_parentheses {
        seq!['('] + digits + seq![')']
    } else {
        digits
    };
    let start = blanks.len() as int;
    let y = start + title.len();
    assert forall|j: int| 0 <= j < start implies #[trigger] base[j] == ' ' || base[j] == '\t' by {
        assert(base[j] == blanks[j]);
    }
    assert(base[start] == title[0]);
    blanks_are_skipped(base, 0, start);
    assert forall|k: int| 0 <= k < year.len() implies base[y + k] == #[trigger] year[k] by {}
    let d = if in_parentheses {
        y + 1
    } else {
        y
    };
    assert forall|k: int| 0 <= k < 4 implies base[d + k] == #[trigger] digits[k] by {
        assert(year[d - y + k] == digits[k]);
    }
    assert(base[d] == digits[0] && base[d + 1] == digits[1] && base[d + 2] == digits[2]
        && base[d + 3] == digits[3]);
    assert(digits_stand_at(base, d));
    if in_parentheses {
        assert(base[y] == year[0]);
        assert(base[y + 5] == year[5]);
        assert(year_stands_at(base, y));
        assert(parsing::year_in_parentheses_at(base, y));
    } else {
        assert(base[y] == digits[0]);
        assert(!parsing::year_in_parentheses_at(base, y));
    }
    assert(year_stands_at(base, y));
    the_first_year_is_found(base, start, y);
    digits_are_found(base);
    strings::split_is_not_empty(base, '.');
    other_names_are_no_episodes(strings::split(base, '.'));
    assert(base.subrange(start, y) =~= title);
    assert(base.subrange(d, d + 4) =~= digits);
    assert(parsing::year_length(base, y) == year.len());
}

/// Whether `title` is the title of a movie with the given name and year: the name as it is shown
/// and the year in parentheses, and the edition behind it, where there is one.
pub open spec fn is_movie_title(
    title: Seq<char>,
    name: Seq<char>,
    digits: Seq<char>,
    edition: Seq<char>,
) -> bool {
    exists|shown: Seq<char>| #[trigger]
        is_shown(shown, name) && title == shown + seq![' ', '('] + digits + seq![')'] + edition
}

proof fn movie_titles_are_movie_titles(
    name: Seq<char>,
    digits: Seq<char>,
    edition: Option<Seq<char>>,
)
    ensures
        edition is None ==> is_movie_title(
            parsing::movie_title(name, digits, edition),
            name,
            digits,
            seq![],
        ),
        edition matches Some(e) ==> is_movie_title(
            parsing::movie_title(name, digits, edition),
            name,
            digits,
            seq![' '] + e,
        ),
{
    let shown = parsing::clean_title(name);
    clean_titles_are_shown(name);
    reveal_strlit(" (");
    reveal_strlit(")");
    reveal_strlit(" ");
    assert(" ("@ =~= seq![' ', '(']);
    assert(")"@ =~= seq![')']);
    assert(" "@ =~= seq![' ']);
    let head = shown + seq![' ', '('] + digits + seq![')'];
    match edition {
        None => {
            assert(parsing::movie_title(name, digits, edition) =~= head + seq![]);
        },
        Some(e) => {
            assert(parsing::movie_title(name, digits, edition) =~= head + (seq![' '] + e));
        },
    }
}

/// Whether an edition is written so, with `more` behind it, and how it is shown. Of the two that
/// start alike, the longer one counts.
pub open spec fn is_edition(written: Seq<char>, more: Seq<char>, shown: Seq<char>) -> bool {
    ||| written == "Unrated Director's Cut"@ && shown == "Unrated Director's Cut"@
    ||| written == "Director's Cut"@ && shown == "Director's Cut"@
    ||| written == "REMASTERED"@ && shown == "Remastered"@
    ||| written == "Remastered"@ && shown == "Remastered"@
    ||| written == "Special Edition"@ && shown == "Special Edition"@
    ||| written == "International Cut"@ && shown == "International Cut"@
    ||| written == "Unrated"@ && shown == "Unrated"@ && !" Director's Cut"@.is_prefix_of(more)
    ||| written == "Uncut"@ && shown == "Uncut"@
}

proof fn a_part_starts_like_its_place(s: Seq<char>, i: int, part: Seq<char>, k: int)
    requires
        strings::occurs_at(s, i, part),
        0 <= k < part.len(),
    ensures
        s[i + k] == part[k],
{
    assert(s.subrange(i, i + part.len())[k] == part[k]);
}

proof fn editions_are_found(
    s: Seq<char>,
    i: int,
    written: Seq<char>,
    more: Seq<char>,
    shown: Seq<char>,
)
    requires
        0 <= i <= s.len(),
        s.skip(i) == written + more,
        is_edition(written, more, shown),
    ensures
        parsing::edition_at(s, i) == Some(shown),
        written.len() > 0,
        s.len() > i,
        s[i] == written[0],
        'A' <= written[0] <= 'Z',
{
    let unrated_cut = "Unrated Director's Cut"@;
    let directors_cut = "Director's Cut"@;
    let loud = "REMASTERED"@;
    let remastered = "Remastered"@;
    let special = "Special Edition"@;
    let international = "International Cut"@;
    let unrated = "Unrated"@;
    let uncut = "Uncut"@;
    reveal_strlit("Unrated Director's Cut");
    reveal_strlit("Director's Cut");
    reveal_strlit("REMASTERED");
    reveal_strlit("Remastered");
    reveal_strlit("Special Edition");
    reveal_strlit("International Cut");
    reveal_strlit("Unrated");
    reveal_strlit("Uncut");
    reveal_strlit(" Director's Cut");
    assert(unrated_cut.len() == 22 && unrated_cut[0] == 'U' && unrated_cut[2] == 'r');
    assert(directors_cut.len() == 14 && directors_cut[0] == 'D');
    assert(loud.len() == 10 && loud[0] == 'R' && loud[1] == 'E');
    assert(remastered.len() == 10 && remastered[0] == 'R' && remastered[1] == 'e');
    assert(special.len() == 15 && special[0] == 'S');
    assert(international.len() == 17 && international[0] == 'I');
    assert(unrated.len() == 7 && unrated[0] == 'U' && unrated[2] == 'r');
    assert(uncut.len() == 5 && uncut[0] == 'U' && uncut[2] == 'c');
    let rest = s.skip(i);
    assert(rest.len() == s.len() - i && rest.len() == written.len() + more.len());
    assert forall|k: int| 0 <= k < written.len() implies #[trigger] s[i + k] == written[k] by {
        assert(rest[k] == s[i + k]);
        assert((written + more)[k] == written[k]);
    }
    assert(s[i + 0] == written[0] && s[i + 1] == written[1] && s[i + 2] == written[2]);
    assert(s.subrange(i, i + written.len()) =~= written);
    assert(strings::occurs_at(s, i, written));
    if strings::occurs_at(s, i, unrated_cut) {
        a_part_starts_like_its_place(s, i, unrated_cut, 0);
        a_part_starts_like_its_place(s, i, unrated_cut, 2);
        if written == unrated {
            let tail = " Director's Cut"@;
            assert(unrated_cut =~= unrated + tail);
            assert forall|k: int| 0 <= k < tail.len() implies more[k] == #[trigger] tail[k] by {
                a_part_starts_like_its_place(s, i, unrated_cut, 7 + k);
                assert(rest[7 + k] == s[i + (7 + k)]);
                assert((unrated + tail)[7 + k] == tail[k]);
                assert((written + more)[7 + k] == more[k]);
            }
            assert(tail =~= more.subrange(0, tail.len() as int));
        }
    }
    if strings::occurs_at(s, i, directors_cut) {
        a_part_starts_like_its_place(s, i, directors_cut, 0);
    }
    if strings::occurs_at(s, i, loud) {
        a_part_starts_like_its_place(s, i, loud, 0);
        a_part_starts_like_its_place(s, i, loud, 1);
    }
    if strings::occurs_at(s, i, remastered) {
        a_part_starts_like_its_place(s, i, remastered, 0);
        a_part_starts_like_its_place(s, i, remastered, 1);
    }
    if strings::occurs_at(s, i, special) {
        a_part_starts_like_its_place(s, i, special, 0);
    }
    if strings::occurs_at(s, i, international) {
        a_part_starts_like_its_place(s, i, international, 0);
    }
    if strings::occurs_at(s, i, unrated) {
        a_part_starts_like_its_place(s, i, unrated, 0);
        a_part_starts_like_its_place(s, i, unrated, 2);
    }
}

proof fn edition_follows(
    base: Seq<char>,
    end: int,
    gap: Seq<char>,
    separators: Seq<char>,
    written: Seq<char>,
    more: Seq<char>,
    edition: Seq<char>,
)
    requires
        0 <= end <= base.len(),
        base.skip(end) == gap + separators + (written + more),
        forall|i: int| 0 <= i < gap.len() ==> #[trigger] gap[i] == ' ' || gap[i] == '\t',
        forall|i: int| 0 <= i < separators.len() ==> is_separator(#[trigger] separators[i]),
        is_edition(written, more, edition),
    ensures
        parsing::edition_at(
            base,
            parsing::after_separators(base, parsing::after_blanks(base, end)),
        ) == Some(edition),
{
    let ending = gap + separators + (written + more);
    let m = end + gap.len();
    let k = m + separators.len();
    assert(ending.len() == base.len() - end);
    assert forall|j: int| end <= j < base.len() implies #[trigger] base[j] == ending[j - end] by {
        assert(base.skip(end)[j - end] == base[j]);
    }
    assert forall|j: int| end <= j < m implies #[trigger] base[j] == ' ' || base[j] == '\t' by {
        assert(ending[j - end] == gap[j - end]);
    }
    assert forall|j: int| m <= j < k implies is_separator(#[trigger] base[j]) by {
        assert(ending[j - end] == separators[j - m]);
    }
    assert(base.skip(k) =~= written + more);
    editions_are_found(base, k, written, more, edition);
    gaps_are_skipped(base, end, m, k);
}

/// The title of a movie whose year is followed by an edition, with nothing but blanks and
/// separators between, is its name as it is shown, the year in parentheses and the edition.
pub proof fn movies_are_titled_with_year_and_edition(
    filename: &str,
    base: Seq<char>,
    blanks: Seq<char>,
    title: Seq<char>,
    digits: Seq<char>,
    in_parentheses: bool,
    gap: Seq<char>,
    separators: Seq<char>,
    written: Seq<char>,
    more: Seq<char>,
    edition: Seq<char>,
    r: String,
)
    requires
        call_ensures(extract_matroska_title_from_filename, (filename,), r),
        is_file_name_of(filename@, base),
        !is_episode(strings::split(base, '.')),
        is_movie_name(
            base,
            blanks,
            title,
            digits,
            in_parentheses,
            gap + separators + (written + more),
        ),
        forall|i: int| 0 <= i < gap.len() ==> #[trigger] gap[i] == ' ' || gap[i] == '\t',
        forall|i: int| 0 <= i < separators.len() ==> is_separator(#[trigger] separators[i]),
        is_edition(written, more, edition),
    ensures
        is_movie_title(r@, title, digits, seq![' '] + edition),
{
    let ending = gap + separators + (written + more);
    base_is_found(filename@, base);
    assert(base.skip(base.len() - ending.len()) =~= ending);
    edition_follows(base, base.len() - ending.len(), gap, separators, written, more, edition);
    movies_are_taken_apart(base, blanks, title, digits, in_parentheses, ending);
    movie_titles_are_movie_titles(title, digits, Some(edition));
}

/// Whether `s` starts with none of the editions.
pub open spec fn starts_with_no_edition(s: Seq<char>) -> bool {
    &&& !"Director's Cut"@.is_prefix_of(s)
    &&& !"REMASTERED"@.is_prefix_of(s)
    &&& !"Remastered"@.is_prefix_of(s)
    &&& !"Special Edition"@.is_prefix_of(s)
    &&& !"International Cut"@.is_prefix_of(s)
    &&& !"Unrated"@.is_prefix_of(s)
    &&& !"Uncut"@.is_prefix_of(s)
}

proof fn parts_at_the_end_are_prefixes(s: Seq<char>, i: int, part: Seq<char>)
    requires
        0 <= i <= s.len(),
        strings::occurs_at(s, i, part),
    ensures
        part.is_prefix_of(s.skip(i)),
{
    assert(s.skip(i).subrange(0, part.len() as int) =~= s.subrange(i, i + part.len()));
}

proof fn no_edition_is_found(s: Seq<char>, i: int)
    requires
        0 <= i <= s.len(),
        starts_with_no_edition(s.skip(i)),
    ensures
        parsing::edition_at(s, i) is None,
{
    if strings::occurs_at(s, i, "Unrated Director's Cut"@) {
        parts_at_the_end_are_prefixes(s, i, "Unrated Director's Cut"@);
        reveal_strlit("Unrated Director's Cut");
        reveal_strlit("Unrated");
        assert("Unrated"@ =~= "Unrated Director's Cut"@.subrange(0, 7));
        assert("Unrated"@ =~= s.skip(i).subrange(0, 7));
    }
    if strings::occurs_at(s, i, "Director's Cut"@) {
        parts_at_the_end_are_prefixes(s, i, "Director's Cut"@);
    }
    if strings::occurs_at(s, i, "REMASTERED"@) {
        parts_at_the_end_are_prefixes(s, i, "REMASTERED"@);
    }
    if strings::occurs_at(s, i, "Remastered"@) {
        parts_at_the_end_are_prefixes(s, i, "Remastered"@);
    }
    if strings::occurs_at(s, i, "Special Edition"@) {
        parts_at_the_end_are_prefixes(s, i, "Special Edition"@);
    }
    if strings::occurs_at(s, i, "International Cut"@) {
        parts_at_the_end_are_prefixes(s, i, "International Cut"@);
    }
    if strings::occurs_at(s, i, "Unrated"@) {
        parts_at_the_end_are_prefixes(s, i, "Unrated"@);
    }
    if strings::occurs_at(s, i, "Uncut"@) {
        parts_at_the_end_are_prefixes(s, i, "Uncut"@);
    }
}

proof fn no_edition_follows(
    base: Seq<char>,
    end: int,
    gap: Seq<char>,
    separators: Seq<char>,
    more: Seq<char>,
)
    requires
        0 <= end <= base.len(),
        base.skip(end) == gap + separators + more,
        forall|i: int| 0 <= i < gap.len() ==> #[trigger] gap[i] == ' ' || gap[i] == '\t',
        forall|i: int| 0 <= i < separators.len() ==> is_separator(#[trigger] separators[i]),
        separators.len() > 0 ==> separators[0] != ' ',
        more.len() > 0 ==> !is_separator(more[0]) && (more[0] != '\t' || separators.len() > 0),
        starts_with_no_edition(more),
    ensures
        parsing::edition_at(
            base,
            parsing::after_separators(base, parsing::after_blanks(base, end)),
        ) is None,
{
    let ending = gap + separators + more;
    let m = end + gap.len();
    let k = m + separators.len();
    assert(ending.len() == base.len() - end);
    assert forall|j: int| end <= j < base.len() implies #[trigger] base[j] == ending[j - end] by {
        assert(base.skip(end)[j - end] == base[j]);
    }
    assert forall|j: int| end <= j < m implies #[trigger] base[j] == ' ' || base[j] == '\t' by {
        assert(ending[j - end] == gap[j - end]);
    }
    assert forall|j: int| m <= j < k implies is_separator(#[trigger] base[j]) by {
        assert(ending[j - end] == separators[j - m]);
    }
    if separators.len() > 0 {
        assert(base[m] == ending[m - end]);
        assert(base[m] == separators[0]);
        assert(is_separator(separators[0]));
    } else if more.len() > 0 {
        assert(base[m] == ending[m - end]);
        assert(base[m] == more[0]);
    }
    blanks_are_skipped(base, end, m);
    if more.len() > 0 {
        assert(base[k] == ending[k - end]);
        assert(base[k] == more[0]);
    }
    separators_are_skipped(base, m, k);
    assert(base.skip(k) =~= more);
    no_edition_is_found(base, k);
}

/// The title of a movie whose year is followed by no edition is its name as it is shown and the
/// year in parentheses. What else follows is left out.
pub proof fn movies_are_titled_with_their_year(
    filename: &str,
    base: Seq<char>,
    blanks: Seq<char>,
    title: Seq<char>,
    digits: Seq<char>,
    in_parentheses: bool,
    gap: Seq<char>,
    separators: Seq<char>,
    more: Seq<char>,
    r: String,
)
    requires
        call_ensures(extract_matroska_title_from_filename, (filename,), r),
        is_file_name_of(filename@, base),
        !is_episode(strings::split(base, '.')),
        is_movie_name(base, blanks, title, digits, in_parentheses, gap + separators + more),
        forall|i: int| 0 <= i < gap.len() ==> #[trigger] gap[i] == ' ' || gap[i] == '\t',
        forall|i: int| 0 <= i < separators.len() ==> is_separator(#[trigger] separators[i]),
        separators.len() > 0 ==> separators[0] != ' ',
        more.len() > 0 ==> !is_separator(more[0]) && (more[0] != '\t' || separators.len() > 0),
        starts_with_no_edition(more),
    ensures
        is_movie_title(r@, title, digits, seq![]),
{
    let ending = gap + separators + more;
    base_is_found(filename@, base);
    assert(base.skip(base.len() - ending.len()) =~= ending);
    no_edition_follows(base, base.len() - ending.len(), gap, separators, more);
    movies_are_taken_apart(base, blanks, title, digits, in_parentheses, ending);
    movie_titles_are_movie_titles(title, digits, None);
}

/// A name that is no episode and starts with a year, blanks aside, stands for itself.
pub proof fn names_that_start_with_a_year_stand_for_themselves(
    filename: &str,
    base: Seq<char>,
    start: int,
    r: String,
)
    requires
        call_ensures(extract_matroska_title_from_filename, (filename,), r),
        is_file_name_of(filename@, base),
        !is_episode(strings::split(base, '.')),
        0 <= start < base.len(),
        forall|i: int| 0 <= i < start ==> #[trigger] base[i] == ' ' || base[i] == '\t',
        year_stands_at(base, start),
    ensures
        r@ == base,
{
    base_is_found(filename@, base);
    blanks_are_skipped(base, 0, start);
    the_first_year_is_found(base, start, start);
    if !digits_stand_at(base, start) {
        assert(digits_stand_at(base, start + 1));
    }
    digits_are_found(base);
    strings::split_is_not_empty(base, '.');
    other_names_are_no_episodes(strings::split(base, '.'));
}

} // verus!
