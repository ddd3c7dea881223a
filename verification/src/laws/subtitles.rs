//! Laws of subtitle files: the dialogue, the search for files, for whom they are, and languages.

use vstd::prelude::*;

use crate::laws::texts;
use crate::paths::FilePath;
use crate::strings;
use crate::strings::split_by_non_letters;
use crate::subtitles;
use crate::subtitles::{
    detect_language_from_string, detect_language_of_subtitle_file,
    detect_type_of_subtitle_file_type, extract_dialogue, extract_dialogue_from_srt_file,
    gather_subtitle_file_paths_in, is_subtitle_file, try_detect_language_from_string,
    try_detect_language_of_subtitle_file, Directory, DirectoryEntry, Language, LanguageError,
    SubTitleType, UnreadableDirectory,
};

verus! {

// ---------------------------------------------------------------------------------------------
// Dialogue
// ---------------------------------------------------------------------------------------------

/// Whether a line is blank, consists of numeric characters alone, or holds `-->`.
pub open spec fn is_about_the_dialogue(line: Seq<char>) -> bool {
    ||| forall|i: int| 0 <= i < line.len() ==> strings::is_space(#[trigger] line[i])
    ||| forall|i: int| 0 <= i < line.len() ==> strings::is_number(#[trigger] line[i])
    ||| exists|i: int|
        0 <= i < line.len() - 2 && #[trigger] line[i] == '-' && line[i + 1] == '-' && line[i + 2]
            == '>'
}

proof fn arrows_are_found(line: Seq<char>)
    ensures
        strings::occurs_in(line, "-->"@) <==> exists|i: int|
            0 <= i < line.len() - 2 && #[trigger] line[i] == '-' && line[i + 1] == '-' && line[i
                + 2] == '>',
{
    reveal_strlit("-->");
    let arrow = "-->"@;
    assert(arrow.len() == 3 && arrow[0] == '-' && arrow[1] == '-' && arrow[2] == '>');
    if strings::occurs_in(line, arrow) {
        let i = choose|i: int| strings::occurs_at(line, i, arrow);
        let part = line.subrange(i, i + 3);
        assert(part[0] == line[i] && part[1] == line[i + 1] && part[2] == line[i + 2]);
    }
    if exists|i: int|
        0 <= i < line.len() - 2 && #[trigger] line[i] == '-' && line[i + 1] == '-' && line[i + 2]
            == '>' {
        let i = choose|i: int|
            0 <= i < line.len() - 2 && #[trigger] line[i] == '-' && line[i + 1] == '-' && line[i
                + 2] == '>';
        assert(line.subrange(i, i + 3) =~= arrow);
        assert(strings::occurs_at(line, i, arrow));
    }
}

/// A line is spoken unless it is blank, consists of numeric characters alone, or holds `-->`.
pub proof fn all_other_lines_are_spoken(line: Seq<char>)
    ensures
        subtitles::is_spoken(line) <==> !is_about_the_dialogue(line),
{
    arrows_are_found(line);
}

/// A line that holds a letter and no `-->` is spoken, whatever digits it holds besides. So is one
/// that holds any other character that is neither white space nor numeric.
pub proof fn lines_with_a_letter_are_spoken(line: Seq<char>, i: int)
    requires
        0 <= i < line.len(),
        'a' <= line[i] <= 'z' || 'A' <= line[i] <= 'Z' || (!strings::is_space(line[i])
            && !strings::is_number(line[i])),
        forall|k: int|
            0 <= k < line.len() - 2 ==> !(#[trigger] line[k] == '-' && line[k + 1] == '-' && line[k
                + 2] == '>'),
    ensures
        subtitles::is_spoken(line),
        !is_about_the_dialogue(line),
{
    if 'a' <= line[i] <= 'z' || 'A' <= line[i] <= 'Z' {
        texts::ascii_characters_have_their_classes(line[i]);
    }
    assert(!strings::is_space(line[i]) && !strings::is_number(line[i]));
    all_other_lines_are_spoken(line);
}

/// Blank lines, lines of numeric characters alone and lines that hold `-->` leave no trace: the
/// dialogue is the one of the other lines.
pub proof fn lines_about_the_dialogue_leave_no_trace(
    lines: Vec<String>,
    others: Vec<String>,
    i: int,
    r: String,
    r_others: String,
)
    requires
        call_ensures(extract_dialogue, (&lines,), r),
        call_ensures(extract_dialogue, (&others,), r_others),
        0 <= i < lines@.len(),
        others@ == lines@.remove(i),
        is_about_the_dialogue(lines@[i]@),
    ensures
        r@ == r_others@,
{
    all_other_lines_are_spoken(lines@[i]@);
    let all = strings::texts(lines@);
    let before = all.take(i);
    let after = all.skip(i + 1);
    assert(all =~= before + seq![lines@[i]@] + after);
    assert(strings::texts(others@) =~= before + after);
    subtitles::the_dialogue_is_free_of_metadata(before, lines@[i]@, after);
}

proof fn speech_is_joined(lines: Seq<Seq<char>>)
    requires
        lines.len() > 0,
        forall|i: int| 0 <= i < lines.len() ==> !is_about_the_dialogue(#[trigger] lines[i]),
    ensures
        subtitles::spoken_text(lines) == strings::join(lines, seq![' ']) + seq![' '],
    decreases lines.len(),
{
    let before = lines.drop_last();
    let line = lines.last();
    assert(!is_about_the_dialogue(lines[lines.len() - 1]));
    all_other_lines_are_spoken(line);
    assert(before.push(line) =~= lines);
    texts::joining_puts_the_separator_between(before, line, seq![' ']);
    if before.len() == 0 {
        assert(lines =~= seq![line]);
        assert(subtitles::spoken_text(before) =~= Seq::<char>::empty());
        assert(subtitles::spoken_text(lines) =~= line + seq![' ']);
    } else {
        assert forall|i: int| 0 <= i < before.len() implies !is_about_the_dialogue(
            #[trigger] before[i],
        ) by {
            assert(!is_about_the_dialogue(lines[i]));
        }
        speech_is_joined(before);
        assert(subtitles::spoken_text(lines) =~= strings::join(lines, seq![' ']) + seq![' ']);
    }
}

/// The dialogue of lines that are all spoken is these lines in their order, whole and with one
/// space between each two of them, but for white space at the end of the last one.
pub proof fn spoken_lines_are_joined(lines: Vec<String>, r: String)
    requires
        call_ensures(extract_dialogue, (&lines,), r),
        lines@.len() > 0,
        forall|i: int| 0 <= i < lines@.len() ==> !is_about_the_dialogue((#[trigger] lines@[i])@),
    ensures
        ({
            let joined = strings::join(strings::texts(lines@), seq![' ']);
            &&& r@.len() <= joined.len()
            &&& r@ == joined.take(r@.len() as int)
            &&& forall|i: int| r@.len() <= i < joined.len() ==> strings::is_space(
                #[trigger] joined[i],
            )
            &&& r@.len() > 0 && !strings::is_space(r@.last())
        }),
{
    let all = strings::texts(lines@);
    assert forall|i: int| 0 <= i < all.len() implies !is_about_the_dialogue(#[trigger] all[i]) by {
        assert(all[i] == lines@[i]@);
    }
    speech_is_joined(all);
    let joined = strings::join(all, seq![' ']);
    let speech = joined + seq![' '];
    let space = |c: char| strings::is_space(c);
    assert(speech.drop_last() =~= joined);
    assert(strings::trim_end(speech, space) == strings::trim_end(joined, space));
    texts::trimmed_ends_are_padding(joined, space);
    strings::trim_end_is_trimmed(joined, space);
    // The last line holds something that is not white space.
    let line = all.last();
    assert(!is_about_the_dialogue(all[all.len() - 1]));
    let k = choose|k: int| 0 <= k < line.len() && !strings::is_space(#[trigger] line[k]);
    let before = all.drop_last();
    assert(before.push(line) =~= all);
    texts::joining_puts_the_separator_between(before, line, seq![' ']);
    let at = joined.len() - line.len() + k;
    if before.len() == 0 {
        assert(all =~= seq![line]);
        assert(joined[at] == line[k]);
    } else {
        assert(joined[at] == line[k]);
    }
    assert(r@.len() > 0) by {
        if r@.len() == 0 {
            assert(space(joined[at]));
        }
    }
}

/// No line holds no dialogue.
pub proof fn no_lines_hold_no_dialogue(lines: Vec<String>, r: String)
    requires
        call_ensures(extract_dialogue, (&lines,), r),
        lines@.len() == 0,
    ensures
        r@.len() == 0,
{
}

/// A spoken line stands in the dialogue as it is, but for white space at its end, whatever other
/// lines there are.
pub proof fn spoken_lines_stand_in_the_dialogue(
    lines: Vec<String>,
    i: int,
    line: Seq<char>,
    blanks: Seq<char>,
    r: String,
)
    requires
        call_ensures(extract_dialogue, (&lines,), r),
        0 <= i < lines@.len(),
        !is_about_the_dialogue(lines@[i]@),
        lines@[i]@ == line + blanks,
        line.len() > 0,
        !strings::is_space(line.last()),
    ensures
        exists|before: Seq<char>, after: Seq<char>| r@ == #[trigger] (before + line + after),
{
    let all = strings::texts(lines@);
    let space = |c: char| strings::is_space(c);
    all_other_lines_are_spoken(lines@[i]@);
    let earlier = all.take(i);
    let later = all.skip(i + 1);
    let here = seq![lines@[i]@];
    assert(all =~= earlier + here + later);
    subtitles::spoken_text_of_parts(earlier + here, later);
    subtitles::spoken_text_of_parts(earlier, here);
    assert(here.drop_last() =~= Seq::<Seq<char>>::empty());
    reveal_with_fuel(subtitles::spoken_text, 2);
    assert(subtitles::spoken_text(here) =~= lines@[i]@ + seq![' ']);
    let speech = subtitles::spoken_text(all);
    let before = subtitles::spoken_text(earlier);
    texts::trimmed_ends_are_padding(speech, space);
    let end = before.len() + line.len();
    assert(speech =~= before + line + (blanks + seq![' '] + subtitles::spoken_text(later)));
    assert(speech[end - 1] == line.last());
    if r@.len() < end {
        assert(space(speech[end - 1]));
    }
    let after = speech.subrange(end as int, r@.len() as int);
    assert(r@ =~= before + line + after);
}

/// The dialogue of a file that can be read is that of its lines, and a file that can not be read
/// is named in the error.
pub proof fn files_have_the_dialogue_of_their_lines(
    path: FilePath,
    lines: Option<Vec<String>>,
    r: Result<String, LanguageError>,
    text: String,
)
    requires
        call_ensures(extract_dialogue_from_srt_file, (&path, &lines), r),
        lines matches Some(l) ==> call_ensures(extract_dialogue, (&l,), text),
    ensures
        lines is Some ==> r is Ok && r->Ok_0@ == text@,
        lines is None ==> (r matches Err(LanguageError::Unreadable(told)) && told@ == path.text@),
{
}

// ---------------------------------------------------------------------------------------------
// File names
// ---------------------------------------------------------------------------------------------

/// A file name with a dot in it, not at its start, is a stem and an extension, parted by its last
/// dot.
pub proof fn names_are_parted_at_the_last_dot(
    path: FilePath,
    stem: Seq<char>,
    extension: Seq<char>,
    r_stem: Option<String>,
    r_extension: Option<String>,
)
    requires
        call_ensures(FilePath::file_stem, (&path,), r_stem),
        call_ensures(FilePath::extension, (&path,), r_extension),
        path.file_name matches Some(name) && name@ == stem + seq!['.'] + extension,
        stem.len() > 0,
        !extension.contains('.'),
    ensures
        r_stem matches Some(s) && s@ == stem,
        r_extension matches Some(e) && e@ == extension,
{
    extension_is_found(path, stem, extension);
}

proof fn extension_is_found(path: FilePath, stem: Seq<char>, extension: Seq<char>)
    requires
        path.file_name matches Some(name) && name@ == stem + seq!['.'] + extension,
        stem.len() > 0,
        !extension.contains('.'),
    ensures
        path.spec_extension() == Some(extension),
        path.spec_file_stem() == Some(stem),
{
    let name = path.file_name->0@;
    let p = stem.len() as int;
    assert forall|j: int| p < j < name.len() implies #[trigger] name[j] != '.' by {
        assert(extension.contains(extension[j - p - 1]));
    }
    strings::last_position_is_unique(name, '.', p);
    assert(name.skip(p + 1) =~= extension);
    assert(name.take(p) =~= stem);
}

/// A file name without a dot behind its first character is all stem and has no extension.
pub proof fn other_names_have_no_extension(
    path: FilePath,
    r_stem: Option<String>,
    r_extension: Option<String>,
)
    requires
        call_ensures(FilePath::file_stem, (&path,), r_stem),
        call_ensures(FilePath::extension, (&path,), r_extension),
        path.file_name matches Some(name) ==> forall|i: int|
            1 <= i < name@.len() ==> #[trigger] name@[i] != '.',
    ensures
        r_extension is None,
        path.file_name is None ==> r_stem is None,
        path.file_name matches Some(name) ==> (r_stem matches Some(s) && s@ == name@),
{
    if let Some(name) = path.file_name {
        strings::last_position_is_last(name@, '.');
    }
}

/// Whether a file name is something with `extension` behind it.
pub open spec fn is_named_with(path: FilePath, extension: Seq<char>) -> bool {
    path.file_name matches Some(name) && exists|stem: Seq<char>|
        stem.len() > 0 && name@ == #[trigger] (stem + extension)
}

proof fn named_with(path: FilePath, extension: Seq<char>, dotted: Seq<char>)
    requires
        dotted == seq!['.'] + extension,
        !extension.contains('.'),
    ensures
        is_named_with(path, dotted) <==> path.spec_extension() == Some(extension),
{
    if is_named_with(path, dotted) {
        let name = path.file_name->0@;
        let stem = choose|stem: Seq<char>| stem.len() > 0 && name == #[trigger] (stem + dotted);
        assert(name =~= stem + seq!['.'] + extension);
        extension_is_found(path, stem, extension);
    }
    if path.spec_extension() == Some(extension) {
        path.stem_and_extension_make_the_name();
        let name = path.file_name->0@;
        strings::last_position_is_last(name, '.');
        let stem = path.spec_file_stem()->0;
        assert(name =~= stem + dotted);
    }
}

/// Subtitle files are those whose names end in `.srt`, `.ass`, `.ssa` or `.idx` behind something.
pub proof fn subtitle_files_have_four_extensions(path: FilePath, b: bool)
    requires
        call_ensures(is_subtitle_file, (&path,), b),
    ensures
        b <==> is_named_with(path, ".srt"@) || is_named_with(path, ".ass"@) || is_named_with(
            path,
            ".ssa"@,
        ) || is_named_with(path, ".idx"@),
{
    reveal_strlit("srt");
    reveal_strlit("ass");
    reveal_strlit("ssa");
    reveal_strlit("idx");
    reveal_strlit(".srt");
    reveal_strlit(".ass");
    reveal_strlit(".ssa");
    reveal_strlit(".idx");
    assert(".srt"@ =~= seq!['.'] + "srt"@);
    assert(".ass"@ =~= seq!['.'] + "ass"@);
    assert(".ssa"@ =~= seq!['.'] + "ssa"@);
    assert(".idx"@ =~= seq!['.'] + "idx"@);
    named_with(path, "srt"@, ".srt"@);
    named_with(path, "ass"@, ".ass"@);
    named_with(path, "ssa"@, ".ssa"@);
    named_with(path, "idx"@, ".idx"@);
}

// ---------------------------------------------------------------------------------------------
// Search
// ---------------------------------------------------------------------------------------------

/// At depth 0 nothing is read and nothing found, at any other depth a directory has to be
/// readable, and an empty one holds nothing.
pub proof fn the_search_starts_with_nothing(
    directory: Directory,
    depth: u32,
    r: Result<Vec<FilePath>, UnreadableDirectory>,
)
    requires
        call_ensures(gather_subtitle_file_paths_in, (&directory, depth), r),
    ensures
        depth == 0 ==> r is Ok && r->Ok_0@.len() == 0,
        depth > 0 && directory == Directory::Unreadable ==> r is Err,
        depth > 0 && (directory matches Directory::Listed(entries) && entries@.len() == 0) ==> r is
            Ok && r->Ok_0@.len() == 0,
{
}

/// One more file in a directory is found behind what is found among the entries before it, where
/// it is a subtitle file, and one more directory adds what is found in it one level less deep.
/// One entry that can not be read spoils all.
pub proof fn another_entry_adds_what_it_holds(
    directory: Directory,
    before: Directory,
    depth: u32,
    r: Result<Vec<FilePath>, UnreadableDirectory>,
    r_before: Result<Vec<FilePath>, UnreadableDirectory>,
    is_subtitle: bool,
    r_below: Result<Vec<FilePath>, UnreadableDirectory>,
)
    requires
        depth > 0,
        directory matches Directory::Listed(entries) && before matches Directory::Listed(fewer)
            && entries@.len() > 0 && fewer@ == entries@.drop_last() && (entries@.last() matches
            DirectoryEntry::File(path) ==> call_ensures(is_subtitle_file, (&path,), is_subtitle))
            && (entries@.last() matches DirectoryEntry::Directory(below) ==> call_ensures(
            gather_subtitle_file_paths_in,
            (&below, (depth - 1) as u32),
            r_below,
        )),
        call_ensures(gather_subtitle_file_paths_in, (&directory, depth), r),
        call_ensures(gather_subtitle_file_paths_in, (&before, depth), r_before),
    ensures
        match directory->Listed_0@.last() {
            DirectoryEntry::File(path) => {
                &&& r is Ok <==> r_before is Ok
                &&& r is Ok && is_subtitle ==> r->Ok_0@ == r_before->Ok_0@.push(path)
                &&& r is Ok && !is_subtitle ==> r->Ok_0@ == r_before->Ok_0@
            },
            DirectoryEntry::Directory(_) => {
                &&& r is Ok <==> r_before is Ok && r_below is Ok
                &&& r is Ok ==> r->Ok_0@ == r_before->Ok_0@ + r_below->Ok_0@
            },
            DirectoryEntry::Unreadable => r is Err,
        },
{
    let entries = directory->Listed_0@;
    let fewer = before->Listed_0@;
    let d = depth as nat;
    let last = entries.last();
    assert(entries[entries.len() - 1] == last);
    assert forall|i: int| 0 <= i < fewer.len() implies #[trigger] fewer[i] == entries[i] by {}
    if subtitles::directory_readable(directory, d) {
        assert forall|i: int| 0 <= i < fewer.len() implies match #[trigger] fewer[i] {
            DirectoryEntry::File(_) => true,
            DirectoryEntry::Unreadable => false,
            DirectoryEntry::Directory(below) => subtitles::directory_readable(
                below,
                (d - 1) as nat,
            ),
        } by {
            assert(fewer[i] == entries[i]);
        }
        assert(subtitles::directory_readable(before, d));
    }
    if subtitles::directory_readable(before, d) {
        assert forall|i: int| 0 <= i < entries.len() - 1 implies match #[trigger] entries[i] {
            DirectoryEntry::File(_) => true,
            DirectoryEntry::Unreadable => false,
            DirectoryEntry::Directory(below) => subtitles::directory_readable(
                below,
                (d - 1) as nat,
            ),
        } by {
            assert(fewer[i] == entries[i]);
        }
    }
    match last {
        DirectoryEntry::File(path) => {
            if r is Ok {
                assert(r->Ok_0@ =~= if is_subtitle {
                    r_before->Ok_0@.push(path)
                } else {
                    r_before->Ok_0@
                });
            }
        },
        DirectoryEntry::Directory(below) => {
            if r is Ok {
                assert(subtitles::directory_readable(below, (d - 1) as nat));
                match below {
                    Directory::Listed(listed) => {
                        assert(r->Ok_0@ =~= r_before->Ok_0@ + r_below->Ok_0@);
                    },
                    Directory::Unreadable => {
                        assert(r_below->Ok_0@ =~= Seq::empty());
                        assert(r->Ok_0@ =~= r_before->Ok_0@ + r_below->Ok_0@);
                    },
                }
            }
        },
        DirectoryEntry::Unreadable => {},
    }
}

// ---------------------------------------------------------------------------------------------
// For whom subtitles are
// ---------------------------------------------------------------------------------------------

/// Whether one of `words` reads `word` in small letters.
pub open spec fn holds_word(words: Vec<&str>, word: Seq<char>) -> bool {
    exists|i: int| 0 <= i < words@.len() && strings::lowered((#[trigger] words@[i])@) == word
}

/// Subtitles are for the deaf and hard of hearing exactly where the words of the file name
/// without its extension say SDH or CC, or both hearing and impaired, in any letter case.
pub proof fn words_tell_for_whom_subtitles_are(
    path: FilePath,
    stem: &str,
    words: Vec<&str>,
    r: SubTitleType,
)
    requires
        call_ensures(detect_type_of_subtitle_file_type, (&path,), r),
        path.spec_file_stem() == Some(stem@),
        call_ensures(split_by_non_letters, (stem,), words),
    ensures
        r == SubTitleType::SDH <==> holds_word(words, "sdh"@) || holds_word(words, "cc"@) || (
        holds_word(words, "hearing"@) && holds_word(words, "impaired"@)),
{
    words_are_held_alike(words, "sdh"@);
    words_are_held_alike(words, "cc"@);
    words_are_held_alike(words, "hearing"@);
    words_are_held_alike(words, "impaired"@);
}

proof fn words_are_held_alike(words: Vec<&str>, word: Seq<char>)
    ensures
        holds_word(words, word) <==> subtitles::has_word(strings::slices(words@), word),
{
    let runs = strings::slices(words@);
    assert(runs.len() == words@.len());
    if holds_word(words, word) {
        let i = choose|i: int|
            0 <= i < words@.len() && strings::lowered((#[trigger] words@[i])@) == word;
        assert(runs[i] == words@[i]@);
    }
    if subtitles::has_word(runs, word) {
        let i = choose|i: int| 0 <= i < runs.len() && strings::lowered(#[trigger] runs[i]) == word;
        assert(runs[i] == words@[i]@);
    }
}

/// Whether `word` is the two or three letters that mark subtitles for the deaf and hard of
/// hearing, each in either case.
pub open spec fn is_mark(word: Seq<char>) -> bool {
    ||| word.len() == 3 && (word[0] == 's' || word[0] == 'S') && (word[1] == 'd' || word[1] == 'D')
        && (word[2] == 'h' || word[2] == 'H')
    ||| word.len() == 2 && (word[0] == 'c' || word[0] == 'C') && (word[1] == 'c' || word[1] == 'C')
}

/// A file name in which SDH or CC stands, in any letter case and with no letter directly in front
/// of it or behind it, marks subtitles for the deaf and hard of hearing.
pub proof fn marked_files_are_for_the_deaf(
    path: FilePath,
    before: Seq<char>,
    mark: Seq<char>,
    after: Seq<char>,
    r: SubTitleType,
)
    requires
        call_ensures(detect_type_of_subtitle_file_type, (&path,), r),
        path.spec_file_stem() == Some(before + mark + after),
        is_mark(mark),
        before.len() > 0 ==> !strings::is_letter(before.last()),
        after.len() > 0 ==> !strings::is_letter(after[0]),
    ensures
        r == SubTitleType::SDH,
{
    let stem = before + mark + after;
    assert forall|i: int| 0 <= i < mark.len() implies strings::is_letter(#[trigger] mark[i]) by {}
    texts::letters_are_one_word(mark);
    let rest = mark + after;
    let runs = strings::letter_runs(rest);
    if after.len() > 0 {
        texts::other_characters_part_words(mark, after[0], after.skip(1));
        assert(rest =~= mark + seq![after[0]] + after.skip(1));
    } else {
        assert(rest =~= mark);
    }
    assert(runs.len() > 0 && runs[0] == mark);
    let all = strings::letter_runs(stem);
    let at = if before.len() > 0 {
        texts::other_characters_part_words(before.drop_last(), before.last(), rest);
        assert(stem =~= before.drop_last() + seq![before.last()] + rest);
        strings::letter_runs(before.drop_last()).len() as int
    } else {
        assert(stem =~= rest);
        0
    };
    assert(all[at] == mark);
    reveal_strlit("sdh");
    reveal_strlit("cc");
    assert(strings::is_ascii_text(mark));
    if mark.len() == 3 {
        assert(strings::lowered(all[at]) =~= "sdh"@);
        assert(subtitles::has_word(all, "sdh"@));
    } else {
        assert(strings::lowered(all[at]) =~= "cc"@);
        assert(subtitles::has_word(all, "cc"@));
    }
}

// ---------------------------------------------------------------------------------------------
// Languages
// ---------------------------------------------------------------------------------------------

/// The language of a text is the one with the code that was detected for it. Without a detected
/// code nothing is detected, and a code of no language is invalid.
pub proof fn detected_codes_are_looked_up(
    text: &str,
    code: &str,
    language: Option<Language>,
    r: Result<Language, LanguageError>,
)
    requires
        call_ensures(detect_language_from_string, (text,), r),
        subtitles::detected_code(text@) is Some ==> subtitles::detected_code(text@) == Some(code@),
        call_ensures(Language::from_639_3, (code,), language),
    ensures
        subtitles::detected_code(text@) is None ==> r == Err::<Language, LanguageError>(
            LanguageError::NothingDetected,
        ),
        subtitles::detected_code(text@) is Some && language is None ==> r == Err::<
            Language,
            LanguageError,
        >(LanguageError::InvalidCode),
        subtitles::detected_code(text@) is Some && language is Some ==> r is Ok && r->Ok_0@
            == code@,
{
}

/// Whether two detections found the same language, or failed alike.
pub open spec fn agree(
    a: Result<Language, LanguageError>,
    b: Result<Language, LanguageError>,
) -> bool {
    match (a, b) {
        (Ok(language), Ok(other)) => language@ == other@,
        (
            Err(LanguageError::UnsupportedExtension(extension)),
            Err(LanguageError::UnsupportedExtension(other)),
        ) => extension@ == other@,
        (Err(LanguageError::Unreadable(path)), Err(LanguageError::Unreadable(other))) => path@
            == other@,
        (Err(error), Err(other)) => error == other,
        _ => false,
    }
}

/// The language of a file that ends in `.srt` and can be read is that of its dialogue. Where it
/// can not be read it is named in the error, and every other extension is told, or that there is
/// none.
pub proof fn files_have_the_language_of_their_dialogue(
    path: FilePath,
    lines: Option<Vec<String>>,
    text: String,
    dialogue: &str,
    of_dialogue: Result<Language, LanguageError>,
    r: Result<Language, LanguageError>,
)
    requires
        call_ensures(detect_language_of_subtitle_file, (&path, &lines), r),
        lines matches Some(l) ==> call_ensures(extract_dialogue, (&l,), text),
        dialogue@ == text@,
        call_ensures(detect_language_from_string, (dialogue,), of_dialogue),
    ensures
        is_named_with(path, ".srt"@) && lines is Some ==> agree(r, of_dialogue),
        is_named_with(path, ".srt"@) && lines is None ==> (r matches Err(
            LanguageError::Unreadable(told),
        ) && told@ == path.text@),
        !is_named_with(path, ".srt"@) ==> match path.spec_extension() {
            None => r == Err::<Language, LanguageError>(LanguageError::NoExtension),
            Some(extension) => r matches Err(LanguageError::UnsupportedExtension(told)) && told@
                == extension,
        },
{
    reveal_strlit("srt");
    reveal_strlit(".srt");
    assert(".srt"@ =~= seq!['.'] + "srt"@);
    named_with(path, "srt"@, ".srt"@);
}

/// A language is detected where the text in small letters has no more than 2^32 - 1 characters,
/// and only there, and it is then the language that is detected without that care.
pub proof fn long_texts_are_left_alone(
    text: &str,
    careful: Option<Result<Language, LanguageError>>,
    r: Result<Language, LanguageError>,
)
    requires
        call_ensures(try_detect_language_from_string, (text,), careful),
        careful is Some ==> call_ensures(detect_language_from_string, (text,), r),
    ensures
        careful is Some <==> strings::lowered(text@).len() < 0x1_0000_0000,
        careful is Some ==> call_requires(detect_language_from_string, (text,)),
        careful is Some ==> agree(careful->0, r),
{
}

/// The language of a file is detected unless its dialogue is too long for that, and it is then
/// the language that is detected without that care.
pub proof fn long_files_are_left_alone(
    path: FilePath,
    lines: Option<Vec<String>>,
    text: String,
    careful: Option<Result<Language, LanguageError>>,
    r: Result<Language, LanguageError>,
)
    requires
        call_ensures(try_detect_language_of_subtitle_file, (&path, &lines), careful),
        lines matches Some(l) ==> call_ensures(extract_dialogue, (&l,), text),
        careful is Some ==> call_ensures(detect_language_of_subtitle_file, (&path, &lines), r),
    ensures
        careful is None <==> is_named_with(path, ".srt"@) && lines is Some && strings::lowered(
            text@,
        ).len() >= 0x1_0000_0000,
        careful is Some ==> call_requires(detect_language_of_subtitle_file, (&path, &lines)),
        careful is Some ==> agree(careful->0, r),
{
    reveal_strlit("srt");
    reveal_strlit(".srt");
    assert(".srt"@ =~= seq!['.'] + "srt"@);
    named_with(path, "srt"@, ".srt"@);
}

/// The messages of errors name what the errors are about.
pub proof fn errors_name_what_they_are_about(error: LanguageError, message: String)
    requires
        call_ensures(LanguageError::message, (&error,), message),
    ensures
        error matches LanguageError::UnsupportedExtension(extension) ==> message@
            == "Unsupported subtitle file extension: "@ + extension@ + "."@,
        error matches LanguageError::Unreadable(path) ==> message@
            == "Could not read SRT subtitle file from "@ + path@ + "."@,
{
}

} // verus!
