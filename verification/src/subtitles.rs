//! Subtitle files: where they are, what language they are in and for whom they are.

use vstd::prelude::*;

use crate::paths::FilePath;
use crate::strings;

verus! {

/// Whether `code` is the ISO 639-3 code of three letters of a language.
pub uninterp spec fn iso_639_3_known(code: Seq<char>) -> bool;

/// The ISO 639-3 code of the language with the given ISO 639-1 code of two letters.
pub uninterp spec fn iso_639_1_language(code: Seq<char>) -> Option<Seq<char>>;

/// The ISO 639-3 code of the language that a text seems to be in.
pub uninterp spec fn detected_code(text: Seq<char>) -> Option<Seq<char>>;

/// Whether the characters of a text in lower case can be counted in 32 bits, as they are to detect
/// its language.
pub open spec fn is_countable(text: Seq<char>) -> bool {
    strings::lowered(text).len() <= u32::MAX
}

/// A language, by its ISO 639-3 code.
#[derive(Debug, PartialEq)]
pub struct Language {
    code: String,
}

impl View for Language {
    type V = Seq<char>;

    closed spec fn view(&self) -> Seq<char> {
        self.code@
    }
}

impl Clone for Language {
    fn clone(&self) -> (r: Self)
        ensures
            r == *self,
    {
        Language { code: self.code.clone() }
    }
}

/// `isolang::Language::from_639_3`: looks the code up in a table, and gives the language back by
/// its code. The language found has the code that was looked up, and all codes of the table are
/// made of three small letters. Which codes the table holds is left unsaid.
#[verifier::external_body]
fn look_up_639_3(code: &str) -> (r: Option<String>)
    ensures
        r is Some == iso_639_3_known(code@),
        r matches Some(c) ==> c@ == code@ && c@.len() == 3 && forall|i: int|
            0 <= i < 3 ==> 'a' <= #[trigger] c@[i] <= 'z',
{
    isolang::Language::from_639_3(code).map(|l| l.to_639_3().to_string())
}

/// `isolang::Language::from_639_1`: looks the code of two letters up in a table, and gives the
/// language back by its code of three letters. Which codes the table holds is left unsaid.
#[verifier::external_body]
fn look_up_639_1(code: &str) -> (r: Option<String>)
    ensures
        r is Some == iso_639_1_language(code@) is Some,
        r matches Some(c) ==> iso_639_1_language(code@) == Some(c@) && c@.len() == 3
            && code@.len() == 2,
{
    isolang::Language::from_639_1(code).map(|l| l.to_639_3().to_string())
}

/// `whatlang::detect`: guesses the language of the text, and gives it back by its ISO 639-3
/// code, if the text holds anything to guess by. Which language it is for which text is left
/// unsaid. The guess counts what occurs in the lower case of the text in 32 bits.
#[verifier::external_body]
fn guess_language(text: &str) -> (r: Option<String>)
    requires
        is_countable(text@),
    ensures
        r is Some == detected_code(text@) is Some,
        r matches Some(c) ==> detected_code(text@) == Some(c@),
{
    whatlang::detect(text).map(|info| info.lang().code().to_string())
}

impl Language {
    /// The language with the given ISO 639-3 code.
    pub fn from_639_3(code: &str) -> (r: Option<Language>)
        ensures
            r is Some == iso_639_3_known(code@),
            r matches Some(l) ==> l@ == code@ && l@.len() == 3,
    {
        match look_up_639_3(code) {
            Some(code) => Some(Language { code }),
            None => None,
        }
    }

    /// The language with the given ISO 639-1 code.
    pub fn from_639_1(code: &str) -> (r: Option<Language>)
        ensures
            r is Some == iso_639_1_language(code@) is Some,
            r matches Some(l) ==> iso_639_1_language(code@) == Some(l@) && l@.len() == 3,
    {
        match look_up_639_1(code) {
            Some(code) => Some(Language { code }),
            None => None,
        }
    }

    /// The ISO 639-3 code of this language.
    pub fn to_639_3(&self) -> (r: &str)
        ensures
            r@ == self@,
    {
        self.code.as_str()
    }
}

/// For whom subtitles are.
#[derive(Debug, Clone, Copy, PartialEq, Eq, Structural)]
pub enum SubTitleType {
    Normal,
    /// For the deaf and hard of hearing.
    SDH,
}

/// A file with subtitles. Its language is only known where ffmpeg does not find it out itself.
#[derive(Debug, PartialEq)]
pub struct SubtitleFile {
    pub path: FilePath,
    pub language: Option<Language>,
    pub kind: SubTitleType,
}

/// Copies a language that may be missing.
fn clone_language(language: &Option<Language>) -> (r: Option<Language>)
    ensures
        r == *language,
{
    match language {
        Some(l) => Some(l.clone()),
        None => None,
    }
}

impl Clone for SubtitleFile {
    fn clone(&self) -> (r: Self)
        ensures
            r == *self,
    {
        SubtitleFile {
            path: self.path.clone(),
            language: clone_language(&self.language),
            kind: self.kind,
        }
    }
}

// ---------------------------------------------------------------------------------------------
// Finding subtitle files
// ---------------------------------------------------------------------------------------------

/// What a directory holds, as far as it could be read.
#[derive(Debug, PartialEq)]
pub enum Directory {
    Listed(Vec<DirectoryEntry>),
    Unreadable,
}

/// What stands in a directory.
#[derive(Debug, PartialEq)]
pub enum DirectoryEntry {
    File(FilePath),
    Directory(Directory),
    Unreadable,
}

/// A directory, or something in it, could not be read.
#[derive(Debug, PartialEq)]
pub struct UnreadableDirectory;

/// Whether `path` has the file extension of a subtitle file.
pub open spec fn has_subtitle_extension(path: FilePath) -> bool {
    match path.spec_extension() {
        Some(e) => e == "srt"@ || e == "ass"@ || e == "ssa"@ || e == "idx"@,
        None => false,
    }
}

/// Whether `directory` can be read, down to `depth` levels. Nothing is read at depth 0.
pub open spec fn directory_readable(directory: Directory, depth: nat) -> bool
    decreases depth,
{
    depth == 0 || match directory {
        Directory::Unreadable => false,
        Directory::Listed(entries) => forall|i: int|
            0 <= i < entries@.len() ==> match #[trigger] entries@[i] {
                DirectoryEntry::File(_) => true,
                DirectoryEntry::Unreadable => false,
                DirectoryEntry::Directory(d) => directory_readable(d, (depth - 1) as nat),
            },
    }
}

/// The subtitle files among `entries` and, down to `depth` levels, below them, in the order in
/// which they are listed.
pub open spec fn subtitle_paths(entries: Seq<DirectoryEntry>, depth: nat) -> Seq<FilePath>
    decreases depth, entries.len(),
{
    if depth == 0 || entries.len() == 0 {
        Seq::empty()
    } else {
        subtitle_paths(entries.drop_last(), depth) + match entries.last() {
            DirectoryEntry::File(path) => if has_subtitle_extension(path) {
                seq![path]
            } else {
                Seq::empty()
            },
            DirectoryEntry::Directory(Directory::Listed(below)) => subtitle_paths(
                below@,
                (depth - 1) as nat,
            ),
            _ => Seq::empty(),
        }
    }
}

/// The entries of a directory.
pub open spec fn entries_of(directory: Directory) -> Seq<DirectoryEntry> {
    match directory {
        Directory::Listed(entries) => entries@,
        Directory::Unreadable => Seq::empty(),
    }
}

/// Whether the file at `path` stands among `entries` or, down to `depth` levels, below them.
pub open spec fn stands_within(
    entries: Seq<DirectoryEntry>,
    depth: nat,
    path: FilePath,
) -> bool
    decreases depth,
{
    depth > 0 && exists|i: int|
        0 <= i < entries.len() && match #[trigger] entries[i] {
            DirectoryEntry::File(p) => p == path,
            DirectoryEntry::Directory(d) => stands_within(
                entries_of(d),
                (depth - 1) as nat,
                path,
            ),
            DirectoryEntry::Unreadable => false,
        }
}

/// Gathering finds the files with the extension of a subtitle file, all of those that stand
/// within the given depth, and no others.
pub proof fn gathering_finds_the_subtitles_within_the_depth(
    entries: Seq<DirectoryEntry>,
    depth: nat,
    path: FilePath,
)
    ensures
        subtitle_paths(entries, depth).contains(path) <==> has_subtitle_extension(path)
            && stands_within(entries, depth, path),
    decreases depth, entries.len(),
{
    if depth > 0 && entries.len() > 0 {
        let before = entries.drop_last();
        let found = subtitle_paths(before, depth);
        let last = entries.last();
        let below = (depth - 1) as nat;
        let added = match last {
            DirectoryEntry::File(p) => if has_subtitle_extension(p) {
                seq![p]
            } else {
                Seq::empty()
            },
            DirectoryEntry::Directory(Directory::Listed(listed)) => subtitle_paths(listed@, below),
            _ => Seq::empty(),
        };
        gathering_finds_the_subtitles_within_the_depth(before, depth, path);
        let all = found + added;
        assert(subtitle_paths(entries, depth) == all);
        assert(all.contains(path) <==> found.contains(path) || added.contains(path)) by {
            if found.contains(path) {
                let i = choose|i: int| 0 <= i < found.len() && found[i] == path;
                assert(all[i] == path);
            }
            if added.contains(path) {
                let i = choose|i: int| 0 <= i < added.len() && added[i] == path;
                assert(all[found.len() + i] == path);
            }
        }
        let here = match last {
            DirectoryEntry::File(p) => p == path,
            DirectoryEntry::Directory(d) => stands_within(entries_of(d), below, path),
            DirectoryEntry::Unreadable => false,
        };
        assert(added.contains(path) <==> has_subtitle_extension(path) && here) by {
            match last {
                DirectoryEntry::File(p) => {
                    if has_subtitle_extension(p) {
                        assert(added[0] == p);
                    }
                },
                DirectoryEntry::Directory(d) => {
                    gathering_finds_the_subtitles_within_the_depth(entries_of(d), below, path);
                },
                DirectoryEntry::Unreadable => {},
            }
        }
        assert(stands_within(entries, depth, path) <==> stands_within(before, depth, path)
            || here) by {
            if stands_within(before, depth, path) {
                let i = choose|i: int|
                    0 <= i < before.len() && match #[trigger] before[i] {
                        DirectoryEntry::File(p) => p == path,
                        DirectoryEntry::Directory(d) => stands_within(entries_of(d), below, path),
                        DirectoryEntry::Unreadable => false,
                    };
                assert(entries[i] == before[i]);
            }
            if here {
                assert(entries[entries.len() - 1] == last);
            }
            if stands_within(entries, depth, path) && !here {
                let i = choose|i: int|
                    0 <= i < entries.len() && match #[trigger] entries[i] {
                        DirectoryEntry::File(p) => p == path,
                        DirectoryEntry::Directory(d) => stands_within(entries_of(d), below, path),
                        DirectoryEntry::Unreadable => false,
                    };
                assert(before[i] == entries[i]);
            }
        }
    }
}

/// Descending further loses nothing.
pub proof fn a_deeper_search_finds_no_less(
    entries: Seq<DirectoryEntry>,
    depth: nat,
    deeper: nat,
    path: FilePath,
)
    requires
        depth <= deeper,
        subtitle_paths(entries, depth).contains(path),
    ensures
        subtitle_paths(entries, deeper).contains(path),
{
    gathering_finds_the_subtitles_within_the_depth(entries, depth, path);
    gathering_finds_the_subtitles_within_the_depth(entries, deeper, path);
    stands_within_more(entries, depth, deeper, path);
}

proof fn stands_within_more(
    entries: Seq<DirectoryEntry>,
    depth: nat,
    deeper: nat,
    path: FilePath,
)
    requires
        depth <= deeper,
        stands_within(entries, depth, path),
    ensures
        stands_within(entries, deeper, path),
    decreases depth,
{
    let i = choose|i: int|
        0 <= i < entries.len() && match #[trigger] entries[i] {
            DirectoryEntry::File(p) => p == path,
            DirectoryEntry::Directory(d) => stands_within(entries_of(d), (depth - 1) as nat, path),
            DirectoryEntry::Unreadable => false,
        };
    if let DirectoryEntry::Directory(d) = entries[i] {
        stands_within_more(entries_of(d), (depth - 1) as nat, (deeper - 1) as nat, path);
    }
}

/// Whether `path` has the file extension of a subtitle file.
pub fn is_subtitle_file(path: &FilePath) -> (b: bool)
    ensures
        b == has_subtitle_extension(*path),
{
    match path.extension() {
        Some(extension) => {
            let e = extension.as_str();
            strings::same_text(e, "srt") || strings::same_text(e, "ass") || strings::same_text(
                e,
                "ssa",
            ) || strings::same_text(e, "idx")
        },
        None => false,
    }
}

/// Gathers the paths of subtitle files in the given directory.
///
/// Values of the depth:
/// * 0: no paths are gathered
/// * 1: only the given directory is searched
/// * 2: the given directory and those in it are searched
/// * n: the search descends n-1 times
pub fn gather_subtitle_file_paths_in(directory: &Directory, recursion_depth: u32) -> (r: Result<
    Vec<FilePath>,
    UnreadableDirectory,
>)
    ensures
        r is Ok <==> directory_readable(*directory, recursion_depth as nat),
        r matches Ok(paths) ==> paths@ == subtitle_paths(
            entries_of(*directory),
            recursion_depth as nat,
        ),
    decreases recursion_depth,
{
    let mut subtitles: Vec<FilePath> = Vec::new();
    if recursion_depth == 0 {
        return Ok(subtitles);
    }
    match directory {
        Directory::Unreadable => Err(UnreadableDirectory),
        Directory::Listed(entries) => {
            let mut i: usize = 0;
            while i < entries.len()
                invariant
                    recursion_depth > 0,
                    i <= entries.len(),
                    *directory == Directory::Listed(*entries),
                    forall|j: int|
                        0 <= j < i ==> match #[trigger] entries@[j] {
                            DirectoryEntry::File(_) => true,
                            DirectoryEntry::Unreadable => false,
                            DirectoryEntry::Directory(d) => directory_readable(
                                d,
                                (recursion_depth - 1) as nat,
                            ),
                        },
                    subtitles@ == subtitle_paths(entries@.take(i as int), recursion_depth as nat),
                decreases entries.len() - i,
            {
                assert(entries@.take(i + 1).drop_last() =~= entries@.take(i as int));
                match &entries[i] {
                    DirectoryEntry::File(path) => {
                        if is_subtitle_file(path) {
                            subtitles.push(path.clone());
                        }
                    },
                    DirectoryEntry::Directory(below) => {
                        let found = gather_subtitle_file_paths_in(below, recursion_depth - 1);
                        match found {
                            Ok(mut paths) => subtitles.append(&mut paths),
                            Err(e) => return Err(e),
                        }
                    },
                    DirectoryEntry::Unreadable => return Err(UnreadableDirectory),
                }
                i += 1;
            }
            assert(entries@.take(i as int) =~= entries@);
            Ok(subtitles)
        },
    }
}

// ---------------------------------------------------------------------------------------------
// For whom subtitles are
// ---------------------------------------------------------------------------------------------

/// Whether one of `words` is `word` in some letter case.
pub open spec fn has_word(words: Seq<Seq<char>>, word: Seq<char>) -> bool {
    exists|i: int| 0 <= i < words.len() && strings::lowered(#[trigger] words[i]) == word
}

/// Whether the words of a file name say that the subtitles are for the deaf and hard of hearing.
pub open spec fn words_say_sdh(words: Seq<Seq<char>>) -> bool {
    ||| has_word(words, "sdh"@)
    ||| has_word(words, "cc"@)
    ||| has_word(words, "hearing"@) && has_word(words, "impaired"@)
}

/// For whom the subtitles in the file at `path` are.
pub open spec fn type_of_subtitle_file(path: FilePath) -> SubTitleType {
    match path.spec_file_stem() {
        Some(stem) if words_say_sdh(strings::letter_runs(stem)) => SubTitleType::SDH,
        _ => SubTitleType::Normal,
    }
}

/// Whether one of `words` is `word` in some letter case.
fn contains_word(words: &Vec<&str>, word: &str) -> (b: bool)
    ensures
        b == has_word(strings::slices(words@), word@),
{
    let ghost runs = strings::slices(words@);
    let mut i: usize = 0;
    while i < words.len()
        invariant
            i <= words.len(),
            runs == strings::slices(words@),
            forall|j: int| 0 <= j < i ==> strings::lowered(#[trigger] runs[j]) != word@,
        decreases words.len() - i,
    {
        let lower = words[i].to_lowercase();
        assert(lower@ == strings::lowered(runs[i as int]));
        if strings::same_text(lower.as_str(), word) {
            return true;
        }
        i += 1;
    }
    false
}

/// Detects whether subtitles are for the deaf and hard of hearing, by the name of their file.
pub fn detect_type_of_subtitle_file_type(path: &FilePath) -> (r: SubTitleType)
    ensures
        r == type_of_subtitle_file(*path),
{
    if let Some(stem) = path.file_stem() {
        let words = strings::split_by_non_letters(stem.as_str());
        if contains_word(&words, "sdh") || contains_word(&words, "cc") || (contains_word(
            &words,
            "hearing",
        ) && contains_word(&words, "impaired")) {
            return SubTitleType::SDH;
        }
    }
    SubTitleType::Normal
}

// ---------------------------------------------------------------------------------------------
// The language of subtitles
// ---------------------------------------------------------------------------------------------

/// Why the language of a subtitle file is unknown.
#[derive(Debug, PartialEq)]
pub enum LanguageError {
    UnsupportedExtension(String),
    NoExtension,
    Unreadable(String),
    NothingDetected,
    InvalidCode,
}

impl LanguageError {
    /// The message that describes this error.
    pub open spec fn spec_message(self) -> Seq<char> {
        match self {
            LanguageError::UnsupportedExtension(e) => {
                "Unsupported subtitle file extension: "@ + e@ + "."@
            },
            LanguageError::NoExtension => "No (recognizable) subtitle file extension."@,
            LanguageError::Unreadable(path) => {
                "Could not read SRT subtitle file from "@ + path@ + "."@
            },
            LanguageError::NothingDetected => "Subtitle dialogue yielded no language info."@,
            LanguageError::InvalidCode => "Whatlang returned an invalid ISO 639-3 language code. This is likely a bug. Please report it in the Ravioni repo."@,
        }
    }

    /// The message that describes this error.
    pub fn message(&self) -> (r: String)
        ensures
            r@ == self.spec_message(),
    {
        match self {
            LanguageError::UnsupportedExtension(extension) => {
                let mut r = "Unsupported subtitle file extension: ".to_string();
                r.append(extension.as_str());
                r.append(".");
                r
            },
            LanguageError::NoExtension => "No (recognizable) subtitle file extension.".to_string(),
            LanguageError::Unreadable(path) => {
                let mut r = "Could not read SRT subtitle file from ".to_string();
                r.append(path.as_str());
                r.append(".");
                r
            },
            LanguageError::NothingDetected => {
                "Subtitle dialogue yielded no language info.".to_string()
            },
            LanguageError::InvalidCode => "Whatlang returned an invalid ISO 639-3 language code. This is likely a bug. Please report it in the Ravioni repo.".to_string(),
        }
    }
}

/// Whether a line of an SRT file is spoken: it is neither blank nor a number, and it holds no
/// time span.
pub open spec fn is_spoken(line: Seq<char>) -> bool {
    &&& exists|i: int| 0 <= i < line.len() && !strings::is_space(#[trigger] line[i])
    &&& exists|i: int| 0 <= i < line.len() && !strings::is_number(#[trigger] line[i])
    &&& !strings::occurs_in(line, "-->"@)
}

/// The spoken ones of `lines`, each with a space behind it.
pub open spec fn spoken_text(lines: Seq<Seq<char>>) -> Seq<char>
    decreases lines.len(),
{
    if lines.len() == 0 {
        Seq::empty()
    } else if is_spoken(lines.last()) {
        spoken_text(lines.drop_last()) + lines.last() + seq![' ']
    } else {
        spoken_text(lines.drop_last())
    }
}

/// What is spoken in the lines of an SRT file.
pub open spec fn dialogue(lines: Seq<Seq<char>>) -> Seq<char> {
    strings::trim_end(spoken_text(lines), |c: char| strings::is_space(c))
}

pub(crate) proof fn spoken_text_of_parts(a: Seq<Seq<char>>, b: Seq<Seq<char>>)
    ensures
        spoken_text(a + b) == spoken_text(a) + spoken_text(b),
    decreases b.len(),
{
    if b.len() == 0 {
        assert(a + b =~= a);
        assert(spoken_text(a) + spoken_text(b) =~= spoken_text(a));
    } else {
        spoken_text_of_parts(a, b.drop_last());
        assert((a + b).drop_last() =~= a + b.drop_last());
        assert(spoken_text(a + b) =~= spoken_text(a) + spoken_text(b));
    }
}

/// Lines that are not spoken leave no trace in the dialogue.
pub proof fn the_dialogue_is_free_of_metadata(
    before: Seq<Seq<char>>,
    line: Seq<char>,
    after: Seq<Seq<char>>,
)
    requires
        !is_spoken(line),
    ensures
        dialogue(before + seq![line] + after) == dialogue(before + after),
{
    spoken_text_of_parts(before + seq![line], after);
    spoken_text_of_parts(before, after);
    assert((before + seq![line]).drop_last() =~= before);
}

/// Whether `line` is spoken.
fn line_is_spoken(line: &str) -> (b: bool)
    ensures
        b == is_spoken(line@),
{
    let chars = strings::chars_of(line);
    let mut blank = true;
    let mut numeric = true;
    let mut i: usize = 0;
    while i < chars.len()
        invariant
            chars@ == line@,
            i <= chars.len(),
            blank == !exists|j: int| 0 <= j < i && !strings::is_space(#[trigger] line@[j]),
            numeric == !exists|j: int| 0 <= j < i && !strings::is_number(#[trigger] line@[j]),
        decreases chars.len() - i,
    {
        if !chars[i].is_whitespace() {
            blank = false;
            assert(!strings::is_space(line@[i as int]));
        }
        if !chars[i].is_numeric() {
            numeric = false;
            assert(!strings::is_number(line@[i as int]));
        }
        i += 1;
    }
    !blank && !numeric && !strings::contains_text(line, "-->")
}

/// Extracts what is spoken from the lines of an SRT file, without any metadata.
pub fn extract_dialogue(lines: &Vec<String>) -> (r: String)
    ensures
        r@ == dialogue(strings::texts(lines@)),
{
    let ghost all = strings::texts(lines@);
    let mut text = String::new();
    let mut i: usize = 0;
    while i < lines.len()
        invariant
            i <= lines.len(),
            all == strings::texts(lines@),
            text@ == spoken_text(all.take(i as int)),
        decreases lines.len() - i,
    {
        assert(all.take(i + 1).drop_last() =~= all.take(i as int));
        if line_is_spoken(lines[i].as_str()) {
            text.append(lines[i].as_str());
            text.push(' ');
            assert(text@ =~= spoken_text(all.take(i + 1)));
        }
        i += 1;
    }
    assert(all.take(i as int) =~= all);
    strings::trim_end_of(text.as_str())
}

/// What is spoken in the SRT file at `path`, whose lines are given if it can be read.
pub fn extract_dialogue_from_srt_file(path: &FilePath, lines: &Option<Vec<String>>) -> (r: Result<
    String,
    LanguageError,
>)
    ensures
        match *lines {
            Some(l) => r is Ok && r->Ok_0@ == dialogue(strings::texts(l@)),
            None => r is Err && r->Err_0 is Unreadable && r->Err_0->Unreadable_0@ == path.text@,
        },
{
    match lines {
        Some(lines) => Ok(extract_dialogue(lines)),
        None => Err(LanguageError::Unreadable(path.text.clone())),
    }
}

/// The language that was found for a detected code.
pub fn known_language(found: Option<Language>) -> (r: Result<Language, LanguageError>)
    ensures
        match found {
            Some(l) => r == Ok::<Language, LanguageError>(l),
            None => r == Err::<Language, LanguageError>(LanguageError::InvalidCode),
        },
{
    match found {
        Some(language) => Ok(language),
        None => Err(LanguageError::InvalidCode),
    }
}

/// Whether `r` is what comes of detecting `code` as the language of a text.
pub open spec fn is_detection(
    r: Result<Language, LanguageError>,
    code: Option<Seq<char>>,
) -> bool {
    match code {
        None => r == Err::<Language, LanguageError>(LanguageError::NothingDetected),
        Some(c) => if iso_639_3_known(c) {
            r is Ok && r->Ok_0@ == c
        } else {
            r == Err::<Language, LanguageError>(LanguageError::InvalidCode)
        },
    }
}

/// Detects the language of a text.
pub fn detect_language_from_string(text: &str) -> (r: Result<Language, LanguageError>)
    requires
        is_countable(text@),
    ensures
        is_detection(r, detected_code(text@)),
{
    match guess_language(text) {
        Some(code) => known_language(Language::from_639_3(code.as_str())),
        None => Err(LanguageError::NothingDetected),
    }
}

/// Whether the file at `path` is one whose dialogue is read to detect its language.
pub open spec fn is_srt(path: FilePath) -> bool {
    path.spec_extension() == Some("srt"@)
}

/// Whether `r` is what comes of detecting the language of the subtitle file at `path` with the
/// given lines.
pub open spec fn is_file_detection(
    r: Result<Language, LanguageError>,
    path: FilePath,
    lines: Option<Vec<String>>,
) -> bool {
    match path.spec_extension() {
        None => r == Err::<Language, LanguageError>(LanguageError::NoExtension),
        Some(e) => if e == "srt"@ {
            match lines {
                Some(l) => is_detection(r, detected_code(dialogue(strings::texts(l@)))),
                None => r is Err && r->Err_0 is Unreadable && r->Err_0->Unreadable_0@
                    == path.text@,
            }
        } else {
            r is Err && r->Err_0 is UnsupportedExtension && r->Err_0->UnsupportedExtension_0@
                == e
        },
    }
}

/// Whether the language of a file with these lines can be detected: what is spoken in it is not
/// too long.
pub open spec fn is_detectable(path: FilePath, lines: Option<Vec<String>>) -> bool {
    is_srt(path) && lines is Some ==> is_countable(dialogue(strings::texts(lines->0@)))
}

/// Detects the language of a subtitle file by what is spoken in it. The lines of the file are
/// given if it can be read.
pub fn detect_language_of_subtitle_file(path: &FilePath, lines: &Option<Vec<String>>) -> (r: Result<
    Language,
    LanguageError,
>)
    requires
        is_detectable(*path, *lines),
    ensures
        is_file_detection(r, *path, *lines),
{
    match path.extension() {
        None => Err(LanguageError::NoExtension),
        Some(extension) => {
            if strings::same_text(extension.as_str(), "srt") {
                match extract_dialogue_from_srt_file(path, lines) {
                    Ok(text) => detect_language_from_string(text.as_str()),
                    Err(e) => Err(e),
                }
            } else {
                Err(LanguageError::UnsupportedExtension(extension))
            }
        },
    }
}

/// Detects the language of a text, unless the text is too long for that.
pub fn try_detect_language_from_string(text: &str) -> (r: Option<Result<Language, LanguageError>>)
    ensures
        r is Some <==> is_countable(text@),
        r matches Some(detection) ==> is_detection(detection, detected_code(text@)),
{
    let lower = text.to_lowercase();
    let count: usize = strings::chars_of(lower.as_str()).len();
    if count as u64 <= u32::MAX as u64 {
        Some(detect_language_from_string(text))
    } else {
        None
    }
}

/// Detects the language of a subtitle file by what is spoken in it, unless that is too long. The
/// lines of the file are given if it can be read.
pub fn try_detect_language_of_subtitle_file(path: &FilePath, lines: &Option<Vec<String>>) -> (r:
    Option<Result<Language, LanguageError>>)
    ensures
        r is Some <==> is_detectable(*path, *lines),
        r matches Some(detection) ==> is_file_detection(detection, *path, *lines),
{
    match (path.extension(), lines) {
        (Some(extension), Some(spoken)) => {
            if strings::same_text(extension.as_str(), "srt") {
                let text = extract_dialogue(spoken);
                try_detect_language_from_string(text.as_str())
            } else {
                Some(detect_language_of_subtitle_file(path, lines))
            }
        },
        _ => Some(detect_language_of_subtitle_file(path, lines)),
    }
}

} // verus!
