use ravioni::paths::FilePath;
use ravioni::subtitles::{
    detect_language_from_string, detect_language_of_subtitle_file,
    detect_type_of_subtitle_file_type, extract_dialogue_from_srt_file,
    gather_subtitle_file_paths_in, known_language, try_detect_language_from_string,
    try_detect_language_of_subtitle_file, Directory, DirectoryEntry, Language,
    LanguageError, SubTitleType, UnreadableDirectory,
};

fn file(path: &str) -> DirectoryEntry {
    DirectoryEntry::File(FilePath::new(path))
}

fn lines(text: &str) -> Option<Vec<String>> {
    Some(text.lines().map(|l| l.to_string()).collect())
}

#[test]
fn no_subtitles_are_found_in_empty_directory() {
    let dir = Directory::Listed(vec![]);
    let results = gather_subtitle_file_paths_in(&dir, 5).unwrap();
    assert!(results.is_empty());
}

#[test]
fn single_subtitle_is_found_in_directory() {
    let dir = Directory::Listed(vec![file("/dir/example.srt")]);
    let results = gather_subtitle_file_paths_in(&dir, 5).unwrap();
    assert_eq!(results.len(), 1);
    assert_eq!(results[0], FilePath::new("/dir/example.srt"));
}

#[test]
fn multiple_subtitles_are_found_in_directory() {
    let dir = Directory::Listed(vec![
        file("/dir/de.srt"),
        file("/dir/en.srt"),
        file("/dir/subs.idx"),
    ]);
    let subtitle_file_paths = gather_subtitle_file_paths_in(&dir, 5).unwrap();
    assert_eq!(subtitle_file_paths.len(), 3);
    assert!(subtitle_file_paths.contains(&FilePath::new("/dir/de.srt")));
    assert!(subtitle_file_paths.contains(&FilePath::new("/dir/en.srt")));
    assert!(subtitle_file_paths.contains(&FilePath::new("/dir/subs.idx")));
}

#[test]
fn non_subtitle_file_is_ignored() {
    let dir = Directory::Listed(vec![file("/dir/example.txt")]);
    let results = gather_subtitle_file_paths_in(&dir, 5).unwrap();
    assert!(results.is_empty());
}

#[test]
fn subtitle_in_subdirectory_is_found() {
    let subdir = Directory::Listed(vec![file("/dir/subtitles/example.ass")]);
    let dir = Directory::Listed(vec![DirectoryEntry::Directory(subdir)]);
    let results = gather_subtitle_file_paths_in(&dir, 5).unwrap();
    assert_eq!(results.len(), 1);
    assert!(results.contains(&FilePath::new("/dir/subtitles/example.ass")));
}

#[test]
fn recursion_depth_is_respected() {
    let subdir = Directory::Listed(vec![file("/dir/subs/example.ssa")]);
    let dir = Directory::Listed(vec![DirectoryEntry::Directory(subdir)]);
    let results = gather_subtitle_file_paths_in(&dir, 1).unwrap();
    assert!(results.is_empty());
    assert_eq!(1, gather_subtitle_file_paths_in(&dir, 2).unwrap().len());
    assert!(gather_subtitle_file_paths_in(&dir, 0).unwrap().is_empty());
}

#[test]
fn files_are_found_in_the_order_of_the_listing() {
    let below = Directory::Listed(vec![file("/d/s/b.srt"), file("/d/s/x.txt")]);
    let dir = Directory::Listed(vec![
        file("/d/a.srt"),
        DirectoryEntry::Directory(below),
        file("/d/c.idx"),
        file("/d/d.SRT"),
    ]);
    let found = gather_subtitle_file_paths_in(&dir, 2).unwrap();
    let names: Vec<&str> = found.iter().map(|p| p.text.as_str()).collect();
    assert_eq!(vec!["/d/a.srt", "/d/s/b.srt", "/d/c.idx"], names);
}

#[test]
fn what_is_not_searched_need_not_be_readable() {
    let dir = Directory::Listed(vec![DirectoryEntry::Directory(Directory::Unreadable)]);
    assert!(gather_subtitle_file_paths_in(&dir, 1).unwrap().is_empty());
    assert_eq!(Err(UnreadableDirectory), gather_subtitle_file_paths_in(&dir, 2));
    assert_eq!(Err(UnreadableDirectory), gather_subtitle_file_paths_in(&Directory::Unreadable, 1));
    assert!(gather_subtitle_file_paths_in(&Directory::Unreadable, 0).unwrap().is_empty());
    let entry = Directory::Listed(vec![DirectoryEntry::Unreadable]);
    assert_eq!(Err(UnreadableDirectory), gather_subtitle_file_paths_in(&entry, 1));
}

#[test]
fn str_dialogue_extraction_works_from_valid_file() {
    let file_path = FilePath::new("/dir/example.srt");
    let text = lines("1\n00:00:01,000 --> 00:00:02,000\nHello World!\n");
    let dialogue = extract_dialogue_from_srt_file(&file_path, &text).unwrap();
    assert_eq!(dialogue, "Hello World!");
}

#[test]
fn str_dialogue_extraction_ignores_metadata() {
    let file_path = FilePath::new("/dir/example.srt");
    let text = lines("1\n00:00:01,000 --> 00:00:02,000\nHello World!\n\n2\n00:00:03,000 --> 00:00:04,000\nGoodbye!\n");
    let dialogue = extract_dialogue_from_srt_file(&file_path, &text).unwrap();
    assert_eq!(dialogue, "Hello World! Goodbye!");
}

#[test]
fn str_dialogue_extraction_ignores_numeric_lines() {
    let file_path = FilePath::new("/dir/example.srt");
    let text = lines("1\n00:00:01,000 --> 00:00:02,000\n12345\nHello World!\n");
    let dialogue = extract_dialogue_from_srt_file(&file_path, &text).unwrap();
    assert_eq!(dialogue, "Hello World!");
}

#[test]
fn unreadable_srt_file_gives_no_dialogue() {
    let error = extract_dialogue_from_srt_file(&FilePath::new("/a.srt"), &None).unwrap_err();
    assert_eq!("Could not read SRT subtitle file from /a.srt.", error.message());
}

#[test]
fn file_names_tell_for_whom_subtitles_are() {
    let kind = |name: &str| detect_type_of_subtitle_file_type(&FilePath::new(name));
    assert_eq!(SubTitleType::SDH, kind("/d/Movie.en.sdh.srt"));
    assert_eq!(SubTitleType::SDH, kind("/d/Movie.[CC].srt"));
    assert_eq!(SubTitleType::SDH, kind("/d/Movie Hearing-Impaired.srt"));
    assert_eq!(SubTitleType::SDH, kind("/d/Öß.SDH.srt"));
    assert_eq!(SubTitleType::Normal, kind("/d/Movie Hearing.srt"));
    assert_eq!(SubTitleType::Normal, kind("/d/accent.srt"));
    assert_eq!(SubTitleType::Normal, kind("/d/Movie.sdh"));
    assert_eq!(SubTitleType::Normal, kind(""));
}

#[test]
fn languages_are_known_by_their_codes() {
    assert_eq!("eng", Language::from_639_1("en").unwrap().to_639_3());
    assert_eq!("deu", Language::from_639_1("de").unwrap().to_639_3());
    assert_eq!("deu", Language::from_639_3("deu").unwrap().to_639_3());
    assert!(Language::from_639_3("xx1").is_none());
    assert!(Language::from_639_3("en").is_none());
    assert!(Language::from_639_1("eng").is_none());
}

#[test]
fn the_language_of_a_text_is_detected() {
    let english = "There is no reason not to learn a language that so many people speak.";
    assert_eq!("eng", detect_language_from_string(english).unwrap().to_639_3());
    let german = "Ich weiß nicht, was soll es bedeuten, dass ich so traurig bin.";
    assert_eq!("deu", detect_language_from_string(german).unwrap().to_639_3());
    let error = detect_language_from_string("123").unwrap_err();
    assert_eq!(LanguageError::NothingDetected, error);
    let tried = try_detect_language_from_string(english).unwrap();
    assert_eq!("eng", tried.unwrap().to_639_3());
    assert_eq!("Subtitle dialogue yielded no language info.", error.message());
}

#[test]
fn the_language_of_an_srt_file_is_detected() {
    let path = FilePath::new("/d/movie.srt");
    let text = lines("1\n00:00:01,000 --> 00:00:02,000\nIch weiß nicht, was soll es bedeuten,\ndass ich so traurig bin.");
    assert_eq!("deu", detect_language_of_subtitle_file(&path, &text).unwrap().to_639_3());
    let error = detect_language_of_subtitle_file(&path, &None).unwrap_err();
    assert_eq!(LanguageError::Unreadable("/d/movie.srt".to_string()), error);
    let tried = try_detect_language_of_subtitle_file(&path, &text).unwrap();
    assert_eq!("deu", tried.unwrap().to_639_3());
    assert!(try_detect_language_of_subtitle_file(&path, &None).unwrap().is_err());
}

#[test]
fn the_language_of_other_files_is_not_detected() {
    let error = detect_language_of_subtitle_file(&FilePath::new("/d/a.ass"), &None).unwrap_err();
    assert_eq!(LanguageError::UnsupportedExtension("ass".to_string()), error);
    assert_eq!("Unsupported subtitle file extension: ass.", error.message());
    let error = detect_language_of_subtitle_file(&FilePath::new("/d/a"), &None).unwrap_err();
    assert_eq!(LanguageError::NoExtension, error);
    assert_eq!("No (recognizable) subtitle file extension.", error.message());
}

#[test]
fn a_code_without_a_language_is_an_error() {
    let error = known_language(None).unwrap_err();
    assert_eq!(LanguageError::InvalidCode, error);
    assert_eq!(
        "Whatlang returned an invalid ISO 639-3 language code. This is likely a bug. Please report it in the Ravioni repo.",
        error.message()
    );
    let language = Language::from_639_3("fra").unwrap();
    assert_eq!(Ok(language.clone()), known_language(Some(language)));
}
