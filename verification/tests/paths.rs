use ravioni::paths::FilePath;

#[test]
fn a_path_is_taken_apart() {
    let path = FilePath::new("/movies/The Film.en.srt");
    assert_eq!(Some("/movies".to_string()), path.parent);
    assert_eq!(Some("The Film.en.srt".to_string()), path.file_name);
    assert_eq!(Some("srt".to_string()), path.extension());
    assert_eq!(Some("The Film.en".to_string()), path.file_stem());
}

#[test]
fn a_name_may_start_with_its_only_dot() {
    let path = FilePath::new("/movies/.hidden");
    assert_eq!(None, path.extension());
    assert_eq!(Some(".hidden".to_string()), path.file_stem());
}

#[test]
fn a_bare_name_has_an_empty_directory() {
    let path = FilePath::new("film.mkv");
    assert_eq!(Some("".to_string()), path.parent);
    assert_eq!(Some("film.mkv".to_string()), path.file_name);
}

#[test]
fn the_empty_path_has_no_parts() {
    let path = FilePath::new("");
    assert!(path.is_empty());
    assert_eq!(FilePath::empty(), path);
    assert_eq!(None, path.extension());
    assert_eq!(None, path.file_stem());
}

#[test]
fn a_name_is_put_into_a_directory() {
    let path = FilePath::in_directory("/movies", "film.mkv");
    assert_eq!(FilePath::new("/movies/film.mkv"), path);
}

#[test]
fn a_file_in_the_root_has_the_root_for_its_directory() {
    let path = FilePath::new("/movie.mkv");
    assert_eq!(Some("/".to_string()), path.parent);
    assert_eq!(Some("movie.mkv".to_string()), path.file_name);
    assert_eq!(path, FilePath::in_directory("/", "movie.mkv"));
}

#[test]
fn names_may_hold_colons() {
    let path = FilePath::in_directory("/out", "Mission: Impossible.mkv");
    assert_eq!("/out/Mission: Impossible.mkv", path.text);
    assert_eq!(Some("/out".to_string()), path.parent);
    assert_eq!(Some("Mission: Impossible.mkv".to_string()), path.file_name);
}

#[test]
fn no_separator_is_doubled() {
    assert_eq!("/out/a.mkv", FilePath::in_directory("/out/", "a.mkv").text);
    assert_eq!("a.mkv", FilePath::in_directory("", "a.mkv").text);
}

#[test]
fn directories_with_drives_are_taken_apart_at_a_slash() {
    let path = FilePath::new("C:/out/a.mkv");
    assert_eq!(Some("C:/out".to_string()), path.parent);
    assert_eq!(Some("a.mkv".to_string()), path.file_name);
    let path = FilePath::new("C:\\out/a.mkv");
    assert_eq!(Some("C:\\out".to_string()), path.parent);
    assert_eq!(Some("a.mkv".to_string()), path.file_name);
}
