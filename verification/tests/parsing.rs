use ravioni::parsing::{
    extract_matroska_title_from_filename, has_four_digit_year, infer_title_without_year,
    is_season_episode_token, parse_movie, title_of_movie,
};

#[test]
fn simple_dotted_title_with_year_before_metadata() {
    let input = "Sample.Movie.2010.BluRay.1080p.Audio.Format.Codec.REMUX-Winter.mkv";
    let output = extract_matroska_title_from_filename(input);
    assert_eq!(output, "Sample Movie (2010)");
}

#[test]
fn dotted_title_with_year_and_short_metadata() {
    let input = "Another.Film.Title.1986.1080p.BDRip.AV1-Encoder.mkv";
    let output = extract_matroska_title_from_filename(input);
    assert_eq!(output, "Another Film Title (1986)");
}

#[test]
fn dotted_title_with_uhd_and_long_metadata() {
    let input =
        "Example.Feature.1993.UHD.BluRay.2160p.Audio.Track.DV.HEVC.HYBRID.REMUX-Release.mkv";
    let output = extract_matroska_title_from_filename(input);
    assert_eq!(output, "Example Feature (1993)");
}

#[test]
fn dotted_title_with_remastered_flag_before_metadata() {
    let input = "Long.Dotted.Movie.Name.1967.Remastered.1080p.BluRay.H264.AAC-Group[Tag].mkv";
    let output = extract_matroska_title_from_filename(input);
    assert_eq!(output, "Long Dotted Movie Name (1967) Remastered");
}

#[test]
fn spaced_title_with_year_in_parentheses_before_tech_info() {
    let input = "Generic Epic Title (2024) (2160p BluRay x265 10bit DV HDR Group).mkv";
    let output = extract_matroska_title_from_filename(input);
    assert_eq!(output, "Generic Epic Title (2024)");
}

#[test]
fn spaced_title_with_extra_words_and_year_late_in_string() {
    let input = "Franchise Part IV - The Return 1986 Eng Multi-Subs 1080p [Enc].mkv";
    let output = extract_matroska_title_from_filename(input);
    assert_eq!(output, "Franchise Part IV - The Return (1986)");
}

#[test]
fn spaced_title_directors_cut() {
    let input =
        "Placeholder Title (1995) Director's Cut 1080p BluRay AV1 Audio 5.1 [Group].mkv";
    let output = extract_matroska_title_from_filename(input);
    assert_eq!(output, "Placeholder Title (1995) Director's Cut");
}

#[test]
fn remastered_uppercase_normalized() {
    let input = "Classic.Movie.1977.REMASTERED.1080p.BluRay.DTS.mkv";
    let output = extract_matroska_title_from_filename(input);
    assert_eq!(output, "Classic Movie (1977) Remastered");
}

#[test]
fn unrated_directors_cut_normalized() {
    let input = "Gritty.Movie.2003.Unrated Director's Cut.1080p.BluRay.AC3.mkv";
    let output = extract_matroska_title_from_filename(input);
    assert_eq!(output, "Gritty Movie (2003) Unrated Director's Cut");
}

#[test]
fn edition_with_dots_and_dashes_around_it() {
    let input = "Action.Movie.2012.-.Special Edition.-.1080p.BluRay.mkv";
    let output = extract_matroska_title_from_filename(input);
    assert_eq!(output, "Action Movie (2012) Special Edition");
}

#[test]
fn no_year() {
    let input = "A.Pretty.Movie.BluRay.Extended.Edition.mkv";
    let output = extract_matroska_title_from_filename(input);
    // No 4-digit year -> just the movie title without year
    assert_eq!(output, "A Pretty Movie");
}

#[test]
fn episode_with_show_title_and_episode_title() {
    let input = "Some.Show.Name.S07E11.Summer.in.Paris.mkv";
    let output = extract_matroska_title_from_filename(input);
    assert_eq!(output, "Some Show Name - S07E11 - Summer in Paris");
}

#[test]
fn episode_with_show_title_but_no_episode_title() {
    let input = "Some.Show.Name.S02E03.mkv";
    let output = extract_matroska_title_from_filename(input);
    assert_eq!(output, "Some Show Name - S02E03");
}

#[test]
fn the_extension_plays_no_part_in_the_title() {
    assert_eq!(
        extract_matroska_title_from_filename("Some.Movie.1999.BluRay.mkv"),
        extract_matroska_title_from_filename("Some.Movie.1999.BluRay.mp4")
    );
    assert_eq!("Plain", extract_matroska_title_from_filename("Plain"));
}

#[test]
fn season_and_episode_tokens_have_two_digits_each() {
    assert!(is_season_episode_token("S07E11"));
    assert!(is_season_episode_token("s07e11"));
    assert!(!is_season_episode_token("S7E11"));
    assert!(!is_season_episode_token("S07X11"));
    assert!(!is_season_episode_token("S07E1x"));
}

#[test]
fn lower_case_episode_tokens_are_shown_in_upper_case() {
    assert_eq!(
        "Show - S01E02 - Pilot",
        extract_matroska_title_from_filename("Show.s01e02.Pilot.mkv")
    );
}

#[test]
fn an_episode_token_at_the_start_is_no_episode() {
    assert_eq!("S01E02 Show", extract_matroska_title_from_filename("S01E02.Show.mkv"));
}

#[test]
fn four_digits_in_a_row_are_year_like() {
    assert!(has_four_digit_year("ab1234"));
    assert!(!has_four_digit_year("123 4"));
    assert!(!has_four_digit_year("12"));
}

#[test]
fn resolutions_end_a_title_without_year() {
    assert_eq!("My Clip", infer_title_without_year("My.Clip.576p.foo"));
    assert_eq!("1080p Clip", infer_title_without_year("1080p.Clip"));
    assert_eq!("One", infer_title_without_year("_One-"));
}

#[test]
fn a_name_that_starts_with_its_year_stands_for_itself() {
    assert_eq!("2001.Something", extract_matroska_title_from_filename("2001.Something.mkv"));
    assert!(parse_movie("2001.Something").is_none());
}

#[test]
fn the_parts_of_a_movie_name_end_at_the_first_year() {
    let movie = parse_movie("  Blade.(1982).2049.Uncut").unwrap();
    assert_eq!("Blade.", movie.title);
    assert_eq!("1982", movie.year);
    assert!(movie.edition.is_none());
    assert_eq!("Blade (1982)", title_of_movie(&movie));
}

#[test]
fn all_editions_are_known() {
    assert_eq!("A (2000) Unrated", extract_matroska_title_from_filename("A.2000.Unrated.x.mkv"));
    assert_eq!("A (2000) Uncut", extract_matroska_title_from_filename("A.2000.Uncut.x.mkv"));
    assert_eq!(
        "A (2000) International Cut",
        extract_matroska_title_from_filename("A.2000_International Cut.x.mkv")
    );
}
