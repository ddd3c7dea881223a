use ravioni::paths::FilePath;
use ravioni::settings::{
    ApplicationSettings, AudioChannelLayout, AudioSettings, Av1Crf, Av1Preset, EncodingSettings,
    MatroskaSettings, OpusBitrate, PathError, PathSettings, RunSettings, Settings, VideoSettings,
};
use ravioni::time::Duration;

#[test]
fn opus_bitrate_can_only_be_created_within_bounds() {
    assert!(OpusBitrate::new(6).is_ok());
    assert!(OpusBitrate::new(510).is_ok());
    assert!(OpusBitrate::new(5).is_err());
    assert!(OpusBitrate::new(511).is_err());
}

#[test]
fn av1_crf_can_only_be_created_within_bounds() {
    assert!(Av1Crf::new(0).is_ok());
    assert!(Av1Crf::new(63).is_ok());
    assert!(Av1Crf::new(64).is_err());
    assert!(Av1Crf::new(u32::MAX).is_err());
}

#[test]
fn av1_preset_can_only_be_created_within_bounds() {
    assert!(Av1Preset::new(0).is_ok());
    assert!(Av1Preset::new(8).is_ok());
    assert!(Av1Preset::new(9).is_err());
    assert!(Av1Preset::new(100).is_err());
}

#[test]
fn downmixed_surround_5_1_audio_uses_stereo_bitrate() {
    let audio_settings = AudioSettings {
        bitrate_2_0: OpusBitrate::new(96).unwrap(),
        bitrate_5_1: OpusBitrate::new(200).unwrap(),
        bitrate_7_1: OpusBitrate::new(300).unwrap(),
        downmix_5_1_to_stereo: true,
        downmix_7_1_to_stereo: false,
        volume_adjustment: 100,
        re_encode_good_audio_codecs: false,
        copy: false,
    };
    assert_eq!(
        audio_settings
            .bitrate_for_layout(&AudioChannelLayout::Surround51)
            .value(),
        96
    );
}

#[test]
fn downmixed_surround_7_1_audio_uses_stereo_bitrate() {
    let audio_settings = AudioSettings {
        bitrate_2_0: OpusBitrate::new(96).unwrap(),
        bitrate_5_1: OpusBitrate::new(200).unwrap(),
        bitrate_7_1: OpusBitrate::new(300).unwrap(),
        downmix_5_1_to_stereo: false,
        downmix_7_1_to_stereo: true,
        volume_adjustment: 100,
        re_encode_good_audio_codecs: false,
        copy: false,
    };
    assert_eq!(
        audio_settings
            .bitrate_for_layout(&AudioChannelLayout::Surround71)
            .value(),
        96
    );
}

#[test]
fn mono_audio_channel_bitrate_is_half_of_stereo_bitrate() {
    let audio_settings = AudioSettings {
        bitrate_2_0: OpusBitrate::new(256).unwrap(),
        bitrate_5_1: OpusBitrate::new(400).unwrap(),
        bitrate_7_1: OpusBitrate::new(500).unwrap(),
        downmix_5_1_to_stereo: false,
        downmix_7_1_to_stereo: false,
        volume_adjustment: 100,
        re_encode_good_audio_codecs: false,
        copy: false,
    };

    let mono_bitrate = audio_settings
        .bitrate_for_layout(&AudioChannelLayout::Mono)
        .value();

    assert_eq!(mono_bitrate, 128);
}

#[test]
fn video_settings_with_valid_values_are_allowed() {
    let _ = VideoSettings {
        crf: Av1Crf::new(22).unwrap(),
        preset: Av1Preset::new(6).unwrap(),
        crop: true,
        crop_width: Some(3840),
        crop_height: Some(2160),
        crop_x_offset: None,
        crop_y_offset: None,
        scale: true,
        scale_width: Some(1920),
        scale_height: Some(1080),
        grain: 5,
        denoise: true,
    };
}

fn paths(input_file: &str, output_file: &str) -> PathSettings {
    PathSettings {
        input_file: FilePath::new(input_file),
        scan_for_subtitles: true,
        output_file: FilePath::new(output_file),
        sync_output_filename: true,
    }
}

#[test]
fn path_settings_fail_when_input_file_does_not_exist() {
    let path_settings = PathSettings {
        input_file: FilePath::new("nonexistent.mkv"),
        scan_for_subtitles: false,
        output_file: FilePath::new("output.mkv"),
        sync_output_filename: true,
    };
    let result = path_settings.assert_that_is_ready_for_encoding(false, true);
    assert!(result.is_err());
    assert_eq!(
        "Input file does not exist or is not readable.",
        result.unwrap_err().message()
    );
}

#[test]
fn path_settings_fail_when_output_directory_does_not_exist() {
    let path_settings = paths("/tmp/input.mkv", "nonexistent_directory/output.mkv");
    let result = path_settings.assert_that_is_ready_for_encoding(true, false);
    assert!(result.is_err());
    assert_eq!("Output directory can not be written into.", result.unwrap_err().message());
}

#[test]
fn path_settings_fail_when_output_directory_is_not_writable() {
    let path_settings = paths("/tmp/input.mkv", "/root/output.mkv");
    let result = path_settings.assert_that_is_ready_for_encoding(true, false);
    assert!(result.is_err());
}

#[test]
fn path_settings_are_valid_when_input_and_output_are_valid() {
    let path_settings = paths("/tmp/input.mkv", "/tmp/output.mkv");
    let result = path_settings.assert_that_is_ready_for_encoding(true, true);
    assert!(result.is_ok());
}

#[test]
fn an_output_path_that_ends_in_a_separator_is_a_directory() {
    let path_settings = paths("/tmp/input.mkv", "/tmp/");
    let result = path_settings.assert_that_is_ready_for_encoding(true, true);
    assert_eq!(Err(PathError::OutputIsDirectory), result);
    assert_eq!("Path points to a directory and not a file.", result.unwrap_err().message());
    assert!(path_settings.assert_output_file_path_does_not_end_with_a_path_separator().is_err());
    // The input file is looked at first.
    assert_eq!(
        Err(PathError::InputFileMissing),
        path_settings.assert_that_is_ready_for_encoding(false, true)
    );
}

#[test]
fn the_write_test_file_stands_beside_the_output_file() {
    let file = paths("", "/tmp/output.mkv").write_test_file().unwrap();
    assert_eq!("/tmp/.ravioni-write-test-22604.tmp", file.text);
    assert!(paths("", "").write_test_file().is_none());
}

#[test]
fn the_output_file_takes_the_name_of_the_input_file() {
    let synced = paths("/in/new.mkv", "/out/old.mkv")
        .output_file_path_with_inputs_filename()
        .unwrap();
    assert_eq!("/out/new.mkv", synced.text);
    assert_eq!(Some("/out".to_string()), synced.parent);
    assert_eq!(Some("new.mkv".to_string()), synced.file_name);
    let again = paths("/in/new.mkv", &synced.text).output_file_path_with_inputs_filename();
    assert_eq!(Ok(synced), again);
    let error = paths("/", "/out/old.mkv").output_file_path_with_inputs_filename().unwrap_err();
    assert_eq!("Input file path has no filename.", error.message());
    let error = paths("/in/new.mkv", "").output_file_path_with_inputs_filename().unwrap_err();
    assert_eq!("Output file path has no directory (parent).", error.message());
}

#[test]
fn bounds_are_told_in_the_errors() {
    assert_eq!("AV1 crf must be between 0 and 63.", Av1Crf::new(64).unwrap_err());
    assert_eq!("AV1 preset must be between 0 and 8.", Av1Preset::new(9).unwrap_err());
    assert_eq!(
        "Opus bitrate must be between 6 and 510.",
        OpusBitrate::new(5).unwrap_err()
    );
}

#[test]
fn divided_bitrates_stay_within_bounds() {
    assert_eq!(6, (OpusBitrate::new(6).unwrap() / 2).value());
    assert_eq!(127, (OpusBitrate::new(255).unwrap() / 2).value());
}

#[test]
fn bitrates_are_separate_for_each_layout() {
    let audio = AudioSettings::default();
    assert_eq!(56, audio.bitrate_for_layout(&AudioChannelLayout::Mono).value());
    assert_eq!(112, audio.bitrate_for_layout(&AudioChannelLayout::Stereo20).value());
    assert_eq!(224, audio.bitrate_for_layout(&AudioChannelLayout::Surround51).value());
    assert_eq!(224, audio.bitrate_for_layout(&AudioChannelLayout::Surround51Side).value());
    assert_eq!(394, audio.bitrate_for_layout(&AudioChannelLayout::Surround71).value());
    assert_eq!("Surround51Side", AudioChannelLayout::Surround51Side.to_text());
}

#[test]
fn good_codecs_are_kept_unless_told_otherwise() {
    let mut audio = AudioSettings::default();
    assert!(!audio.should_re_encode("opus"));
    assert!(!audio.should_re_encode("vorbis"));
    assert!(!audio.should_re_encode("mp3"));
    assert!(audio.should_re_encode("aac"));
    audio.re_encode_good_audio_codecs = true;
    assert!(audio.should_re_encode("opus"));
}

#[test]
fn filters_are_joined_by_commas() {
    let mut video = VideoSettings::default();
    assert!(video.filter_args().is_empty());
    video.crop = true;
    assert_eq!(vec!["-vf", "crop=iw:ih::"], video.filter_args());
    video.crop_width = Some(1920);
    video.crop_height = Some(800);
    video.crop_x_offset = Some(0);
    video.crop_y_offset = Some(140);
    video.scale = true;
    video.scale_width = Some(1280);
    assert_eq!(
        vec![
            "-vf",
            "crop=1920:800:0:140,scale=1280:ih:flags=bicubic:param0=0:param1=1/2"
        ],
        video.filter_args()
    );
}

#[test]
fn encoder_parameters_hold_grain_and_denoise() {
    let mut video = VideoSettings::default();
    video.grain = 12;
    video.denoise = false;
    assert_eq!(
        vec![
            "-svtav1-params",
            "tune=0:sharpness=1:input-depth=10:enable-qm=1:qm-min=0:keyint=300:aq-mode=2:sharpness=1:irefresh-type=2:film-grain=12:film-grain-denoise=0"
        ],
        video.av1_args()
    );
}

#[test]
fn times_have_hours_minutes_and_seconds() {
    assert!(RunSettings::is_valid_time_format("01:10:00"));
    assert!(RunSettings::is_valid_time_format("100:59:59"));
    assert!(!RunSettings::is_valid_time_format("01:60:00"));
    assert!(!RunSettings::is_valid_time_format("01:00:60"));
    assert!(!RunSettings::is_valid_time_format("10:00"));
    assert!(!RunSettings::is_valid_time_format("a:00:00"));
    assert!(!RunSettings::is_valid_time_format("1:2:3:4"));
}

#[test]
fn only_times_are_taken_for_the_start() {
    let mut run = RunSettings::default();
    assert_eq!(Err("Invalid time format given."), run.set_only_encode_from("1h".to_string()));
    assert_eq!(None, run.only_encode_from());
    assert_eq!(Ok(()), run.set_only_encode_from("00:01:00".to_string()));
    assert_eq!(Some(&"00:01:00".to_string()), run.only_encode_from());
    assert_eq!(
        Err("Invalid time format for only_encode_from"),
        RunSettings::try_new(true, Some("1h".to_string()), None)
    );
    let run = RunSettings::try_new(true, Some("00:01:00".to_string()), None).unwrap();
    assert!(run.only_encode_segment);
    let stored = RunSettings::from_stored(true, Some("1h".to_string()), None);
    assert_eq!(Some(&"1h".to_string()), stored.only_encode_from());
}

#[test]
fn a_length_that_is_no_number_is_empty() {
    let mut run = RunSettings::default();
    run.set_only_encode_for("100");
    assert_eq!(Some(Duration::from_secs(100)), run.only_encode_for);
    run.set_only_encode_for("abc");
    assert_eq!(Some(Duration::zero()), run.only_encode_for);
}

#[test]
fn settings_start_with_their_defaults() {
    let settings = Settings::new(None);
    assert_eq!(Settings::default(), settings);
    assert_eq!(1, settings.version);
    assert_eq!(PathSettings::default(), settings.paths);
    assert_eq!(EncodingSettings::default(), settings.encoding);
    assert_eq!(MatroskaSettings::default(), settings.matroska);
    assert_eq!(RunSettings::default(), settings.run);
    assert_eq!(ApplicationSettings::default(), settings.application);
    assert_eq!(22, settings.encoding.video.crf.value());
    assert_eq!(4, settings.encoding.video.preset.value());
    let mut stored = Settings::default();
    stored.application.dark_mode = true;
    assert_eq!(stored, Settings::new(Some(stored.clone())));
}
