use std::collections::VecDeque;

use ravioni::ffmpeg::{
    args_for_all_maps, args_for_audio_5_1_side_workaround, args_for_audio_bitrate,
    args_for_audio_codecs, args_for_audio_downmix, args_for_audio_maps, args_for_crop_detection,
    args_for_encoding, args_for_external_subtitles_maps, args_for_input_encoding_duration_limit,
    args_for_input_seek, args_for_internal_subtitles_maps, args_for_mov_text_subtitle_workaround,
    args_for_subtitle_file_inputs, args_for_video_maps, autodetect_crop_parameters, encode_step,
    extract_all_crop_parameters, extract_crop_parameters, extract_metadata, parse_crop_groups,
    random_time_codes_within_range, select_least_cropped_parameters, try_extract_crop_parameters,
    whole_second_time_codes, CropError, EncodeAction, EncodeEvent, ProbeEvent, UnreadableCrop,
};
use ravioni::job::{Job, JobStatus};
use ravioni::metadata::{
    AudioStream, FloatBits, InputFileMetadata, StreamInfo, StreamKind, SubtitleStream,
};
use ravioni::paths::FilePath;
use ravioni::settings::{
    AudioChannelLayout, EncodingSettings, MatroskaSettings, PathSettings, RunSettings,
};
use ravioni::subtitles::{Language, SubTitleType, SubtitleFile, UnreadableDirectory};
use ravioni::time::Duration;

fn float(value: f32) -> FloatBits {
    FloatBits { bits: value.to_bits() }
}

fn empty_job(input_file_metadata: InputFileMetadata) -> Job {
    Job {
        status: JobStatus::Editing,
        started_at: None,
        stopped_at: None,
        paths: PathSettings::default(),
        matroska: MatroskaSettings::default(),
        encoding: EncodingSettings::default(),
        run: RunSettings::default(),
        input_file_metadata: Some(input_file_metadata),
        subtitle_files: Vec::new(),
        ffmpeg_error: None,
        current_frame: 0,
        current_fps: float(0.0),
        progress_history: VecDeque::new(),
        progress_history_skips: 0,
    }
}

fn input_file_metadata_with_three_audio_streams() -> InputFileMetadata {
    // Video index is always 0. Therefore audio indices start at 1.
    let stereo_stream = AudioStream {
        index: 1,
        channel_layout: AudioChannelLayout::Stereo20,
        codec: "aac".to_string(),
    };

    let surround51_stream = AudioStream {
        index: 2,
        channel_layout: AudioChannelLayout::Surround51,
        codec: "ac3".to_string(),
    };

    let surround71_stream = AudioStream {
        index: 3,
        channel_layout: AudioChannelLayout::Surround71,
        codec: "dts".to_string(),
    };

    InputFileMetadata {
        fps: float(24.0),
        duration: Duration::new(3600, 0),
        width: 1920,
        height: 1080,
        audio_streams: vec![stereo_stream, surround51_stream, surround71_stream],
        subtitle_streams: vec![],
        highest_stream_index: 2,
    }
}

fn input_file_metadata_with_one_audio_stream_and_two_subtitle_streams() -> InputFileMetadata {
    // Video index is always 0. Therefore audio indices start at 1.
    let stereo_stream = AudioStream {
        index: 1,
        channel_layout: AudioChannelLayout::Stereo20,
        codec: "aac".to_string(),
    };

    let first_subtitle_stream = SubtitleStream {
        index: 2,
        format: "srt".to_string(),
    };

    let second_subtitle_stream = SubtitleStream {
        index: 3,
        format: "srt".to_string(),
    };

    InputFileMetadata {
        fps: float(24.0),
        duration: Duration::new(3600, 0),
        width: 1920,
        height: 1080,
        audio_streams: vec![stereo_stream],
        subtitle_streams: vec![first_subtitle_stream, second_subtitle_stream],
        highest_stream_index: 3,
    }
}

#[test]
fn creates_correct_ffmpeg_map_arguments_for_video_stream() {
    let input_metadata = input_file_metadata_with_three_audio_streams();

    let mut job = empty_job(input_metadata);
    job.scan_for_subtitle_files(&Err(UnreadableDirectory));
    // input_file_metadata_with_three_audio_streams() creates mock file metadata with one video
    // stream.
    let expected_string = "-map v:0";
    let assembled_string = args_for_video_maps().join(" ");
    assert_eq!(expected_string, assembled_string);
}

#[test]
fn creates_correct_ffmpeg_map_arguments_for_audio_streams() {
    let input_file_metadata = input_file_metadata_with_three_audio_streams();

    let job = empty_job(input_file_metadata);

    // input_file_metadata_with_three_audio_streams() creates mock file metadata with three
    // audio streams. Therefore, the audio streams have the indices 1, 2 and 3.
    let expected_string = "-map 0:1 -map 0:2 -map 0:3";
    let assembled_string = args_for_audio_maps(&job).join(" ");
    assert_eq!(expected_string, assembled_string);
}

#[test]
fn creates_correct_ffmpeg_map_arguments_for_internal_subtitle_streams() {
    let input_file_metadata = input_file_metadata_with_one_audio_stream_and_two_subtitle_streams();

    let job = empty_job(input_file_metadata);

    // The mock file metadata has one video stream, one audio stream and two subtitle streams.
    // Therefore, the subtitle streams are third and fourth, having indices 2 and 3.
    let expected_string = "-map 0:2 -map 0:3";
    let assembled_string = args_for_internal_subtitles_maps(&job).join(" ");
    assert_eq!(expected_string, assembled_string);
}

#[test]
fn creates_correct_ffmpeg_map_arguments_and_language_metadata_for_external_subtitle_streams() {
    let input_file_metadata = input_file_metadata_with_one_audio_stream_and_two_subtitle_streams();
    // Paths for subtitle files are not tested. Therefore, empty paths are sufficient.
    let first_subtitle_file = SubtitleFile {
        path: FilePath::empty(),
        language: Some(Language::from_639_1("en").unwrap()),
        kind: SubTitleType::Normal,
    };

    let second_subtitle_file = SubtitleFile {
        path: FilePath::empty(),
        language: Some(Language::from_639_1("de").unwrap()),
        kind: SubTitleType::Normal,
    };

    let mut job = empty_job(input_file_metadata);
    job.subtitle_files = vec![first_subtitle_file, second_subtitle_file];

    // The mock file metadata has one video stream, one audio stream and two internal subtitle
    // streams. Therefore, the additional external subtitle streams are fifth and sixth, having
    // indices 4 and 5. There inputs start at 0 (input file), so the additional external subtitles
    // are inputs 1 and 2 (`-map`).
    let expected_string = "-map 1 -metadata:s:4 language=eng -map 2 -metadata:s:5 language=deu";
    let assembled_string = args_for_external_subtitles_maps(&job).join(" ");
    assert_eq!(expected_string, assembled_string);
}

#[test]
fn creates_correct_ffmpeg_audio_bitrate_arguments() {
    let input_file_metadata = input_file_metadata_with_three_audio_streams();

    let job = empty_job(input_file_metadata);

    // First stream is video and has index 0. First audio stream index is 1.
    let expected_string = "-b:1 112K -b:2 224K -b:3 394K";
    let assembled_string = args_for_audio_bitrate(&job).join(" ");
    assert_eq!(expected_string, assembled_string);
}

#[test]
fn creates_correct_ffmpeg_audio_downmixing_arguments() {
    let input_file_metadata = input_file_metadata_with_three_audio_streams();

    let mut job = empty_job(input_file_metadata);
    job.encoding = EncodingSettings::default();
    job.encoding.audio.downmix_5_1_to_stereo = true;
    job.encoding.audio.downmix_7_1_to_stereo = true;

    // First stream is video and has index 0. First audio stream index is 1. First surround
    // audio stream has index 2. Therefore, streams 2 and 3 are 5.1 and 7.1 respectively.
    let expected_string = "-ac:2 2 -ac:3 2";
    let assembled_string = args_for_audio_downmix(&job).join(" ");
    assert_eq!(expected_string, assembled_string);
}

#[test]
fn creates_correct_arguments_for_ffmpeg_audio_5_1_side_workaround() {
    let input_file_metadata = input_file_metadata_with_three_audio_streams();
    let mut job = empty_job(input_file_metadata);

    // Set one of the audio streams to have a 5.1 side channel layout
    job.input_file_metadata.as_mut().unwrap().audio_streams[1].channel_layout =
        AudioChannelLayout::Surround51Side;

    let expected_string = "-filter:2 aformat=channel_layouts='7.1|5.1|stereo'";
    let assembled_string = args_for_audio_5_1_side_workaround(&job).join(" ");
    assert_eq!(expected_string, assembled_string);
}

#[test]
fn creates_correct_ffmpeg_input_arguments_for_external_subtitle_streams() {
    let input_file_metadata = input_file_metadata_with_one_audio_stream_and_two_subtitle_streams();
    let first_subtitle_file = SubtitleFile {
        path: FilePath::new("/dummy/movie.en.srt"),
        language: Some(Language::from_639_1("en").unwrap()),
        kind: SubTitleType::Normal,
    };

    let second_subtitle_file = SubtitleFile {
        path: FilePath::new("/dummy/Film - Der Öß.de.srt"),
        language: Some(Language::from_639_1("de").unwrap()),
        kind: SubTitleType::Normal,
    };

    let mut job = empty_job(input_file_metadata);
    job.subtitle_files = vec![first_subtitle_file, second_subtitle_file];

    let expected_string = "-i /dummy/movie.en.srt -i /dummy/Film - Der Öß.de.srt";
    let assembled_string = args_for_subtitle_file_inputs(&job).join(" ");
    assert_eq!(expected_string, assembled_string);
}

#[test]
fn creates_correct_arguments_for_ffmpeg_mov_text_subtitle_workaround() {
    let input_file_metadata = input_file_metadata_with_one_audio_stream_and_two_subtitle_streams();
    let mut job = empty_job(input_file_metadata);

    // Set one of the subtitle streams to have a mov_text format
    job.input_file_metadata.as_mut().unwrap().subtitle_streams[0].format = "mov_text".to_string();

    let expected_string = "-c:2 srt";
    let assembled_string = args_for_mov_text_subtitle_workaround(&job).join(" ");
    assert_eq!(expected_string, assembled_string);
}

fn subtitle_file(path: &str, language: Option<Language>, kind: SubTitleType) -> SubtitleFile {
    SubtitleFile { path: FilePath::new(path), language, kind }
}

#[test]
fn external_subtitles_are_marked_for_whom_they_are() {
    let mut job = empty_job(input_file_metadata_with_one_audio_stream_and_two_subtitle_streams());
    job.subtitle_files = vec![
        subtitle_file("/d/a.srt", Language::from_639_1("en"), SubTitleType::SDH),
        subtitle_file("/d/b.idx", None, SubTitleType::SDH),
        subtitle_file("/d/c.idx", None, SubTitleType::Normal),
    ];
    assert_eq!(
        "-map 1 -metadata:s:4 language=eng -metadata:s:4 title=SDH -map 2 -metadata:s:5 title=SDH -map 3",
        args_for_external_subtitles_maps(&job).join(" ")
    );
    assert_eq!(
        "-map v:0 -map 0:1 -map 0:2 -map 0:3 -map 1 -metadata:s:4 language=eng -metadata:s:4 title=SDH -map 2 -metadata:s:5 title=SDH -map 3",
        args_for_all_maps(&job).join(" ")
    );
}

#[test]
fn good_audio_codecs_are_copied() {
    let mut job = empty_job(input_file_metadata_with_three_audio_streams());
    job.input_file_metadata.as_mut().unwrap().audio_streams[1].codec = "opus".to_string();
    assert_eq!("-c:1 libopus -c:2 copy -c:3 libopus", args_for_audio_codecs(&job).join(" "));
}

#[test]
fn segments_are_cut_out_of_every_input() {
    let mut job = empty_job(input_file_metadata_with_three_audio_streams());
    job.subtitle_files = vec![subtitle_file("/d/a.srt", None, SubTitleType::Normal)];
    job.run.set_only_encode_from("01:10:00".to_string()).unwrap();
    job.run.set_only_encode_for("100");
    assert!(args_for_input_seek(&job).is_empty());
    assert!(args_for_input_encoding_duration_limit(&job).is_empty());
    job.run.only_encode_segment = true;
    assert_eq!("-ss 01:10:00", args_for_input_seek(&job).join(" "));
    assert_eq!("-t 100", args_for_input_encoding_duration_limit(&job).join(" "));
    assert_eq!(
        "-ss 01:10:00 -i /d/a.srt -t 100",
        args_for_subtitle_file_inputs(&job).join(" ")
    );
}

#[test]
fn all_arguments_come_in_their_order() {
    let mut job = empty_job(input_file_metadata_with_one_audio_stream_and_two_subtitle_streams());
    job.input_file_metadata.as_mut().unwrap().subtitle_streams[1].format = "mov_text".to_string();
    job.paths.input_file = FilePath::new("/in/movie.mp4");
    job.paths.output_file = FilePath::new("/out/movie.mkv");
    let expected = "-hide_banner -i /in/movie.mp4 -pix_fmt yuv420p10le -c:v libsvtav1 -crf:v 22 \
        -preset:v 4 -svtav1-params tune=0:sharpness=1:input-depth=10:enable-qm=1:qm-min=0:keyint=300:aq-mode=2:sharpness=1:irefresh-type=2:film-grain=0:film-grain-denoise=1 \
        -c:1 libopus -map v:0 -map 0:1 -map 0:2 -map 0:3 -b:1 112K -c:s copy -c:3 srt \
        -f matroska -y /out/movie.mkv";
    assert_eq!(expected, args_for_encoding(&job).join(" "));
}

#[test]
fn events_of_the_encoder_lead_to_actions() {
    assert_eq!(
        EncodeAction::Stop(JobStatus::Failed, "bad".to_string()),
        encode_step(false, Some(EncodeEvent::Error("bad".to_string())))
    );
    assert_eq!(
        EncodeAction::Progress { frame: 77, fps: float(1.5) },
        encode_step(false, Some(EncodeEvent::Progress { frame: 77, fps: float(1.5) }))
    );
    assert_eq!(
        EncodeAction::Progress { frame: -1, fps: float(0.0) },
        encode_step(false, Some(EncodeEvent::Progress { frame: u32::MAX, fps: float(0.0) }))
    );
    assert_eq!(
        EncodeAction::Warn("odd".to_string()),
        encode_step(false, Some(EncodeEvent::Problem("odd".to_string())))
    );
    assert_eq!(EncodeAction::Nothing, encode_step(false, Some(EncodeEvent::Other)));
    assert_eq!(
        EncodeAction::Quit,
        encode_step(true, Some(EncodeEvent::Error("bad".to_string())))
    );
    assert_eq!(
        EncodeAction::Stop(JobStatus::Finished, String::new()),
        encode_step(true, None)
    );
    // An error does not end the work, as ffmpeg may tell more.
    assert!(!EncodeAction::Stop(JobStatus::Failed, String::new()).ends_encoding());
    assert!(EncodeAction::Stop(JobStatus::Finished, String::new()).ends_encoding());
    assert!(EncodeAction::Quit.ends_encoding());
    assert!(!EncodeAction::Nothing.ends_encoding());
}

fn stream(index: u32, format: &str, kind: StreamKind) -> ProbeEvent {
    ProbeEvent::Stream(StreamInfo { index, format: format.to_string(), kind })
}

#[test]
fn metadata_is_collected_from_events() {
    let video = |fps: f32, width: u32| StreamKind::Video { fps: float(fps), width, height: 800 };
    let audio = |channels: &str| StreamKind::Audio { channels: channels.to_string() };
    let events = vec![
        ProbeEvent::Duration(50),
        stream(0, "h264", video(24.0, 1920)),
        stream(1, "dts", audio("5.1(side)")),
        stream(2, "pcm", audio("quad")),
        stream(3, "mov_text", StreamKind::Subtitle),
        stream(4, "mjpeg", video(90.0, 200)),
        stream(9, "ttf", StreamKind::Other),
        ProbeEvent::Duration(60),
    ];
    let metadata = extract_metadata(&events).unwrap();
    assert_eq!(float(24.0), metadata.fps);
    assert_eq!(1920, metadata.width);
    assert_eq!(800, metadata.height);
    assert_eq!(Duration::from_secs(60), metadata.duration);
    assert_eq!(1, metadata.audio_streams.len());
    assert_eq!(1, metadata.audio_streams[0].index);
    assert_eq!(
        vec![SubtitleStream { index: 3, format: "mov_text".to_string() }],
        metadata.subtitle_streams
    );
    assert_eq!(4, metadata.highest_stream_index);
}

#[test]
fn metadata_needs_video_and_duration() {
    let kind = StreamKind::Video { fps: float(24.0), width: 1, height: 1 };
    assert!(extract_metadata(&vec![stream(0, "h264", kind)]).is_none());
    assert!(extract_metadata(&vec![ProbeEvent::Duration(60)]).is_none());
    assert!(extract_metadata(&vec![]).is_none());
}

#[test]
fn crop_regions_are_found_in_log_lines() {
    let line = "[Parsed_cropdetect_0 @ 0x1] x1:0 x2:1919 w:1920 h:800 crop=1920:800:0:140";
    assert_eq!(Some((1920, 800, 0, 140)), extract_crop_parameters(line));
    assert_eq!(Ok(Some((1920, 800, 0, 140))), try_extract_crop_parameters(line));
    assert_eq!(Ok(None), try_extract_crop_parameters("frame=1 fps=2"));
    assert_eq!(None, extract_crop_parameters("crop=1:2:3"));
    assert_eq!(Err(UnreadableCrop), try_extract_crop_parameters("crop=4294967296:1:1:1"));
}

#[test]
fn groups_of_numbers_are_a_region() {
    let group = |t: &str| Some(t.to_string());
    let groups = vec![group("all"), group("1"), group("2"), group("3"), group("4")];
    assert_eq!(Ok(Some((1, 2, 3, 4))), parse_crop_groups(&Some(groups)));
    assert_eq!(Ok(None), parse_crop_groups(&None));
    assert_eq!(Err(UnreadableCrop), parse_crop_groups(&Some(vec![group("all")])));
    let groups = vec![group("all"), group("1"), None, group("3"), group("4")];
    assert_eq!(Err(UnreadableCrop), parse_crop_groups(&Some(groups)));
}

#[test]
fn all_regions_of_a_log_are_found() {
    let lines = vec![
        "crop=10:20:1:2".to_string(),
        "nothing".to_string(),
        "crop=30:15:3:4".to_string(),
    ];
    let regions = extract_all_crop_parameters(&lines).unwrap();
    assert_eq!(vec![(10, 20, 1, 2), (30, 15, 3, 4)], regions);
    assert_eq!(Some((30, 20, 3, 2)), select_least_cropped_parameters(&regions));
    let lines = vec!["crop=99999999999:1:1:1".to_string()];
    assert_eq!(Err(UnreadableCrop), extract_all_crop_parameters(&lines));
}

#[test]
fn the_least_crop_of_a_log_is_detected() {
    let lines = |texts: &[&str]| texts.iter().map(|t| t.to_string()).collect::<Vec<String>>();
    assert_eq!(
        Ok((30, 20, 3, 2)),
        autodetect_crop_parameters(&lines(&["crop=10:20:1:2", "nothing", "crop=30:15:3:4"]))
    );
    let error = autodetect_crop_parameters(&lines(&["nothing"])).unwrap_err();
    assert_eq!(CropError::NothingFound, error);
    assert_eq!("Could not select least cropped parameters.", error.message());
    let error = autodetect_crop_parameters(&lines(&["crop=99999999999:1:1:1"])).unwrap_err();
    assert_eq!(CropError::Unreadable, error);
    assert_eq!("A number of a region is too large.", error.message());
}

#[test]
fn the_least_crop_is_selected() {
    assert_eq!(None, select_least_cropped_parameters(&vec![]));
    assert_eq!(Some((0, 0, 0, 0)), select_least_cropped_parameters(&vec![(0, 0, 7, 7)]));
    // The first of equally large regions counts.
    assert_eq!(
        Some((5, 9, 1, 4)),
        select_least_cropped_parameters(&vec![(5, 8, 1, 2), (5, 9, 3, 4)])
    );
}

#[test]
fn crops_are_detected_at_a_point_in_time() {
    assert_eq!(
        "-ss 00:01:20 -t 0.2 -i /in/a.mkv -vf cropdetect=round=2:limit=0.1,metadata=mode=print -f null -",
        args_for_crop_detection("/in/a.mkv", &Duration::from_secs(80)).join(" ")
    );
}

#[test]
fn random_time_codes_lie_before_the_end() {
    let end = Duration::new(600, 5);
    let time_codes = random_time_codes_within_range(end, 12);
    assert_eq!(12, time_codes.len());
    for time_code in &time_codes {
        assert!(*time_code < end);
        assert_eq!(0, time_code.subsec_nanos());
    }
    assert!(time_codes.iter().any(|t| *t != time_codes[0]));
}

#[test]
fn there_are_not_more_time_codes_than_seconds() {
    assert_eq!(4, random_time_codes_within_range(Duration::from_secs(4), 6).len());
    assert_eq!(0, random_time_codes_within_range(Duration::new(0, 500), 6).len());
    assert_eq!(
        vec![Duration::from_secs(3), Duration::from_secs(1)],
        whole_second_time_codes(&vec![3, 1])
    );
}
