use ravioni::job::{JobStatus, TotalTime, SKIP_N_FIRST_PROGRESS_EVENTS};
use ravioni::metadata::{FloatBits, InputFileMetadata};
use ravioni::model::{FileError, Model, OutputFileOutcome, StartOutcome};
use ravioni::paths::FilePath;
use ravioni::settings::{EncodingSettings, PathError, Settings};
use ravioni::time::{Duration, Instant};

fn at(seconds: u64) -> Instant {
    Instant::at(Duration::from_secs(seconds))
}

fn metadata() -> InputFileMetadata {
    InputFileMetadata {
        fps: FloatBits { bits: 0 },
        duration: Duration::from_secs(100),
        width: 1920,
        height: 1080,
        audio_streams: Vec::new(),
        subtitle_streams: Vec::new(),
        highest_stream_index: 0,
    }
}

#[test]
fn a_restart_erases_no_value() {
    let mut settings = Settings::default();
    settings.matroska.file_title = "Title".to_string();
    let mut model = Model::new(settings);
    model.set_input_file(FilePath::new("/in/a.mkv"), true, true);
    model.set_output_file(FilePath::new("/out/a.mkv"), true, true, true);
    model.current_job.encoding.audio.downmix_5_1_to_stereo = true;
    model.current_job.run.set_only_encode_from("00:01:00".to_string()).unwrap();
    model.remember_input_directory(&FilePath::new("/in/a.mkv"));
    model.settings.application.dark_mode = true;
    let saved = model.settings_to_save();
    let restarted = Model::new(saved.clone());
    assert_eq!(model.current_job.paths, restarted.current_job.paths);
    assert_eq!(model.current_job.encoding, restarted.current_job.encoding);
    assert_eq!(model.current_job.matroska, restarted.current_job.matroska);
    assert_eq!(model.current_job.run, restarted.current_job.run);
    assert_eq!(model.settings.application, restarted.settings.application);
    assert_eq!(saved, restarted.settings_to_save());
}

#[test]
fn dialogs_open_in_the_last_directory() {
    let mut model = Model::new(Settings::default());
    let video = || Some("/video".to_string());
    let home = || Some("/home".to_string());
    assert_eq!("", model.input_dialog_directory(None, None));
    assert_eq!("/home", model.input_dialog_directory(None, home()));
    assert_eq!("/video", model.input_dialog_directory(video(), home()));
    assert_eq!("/video", model.output_dialog_directory(video(), home()));
    model.remember_input_directory(&FilePath::new("/in/a.mkv"));
    assert_eq!("/in", model.input_dialog_directory(video(), home()));
    assert_eq!("/in", model.output_dialog_directory(video(), home()));
    model.remember_output_directory(&FilePath::new("/out/a.mkv"));
    assert_eq!("/out", model.output_dialog_directory(video(), home()));
    assert_eq!("/in", model.input_dialog_directory(video(), home()));
}

#[test]
fn the_output_name_is_that_of_the_input() {
    let mut model = Model::new(Settings::default());
    assert_eq!("", model.suggested_output_filename());
    model.set_input_file(FilePath::new("/in/a.mkv"), true, true);
    assert_eq!("a.mkv", model.suggested_output_filename());
}

#[test]
fn bad_input_files_are_told() {
    let mut model = Model::new(Settings::default());
    let outcome = model.set_input_file(FilePath::new("/in/a.mkv"), true, false);
    assert_eq!(Some(FileError::Path(PathError::InputFileMissing)), outcome.error);
    assert!(!outcome.accepted);
    assert_eq!(
        "Input file does not exist or is not readable.",
        outcome.error.unwrap().message()
    );
    assert_eq!("/in/a.mkv", model.current_job.paths.input_file.text);
    let outcome = model.set_input_file(FilePath::new("/in/b.mkv"), false, true);
    assert_eq!(Some(FileError::NotUnicode), outcome.error);
    assert_eq!(
        "Could not convert path into valid string. Unicode problem?",
        outcome.error.unwrap().message()
    );
    let outcome = model.set_input_file(FilePath::new(""), true, false);
    assert_eq!(None, outcome.error);
    assert!(!outcome.accepted);
}

#[test]
fn the_output_file_follows_the_input_file() {
    let mut model = Model::new(Settings::default());
    let outcome = model.set_input_file(FilePath::new("/in/a.mkv"), true, true);
    assert!(outcome.accepted);
    assert_eq!(None, outcome.synced_output);
    model.set_output_file(FilePath::new("/out/old.mkv"), true, true, true);
    let outcome = model.set_input_file(FilePath::new("/in/b.mkv"), true, true);
    assert_eq!(Some(FilePath::new("/out/b.mkv")), outcome.synced_output);
    model.current_job.paths.output_file = FilePath::new("/");
    let outcome = model.set_input_file(FilePath::new("/in/b.mkv"), true, true);
    assert_eq!(Some(FilePath::empty()), outcome.synced_output);
    model.current_job.paths.sync_output_filename = false;
    let outcome = model.set_input_file(FilePath::new("/in/c.mkv"), true, true);
    assert_eq!(None, outcome.synced_output);
}

#[test]
fn bad_output_files_are_told() {
    let mut model = Model::new(Settings::default());
    let refused = |error| OutputFileOutcome {
        error: Some(error),
        can_start: false,
        write_settings: false,
    };
    assert_eq!(
        refused(FileError::NotUnicode),
        model.set_output_file(FilePath::new("/out/a.mkv"), false, true, true)
    );
    assert_eq!(
        refused(FileError::Path(PathError::OutputIsDirectory)),
        model.set_output_file(FilePath::new("/out/"), true, true, true)
    );
    assert_eq!(
        refused(FileError::Path(PathError::OutputNotWritable)),
        model.set_output_file(FilePath::new("/out/a.mkv"), true, true, false)
    );
    let cleared = model.set_output_file(FilePath::new(""), true, true, false);
    assert_eq!(
        OutputFileOutcome { error: None, can_start: false, write_settings: true },
        cleared
    );
}

#[test]
fn encoding_starts_when_all_is_there() {
    let mut model = Model::new(Settings::default());
    model.set_input_file(FilePath::new("/in/a.mkv"), true, true);
    let outcome = model.set_output_file(FilePath::new("/out/a.mkv"), true, true, true);
    assert!(!outcome.can_start);
    model.collect_input_file_metadata(None);
    assert!(!model.is_encode_startable(true, true));
    model.collect_input_file_metadata(Some(metadata()));
    assert!(model.is_encode_startable(true, true));
    assert!(!model.is_encode_startable(false, true));
    assert!(!model.is_encode_startable(true, false));
    let outcome = model.set_output_file(FilePath::new("/out/b.mkv"), true, true, true);
    assert!(outcome.can_start);
    assert_eq!(
        StartOutcome { error: None, scan_for_subtitles: true },
        model.start_encoding(true, true, at(3))
    );
    assert_eq!(JobStatus::Encoding, model.current_job.status);
    assert_eq!(Some(at(3)), model.current_job.started_at);
    assert_eq!(None, model.current_job.ffmpeg_error);
}

#[test]
fn a_start_without_files_keeps_the_error() {
    let mut model = Model::new(Settings::default());
    let outcome = model.start_encoding(false, true, at(3));
    assert_eq!(Some(PathError::InputFileMissing), outcome.error);
    assert_eq!(JobStatus::Encoding, model.current_job.status);
    assert_eq!(Some(at(3)), model.current_job.stopped_at);
    assert_eq!(
        Some("Input file does not exist or is not readable.".to_string()),
        model.current_job.ffmpeg_error
    );
}

#[test]
fn a_cancelled_job_has_no_progress() {
    let mut model = Model::new(Settings::default());
    model.collect_progress_from_ffmpeg(Some((50, FloatBits { bits: 7 })));
    model.collect_progress_from_ffmpeg(None);
    assert_eq!(50, model.current_job.current_frame);
    assert_eq!(FloatBits { bits: 7 }, model.current_job.current_fps);
    model.cancel_encoding();
    assert_eq!(JobStatus::Cancelled, model.current_job.status);
    assert_eq!(0, model.current_job.current_frame);
    assert_eq!(FloatBits { bits: 0 }, model.current_job.current_fps);
}

#[test]
fn a_finished_job_keeps_its_progress() {
    let mut model = Model::new(Settings::default());
    model.update_progress_of_current_job(50, FloatBits { bits: 7 });
    let progress = FloatBits { bits: 5 };
    let times = model.collect_finished(JobStatus::Finished, String::new(), progress, at(9));
    assert_eq!(Some(("00:00:00".to_string(), TotalTime::Unknown)), times);
    assert_eq!(SKIP_N_FIRST_PROGRESS_EVENTS - 1, model.current_job.progress_history_skips);
    assert_eq!(JobStatus::Finished, model.current_job.status);
    assert_eq!(50, model.current_job.current_frame);
    assert_eq!(FloatBits { bits: 0 }, model.current_job.current_fps);
    assert_eq!(Some(at(9)), model.current_job.stopped_at);
}

#[test]
fn a_failed_job_has_the_message_of_ffmpeg() {
    let mut model = Model::new(Settings::default());
    let progress = FloatBits { bits: 5 };
    let times = model.collect_finished(JobStatus::Failed, "broken".to_string(), progress, at(9));
    assert_eq!(None, times);
    assert_eq!(SKIP_N_FIRST_PROGRESS_EVENTS, model.current_job.progress_history_skips);
    assert_eq!(JobStatus::Failed, model.current_job.status);
    assert_eq!(Some("broken".to_string()), model.current_job.ffmpeg_error);
}

#[test]
fn job_times_are_told() {
    let mut model = Model::new(Settings::default());
    model.start_encoding(true, true, at(0));
    model.current_job.progress_history_skips = 0;
    let (elapsed, total) = model.update_job_times(FloatBits { bits: 0 }, at(3661));
    assert_eq!("01:01:01", elapsed);
    assert_eq!(TotalTime::Unknown, total);
    assert_eq!(1, model.current_job.progress_history.len());
}

#[test]
fn detected_regions_are_taken_over() {
    let mut model = Model::new(Settings::default());
    assert!(!model.collect_crop_data(None));
    assert_eq!(None, model.current_job.encoding.video.crop_width);
    assert!(model.collect_crop_data(Some((1, 2, 3, 4))));
    let video = &model.current_job.encoding.video;
    assert_eq!(
        (Some(1), Some(2), Some(3), Some(4)),
        (video.crop_width, video.crop_height, video.crop_x_offset, video.crop_y_offset)
    );
    assert!(!video.crop);
}

#[test]
fn settings_are_reset() {
    let mut model = Model::new(Settings::default());
    model.set_input_file(FilePath::new("/in/a.mkv"), true, true);
    model.settings.application.dark_mode = true;
    model.current_job.encoding.video.grain = 9;
    model.reset_video_audio_settings();
    assert_eq!(EncodingSettings::default(), model.current_job.encoding);
    assert_eq!("/in/a.mkv", model.current_job.paths.input_file.text);
    let times = model.reset_all_settings(at(7));
    assert_eq!(("00:00:00".to_string(), TotalTime::Unknown), times);
    assert_eq!(SKIP_N_FIRST_PROGRESS_EVENTS - 1, model.current_job.progress_history_skips);
    assert_eq!(Settings::default(), model.settings);
    assert_eq!(Settings::default(), model.settings_to_save());
}

#[test]
fn the_segment_is_shown() {
    let mut model = Model::new(Settings::default());
    assert_eq!((String::new(), String::new()), model.segment_texts());
    model.current_job.run.set_only_encode_from("00:01:00".to_string()).unwrap();
    model.current_job.run.set_only_encode_for("90");
    assert_eq!(("00:01:00".to_string(), "90".to_string()), model.segment_texts());
}

#[test]
fn an_output_file_that_was_synced_stays_as_it_is() {
    let mut model = Model::new(Settings::default());
    model.set_output_file(FilePath::new("/out/old.mkv"), true, true, true);
    let input = FilePath::new("/in/Mission: Impossible.mkv");
    let synced = model.set_input_file(input.clone(), true, true).synced_output.unwrap();
    assert_eq!(FilePath::new("/out/Mission: Impossible.mkv"), synced);
    model.set_output_file(synced.clone(), true, true, true);
    assert_eq!(Some(synced), model.set_input_file(input, true, true).synced_output);
}
