use ravioni::job::{
    FoundSubtitles, Job, JobStatus, TotalTime, MIN_PROGRESS_HISTORY_TO_USE,
    PROGRESS_HISTORY_LENGTH, SKIP_N_FIRST_PROGRESS_EVENTS,
};
use ravioni::metadata::{FloatBits, InputFileMetadata};
use ravioni::paths::FilePath;
use ravioni::settings::{EncodingSettings, MatroskaSettings, PathSettings, RunSettings};
use ravioni::subtitles::{
    Directory, DirectoryEntry, Language, SubTitleType, SubtitleFile, UnreadableDirectory,
};
use ravioni::time::{Duration, Instant};

fn float(value: f32) -> FloatBits {
    FloatBits { bits: value.to_bits() }
}

fn value(float: FloatBits) -> f32 {
    f32::from_bits(float.bits)
}

fn at(seconds: u64) -> Instant {
    Instant::at(Duration::from_secs(seconds))
}

fn new_job() -> Job {
    Job::new(
        PathSettings::default(),
        EncodingSettings::default(),
        MatroskaSettings::default(),
        RunSettings::default(),
    )
}

fn metadata(seconds: u64) -> InputFileMetadata {
    InputFileMetadata {
        fps: float(30.0),
        duration: Duration::from_secs(seconds),
        width: 1920,
        height: 1080,
        audio_streams: Vec::new(),
        subtitle_streams: Vec::new(),
        highest_stream_index: 14,
    }
}

#[test]
fn new_jobs_fields_are_identical_to_the_ones_passed_to_the_constructor() {
    let paths = PathSettings::default();
    let encoding = EncodingSettings::default();
    let matroska = MatroskaSettings::default();
    let run = RunSettings::default();

    let job = Job::new(
        paths.clone(),
        encoding.clone(),
        matroska.clone(),
        run.clone(),
    );

    assert_eq!(JobStatus::Editing, job.status);
    assert!(job.started_at.is_none());
    assert!(job.stopped_at.is_none());
    assert_eq!(paths, job.paths);
    assert_eq!(encoding, job.encoding);
    assert_eq!(0, job.current_frame);
    assert_eq!(0.0, value(job.current_fps));
}

#[test]
fn new_job_has_status_editing() {
    let job = new_job();
    assert_eq!(job.status, JobStatus::Editing);
}

#[test]
fn started_job_has_status_encoding_and_a_started_at_time() {
    let mut job = new_job();
    assert!(job.start(at(1)));

    assert_eq!(job.status, JobStatus::Encoding);
    assert!(job.started_at.is_some());
    job.paths.scan_for_subtitles = false;
    assert!(!job.start(at(1)));
}

#[test]
fn cancelled_job_has_status_cancelled() {
    let mut job = new_job();
    job.cancel();

    assert_eq!(JobStatus::Cancelled, job.status);
}

#[test]
fn finished_job_has_status_finished_and_a_stopped_at_time() {
    let mut job = new_job();
    job.finish(at(1));

    assert_eq!(job.status, JobStatus::Finished);
    assert!(job.stopped_at.is_some());
}

#[test]
fn failed_job_keeps_its_error() {
    let mut job = new_job();
    job.fail("broken".to_string(), at(2));
    assert_eq!(JobStatus::Failed, job.status);
    assert_eq!(Some("broken".to_string()), job.ffmpeg_error);
    assert_eq!(Some(at(2)), job.stopped_at);
}

#[test]
fn progress_history_skips_initial_events() {
    let mut job = new_job();
    job.update_progress_history(float(0.0), at(0));
    assert_eq!(0, job.progress_history.len());
    assert_eq!(SKIP_N_FIRST_PROGRESS_EVENTS - 1, job.progress_history_skips);
}

#[test]
fn progress_history_maintains_correct_length() {
    let mut job = new_job();
    job.progress_history_skips = 0;
    for i in 0..(PROGRESS_HISTORY_LENGTH + 5) {
        job.update_progress_history(float(0.0), at(i as u64));
    }
    assert_eq!(PROGRESS_HISTORY_LENGTH, job.progress_history.len());
    assert_eq!(at(5), job.progress_history[0].1);
    assert_eq!(at(24), job.progress_history[19].1);
}

#[test]
fn elapsed_time_increases_after_job_start() {
    let mut job = new_job();
    assert_eq!(Duration::zero(), job.elapsed_time(at(5)));
    job.start(at(0));
    let later = Instant::at(Duration::new(0, 10_000_000));
    assert!(job.elapsed_time(later) > Duration::zero());
    assert_eq!(Duration::new(0, 10_000_000), job.elapsed_time(later));
}

#[test]
fn if_forty_percent_of_job_was_completed_in_4s_then_full_job_will_take_10s() {
    let mut job = new_job();
    job.progress_history_skips = 0;
    job.input_file_metadata = Some(metadata(101));
    job.current_frame = 1200;

    job.progress_history.push_back((float(0.0), at(96)));
    job.progress_history.push_back((float(0.1), at(97)));
    job.progress_history.push_back((float(0.2), at(98)));
    job.progress_history.push_back((float(0.3), at(99)));

    // The current_frame (1200) is chosen such that progress is 0.4 now. Previous entries went
    // from 0 to 0.3 each second - 4 seconds in total. Thus 0.6 is remaining and should be done
    // in 6 s.
    let expected = TotalTime::FromHistory {
        first_progress: float(0.0),
        last_progress: float(0.4),
        time_delta: Duration::from_secs(4),
        elapsed: Duration::zero(),
    };
    let total = job.total_time(float(0.4), at(100));
    assert_eq!(expected, total);
    // At the rate of these four seconds, the rest takes between 5.9 and 6.1 seconds.
    match total {
        TotalTime::FromHistory { first_progress, last_progress, time_delta, elapsed } => {
            let rate = (value(last_progress) - value(first_progress)) / time_delta.as_secs() as f32;
            let total_time = (1.0 - value(last_progress)) / rate + elapsed.as_secs() as f32;
            assert!(total_time >= 5.9 && total_time <= 6.1);
        }
        TotalTime::Unknown => panic!("there are enough events"),
    }
}

#[test]
fn total_time_returns_zero_duration_with_insufficient_history() {
    let mut job = new_job();
    job.progress_history_skips = 0;
    job.progress_history.push_back((float(0.0), at(0)));
    let total_time = job.total_time(float(0.0), at(1));
    assert_eq!(TotalTime::Unknown, total_time);
    assert!(job.progress_history.len() < MIN_PROGRESS_HISTORY_TO_USE);
    assert!(job.total_time(float(0.0), at(2)) != TotalTime::Unknown);
}

#[test]
fn job_status_enum_prints_its_variant_names_correctly() {
    assert_eq!("Editing", JobStatus::Editing.to_text());
    assert_eq!("Encoding", JobStatus::Encoding.to_text());
    assert_eq!("Cancelled", JobStatus::Cancelled.to_text());
    assert_eq!("Failed", JobStatus::Failed.to_text());
    assert_eq!("Finished", JobStatus::Finished.to_text());
}

#[test]
fn the_last_second_is_not_counted() {
    let mut job = new_job();
    assert_eq!(0, job.seconds_to_encode());
    job.input_file_metadata = Some(metadata(0));
    assert_eq!(0, job.seconds_to_encode());
    job.input_file_metadata = Some(metadata(100));
    assert_eq!(99, job.seconds_to_encode());
    job.run.only_encode_segment = true;
    job.run.set_only_encode_for("40");
    assert_eq!(40, job.seconds_to_encode());
    job.run.set_only_encode_for("400");
    assert_eq!(99, job.seconds_to_encode());
}

#[test]
fn found_subtitles_become_those_of_the_job() {
    let mut job = new_job();
    let found = Ok(vec![
        FoundSubtitles {
            path: FilePath::new("/d/movie.sdh.srt"),
            lines: Some(vec![
                "1".to_string(),
                "There is no reason not to learn a language that so many people speak.".to_string(),
            ]),
        },
        FoundSubtitles { path: FilePath::new("/d/movie.idx"), lines: None },
    ]);
    // Without an input file there is no directory to search in.
    job.scan_for_subtitle_files(&found);
    assert!(job.subtitle_files.is_empty());
    job.paths.input_file = FilePath::new("/d/movie.mkv");
    assert!(job.scan_for_subtitle_files(&found));
    let expected = vec![
        SubtitleFile {
            path: FilePath::new("/d/movie.sdh.srt"),
            language: Language::from_639_1("en"),
            kind: SubTitleType::SDH,
        },
        SubtitleFile {
            path: FilePath::new("/d/movie.idx"),
            language: None,
            kind: SubTitleType::Normal,
        },
    ];
    assert_eq!(expected, job.subtitle_files);
    job.scan_for_subtitle_files(&Err(UnreadableDirectory));
    assert_eq!(expected, job.subtitle_files);
}

#[test]
fn subtitles_are_searched_for_ten_levels_deep() {
    let mut directory = Directory::Listed(vec![DirectoryEntry::File(FilePath::new("/d/a.srt"))]);
    for _ in 0..9 {
        directory = Directory::Listed(vec![DirectoryEntry::Directory(directory)]);
    }
    assert_eq!(1, Job::subtitle_paths_in(&directory).unwrap().len());
    directory = Directory::Listed(vec![DirectoryEntry::Directory(directory)]);
    assert!(Job::subtitle_paths_in(&directory).unwrap().is_empty());
}
