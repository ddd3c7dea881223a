//! A job: one input file, the settings to encode it with and the progress of its encoding.

use std::collections::VecDeque;

use vstd::prelude::*;

use crate::metadata::{FloatBits, InputFileMetadata};
use crate::paths::FilePath;
use crate::settings::{EncodingSettings, MatroskaSettings, PathSettings, RunSettings};
use crate::strings;
use crate::subtitles;
use crate::subtitles::{Directory, SubtitleFile, UnreadableDirectory};
use crate::time::{Duration, Instant};

verus! {

/// The number of progress events to remember and to calculate the average prediction over.
pub const PROGRESS_HISTORY_LENGTH: usize = 20;

/// The number of progress events to skip before any is remembered. Ffmpeg starts slowly, and its
/// first events would lead to an overestimation of the remaining time.
pub const SKIP_N_FIRST_PROGRESS_EVENTS: u32 = 4;

/// The number of events to remember before the total time is estimated.
pub const MIN_PROGRESS_HISTORY_TO_USE: usize = 3;

/// How many levels of directories to search for subtitle files.
pub const SUBTITLE_SEARCH_DEPTH: u32 = 10;

/// The index of the input file. There is only one, which is the first.
pub const INPUT_INDEX: u32 = 0;

/// The state of a job.
#[derive(Debug, Clone, Copy, PartialEq, Eq, Structural)]
pub enum JobStatus {
    Editing,
    Encoding,
    Cancelled,
    Failed,
    Finished,
}

impl JobStatus {
    /// The name of this state.
    pub open spec fn spec_name(self) -> Seq<char> {
        match self {
            JobStatus::Editing => "Editing"@,
            JobStatus::Encoding => "Encoding"@,
            JobStatus::Cancelled => "Cancelled"@,
            JobStatus::Failed => "Failed"@,
            JobStatus::Finished => "Finished"@,
        }
    }

    /// The name of this state.
    pub fn to_text(&self) -> (r: String)
        ensures
            r@ == self.spec_name(),
    {
        match self {
            JobStatus::Editing => "Editing".to_string(),
            JobStatus::Encoding => "Encoding".to_string(),
            JobStatus::Cancelled => "Cancelled".to_string(),
            JobStatus::Failed => "Failed".to_string(),
            JobStatus::Finished => "Finished".to_string(),
        }
    }
}

/// What the total time of a job is to be estimated from.
#[derive(Debug, Clone, Copy, PartialEq)]
pub enum TotalTime {
    /// There are too few events yet.
    Unknown,
    /// The progress at the first and the last remembered event, the time between the two, and
    /// how long the job has run.
    FromHistory {
        first_progress: FloatBits,
        last_progress: FloatBits,
        time_delta: Duration,
        elapsed: Duration,
    },
}

/// A subtitle file that was found, with its lines if it could be read.
#[derive(Debug, PartialEq)]
pub struct FoundSubtitles {
    pub path: FilePath,
    pub lines: Option<Vec<String>>,
}

#[derive(Debug, Clone)]
pub struct Job {
    pub status: JobStatus,
    pub started_at: Option<Instant>,
    pub stopped_at: Option<Instant>,
    pub paths: PathSettings,
    pub matroska: MatroskaSettings,
    pub encoding: EncodingSettings,
    pub run: RunSettings,
    pub input_file_metadata: Option<InputFileMetadata>,
    pub subtitle_files: Vec<SubtitleFile>,
    pub ffmpeg_error: Option<String>,
    pub current_frame: i32,
    pub current_fps: FloatBits,
    pub progress_history: VecDeque<(FloatBits, Instant)>,
    pub progress_history_skips: u32,
}

/// The code of the language that is known of a subtitle file, by what is spoken in it.
pub open spec fn language_code(found: FoundSubtitles) -> Option<Seq<char>> {
    if subtitles::is_srt(found.path) && found.lines is Some {
        match subtitles::detected_code(subtitles::dialogue(strings::texts(found.lines->0@))) {
            Some(c) if subtitles::iso_639_3_known(c) => Some(c),
            _ => None,
        }
    } else {
        None
    }
}

/// Whether `file` says of the file that was found where it is, what language it is in and for
/// whom it is.
pub open spec fn describes(file: SubtitleFile, found: FoundSubtitles) -> bool {
    &&& file.path == found.path
    &&& file.kind == subtitles::type_of_subtitle_file(found.path)
    &&& match file.language {
        Some(l) => language_code(found) == Some(l@),
        None => language_code(found) is None,
    }
}

/// Whether `file` says of the file that was found what can be said of it: no language where too
/// much is spoken in it.
pub open spec fn describes_where_detectable(file: SubtitleFile, found: FoundSubtitles) -> bool {
    if subtitles::is_detectable(found.path, found.lines) {
        describes(file, found)
    } else {
        &&& file.path == found.path
        &&& file.kind == subtitles::type_of_subtitle_file(found.path)
        &&& file.language is None
    }
}

/// Whether the languages of all files that were found can be detected.
pub open spec fn are_detectable(
    found: Result<Vec<FoundSubtitles>, UnreadableDirectory>,
) -> bool {
    found matches Ok(files) ==> forall|i: int|
        0 <= i < files@.len() ==> subtitles::is_detectable(
            (#[trigger] files@[i]).path,
            files@[i].lines,
        )
}

/// Describes the files that were found, and tells whether the languages of all of them can be
/// detected.
fn describe_all(files: &Vec<FoundSubtitles>) -> (r: (Vec<SubtitleFile>, bool))
    ensures
        r.0@.len() == files@.len(),
        forall|i: int|
            0 <= i < files@.len() ==> describes_where_detectable(#[trigger] r.0@[i], files@[i]),
        r.1 == forall|i: int|
            0 <= i < files@.len() ==> subtitles::is_detectable(
                (#[trigger] files@[i]).path,
                files@[i].lines,
            ),
{
    let mut described: Vec<SubtitleFile> = Vec::new();
    let mut all_detectable = true;
    let mut i: usize = 0;
    while i < files.len()
        invariant
            i <= files.len(),
            described@.len() == i,
            all_detectable == forall|j: int|
                0 <= j < i ==> subtitles::is_detectable(
                    (#[trigger] files@[j]).path,
                    files@[j].lines,
                ),
            forall|j: int|
                0 <= j < i ==> describes_where_detectable(#[trigger] described@[j], files@[j]),
        decreases files.len() - i,
    {
        let file = &files[i];
        let language = match subtitles::try_detect_language_of_subtitle_file(
            &file.path,
            &file.lines,
        ) {
            Some(Ok(language)) => Some(language),
            Some(Err(_)) => None,
            None => {
                all_detectable = false;
                None
            },
        };
        assert(files@[i as int] == *file);
        described.push(
            SubtitleFile {
                path: file.path.clone(),
                language,
                kind: subtitles::detect_type_of_subtitle_file_type(&file.path),
            },
        );
        i += 1;
    }
    (described, all_detectable)
}

/// Events that are remembered, with one more behind them. The first one is forgotten where there
/// are enough of them.
pub open spec fn remembered<T>(history: Seq<T>, event: T) -> Seq<T> {
    if history.len() >= PROGRESS_HISTORY_LENGTH {
        history.skip(1).push(event)
    } else {
        history.push(event)
    }
}

/// The events that are remembered after all of `events`.
pub open spec fn all_remembered<T>(events: Seq<T>) -> Seq<T>
    decreases events.len(),
{
    if events.len() == 0 {
        Seq::empty()
    } else {
        remembered(all_remembered(events.drop_last()), events.last())
    }
}

/// Only the latest events are remembered, all of them in their order.
pub proof fn the_latest_events_are_remembered<T>(events: Seq<T>)
    ensures
        all_remembered(events) == (if events.len() <= PROGRESS_HISTORY_LENGTH {
            events
        } else {
            events.skip(events.len() - PROGRESS_HISTORY_LENGTH)
        }),
        all_remembered(events).len() <= PROGRESS_HISTORY_LENGTH,
    decreases events.len(),
{
    if events.len() > 0 {
        the_latest_events_are_remembered(events.drop_last());
        assert(events.drop_last().push(events.last()) =~= events);
        if events.len() > PROGRESS_HISTORY_LENGTH {
            assert(all_remembered(events) =~= events.skip(events.len() - PROGRESS_HISTORY_LENGTH));
        }
    }
}

impl Job {
    /// Whether this is a job with these settings that nothing has been done with yet.
    pub open spec fn is_new(
        self,
        paths: PathSettings,
        encoding: EncodingSettings,
        matroska: MatroskaSettings,
        run: RunSettings,
    ) -> bool {
        &&& self.status == JobStatus::Editing
        &&& self.started_at is None
        &&& self.stopped_at is None
        &&& self.paths == paths
        &&& self.matroska == matroska
        &&& self.encoding == encoding
        &&& self.run == run
        &&& self.input_file_metadata is None
        &&& self.subtitle_files@.len() == 0
        &&& self.ffmpeg_error is None
        &&& self.current_frame == 0
        &&& self.current_fps.bits == 0
        &&& self.progress_history@.len() == 0
        &&& self.progress_history_skips == SKIP_N_FIRST_PROGRESS_EVENTS
    }

    /// A job that is being edited.
    pub fn new(
        paths: PathSettings,
        encoding: EncodingSettings,
        matroska: MatroskaSettings,
        run: RunSettings,
    ) -> (r: Self)
        ensures
            r.is_new(paths, encoding, matroska, run),
    {
        Job {
            status: JobStatus::Editing,
            started_at: None,
            stopped_at: None,
            paths,
            matroska,
            encoding,
            run,
            input_file_metadata: None,
            subtitle_files: Vec::new(),
            ffmpeg_error: None,
            current_frame: 0,
            current_fps: FloatBits { bits: 0 },
            progress_history: VecDeque::with_capacity(PROGRESS_HISTORY_LENGTH),
            progress_history_skips: SKIP_N_FIRST_PROGRESS_EVENTS,
        }
    }

    /// Starts this job. Tells whether subtitle files are to be searched for.
    pub fn start(&mut self, now: Instant) -> (scan: bool)
        ensures
            *final(self) == (Job {
                status: JobStatus::Encoding,
                started_at: Some(now),
                ..*old(self)
            }),
            scan == old(self).paths.scan_for_subtitles,
    {
        self.status = JobStatus::Encoding;
        self.started_at = Some(now);
        self.paths.scan_for_subtitles
    }

    /// Cancels this job.
    pub fn cancel(&mut self)
        ensures
            *final(self) == (Job { status: JobStatus::Cancelled, ..*old(self) }),
    {
        self.status = JobStatus::Cancelled;
    }

    /// Takes this job for finished.
    pub fn finish(&mut self, now: Instant)
        ensures
            *final(self) == (Job {
                status: JobStatus::Finished,
                stopped_at: Some(now),
                ..*old(self)
            }),
    {
        self.status = JobStatus::Finished;
        self.stopped_at = Some(now);
    }

    /// Takes this job for failed.
    pub fn fail(&mut self, error_message: String, now: Instant)
        ensures
            *final(self) == (Job {
                status: JobStatus::Failed,
                ffmpeg_error: Some(error_message),
                stopped_at: Some(now),
                ..*old(self)
            }),
    {
        self.status = JobStatus::Failed;
        self.ffmpeg_error = Some(error_message);
        self.stopped_at = Some(now);
    }

    /// How many seconds of the input file are encoded: all of it but its last second, which may
    /// not be complete, or the given length if that is shorter.
    pub open spec fn spec_seconds_to_encode(self) -> int {
        match self.input_file_metadata {
            None => 0,
            Some(metadata) => {
                let entire: int = if metadata.duration.seconds() == 0 {
                    0
                } else {
                    metadata.duration.seconds() - 1
                };
                if self.run.only_encode_segment && self.run.only_encode_for->0.seconds() < entire {
                    self.run.only_encode_for->0.seconds() as int
                } else {
                    entire
                }
            },
        }
    }

    /// Whether the length of the segment is known where only a segment is encoded.
    pub open spec fn has_segment_length(self) -> bool {
        self.input_file_metadata is Some && self.run.only_encode_segment
            ==> self.run.only_encode_for is Some
    }

    /// How many seconds of the input file are encoded.
    pub fn seconds_to_encode(&self) -> (r: u64)
        requires
            self.has_segment_length(),
        ensures
            r == self.spec_seconds_to_encode(),
            self.input_file_metadata matches Some(m) ==> r <= m.duration.seconds(),
    {
        match &self.input_file_metadata {
            None => 0,
            Some(metadata) => {
                let seconds: u64 = metadata.duration.as_secs();
                let entire: u64 = if seconds == 0 {
                    0
                } else {
                    seconds - 1
                };
                if self.run.only_encode_segment {
                    let length: u64 = match &self.run.only_encode_for {
                        Some(duration) => duration.as_secs(),
                        None => entire,
                    };
                    if length < entire {
                        length
                    } else {
                        entire
                    }
                } else {
                    entire
                }
            },
        }
    }

    /// Whether `after` is `before` once one more progress event was seen. The first events are
    /// skipped.
    pub open spec fn is_updated(
        before: Job,
        after: Job,
        progress: FloatBits,
        now: Instant,
    ) -> bool {
        &&& after == Job {
            progress_history: after.progress_history,
            progress_history_skips: after.progress_history_skips,
            ..before
        }
        &&& if before.progress_history_skips > 0 {
            &&& after.progress_history_skips == before.progress_history_skips - 1
            &&& after.progress_history == before.progress_history
        } else {
            &&& after.progress_history_skips == 0
            &&& after.progress_history@ == remembered(before.progress_history@, (progress, now))
        }
    }

    /// Remembers the progress that was made by now.
    pub fn update_progress_history(&mut self, progress: FloatBits, now: Instant)
        ensures
            Job::is_updated(*old(self), *final(self), progress, now),
    {
        if self.progress_history_skips > 0 {
            self.progress_history_skips -= 1;
            return;
        }
        if self.progress_history.len() >= PROGRESS_HISTORY_LENGTH {
            self.progress_history.pop_front();
        }
        self.progress_history.push_back((progress, now));
    }

    /// How long this job has run so far, in nanoseconds.
    pub open spec fn spec_elapsed(self, now: Instant) -> int {
        match self.started_at {
            Some(start) if start@ <= now@ => now@ - start@,
            _ => 0,
        }
    }

    /// How long this job has run so far.
    pub fn elapsed_time(&self, now: Instant) -> (r: Duration)
        ensures
            r@ == self.spec_elapsed(now),
    {
        match &self.started_at {
            Some(start) => now.duration_since(start),
            None => Duration::zero(),
        }
    }

    /// Whether `r` is what the total time of this job is to be estimated from.
    pub open spec fn is_estimate(self, r: TotalTime, now: Instant) -> bool {
        let history = self.progress_history@;
        match r {
            TotalTime::Unknown => history.len() < MIN_PROGRESS_HISTORY_TO_USE,
            TotalTime::FromHistory { first_progress, last_progress, time_delta, elapsed } => {
                &&& history.len() >= MIN_PROGRESS_HISTORY_TO_USE
                &&& first_progress == history.first().0
                &&& last_progress == history.last().0
                &&& time_delta@ == (if history.first().1@ <= history.last().1@ {
                    history.last().1@ - history.first().1@
                } else {
                    0
                })
                &&& elapsed@ == self.spec_elapsed(now)
            },
        }
    }

    /// Remembers the progress that was made by now, and tells what the total time that this job
    /// will take is to be estimated from. The latest events are used, which are free of the slow
    /// start of ffmpeg.
    pub fn total_time(&mut self, progress: FloatBits, now: Instant) -> (r: TotalTime)
        ensures
            Job::is_updated(*old(self), *final(self), progress, now),
            final(self).is_estimate(r, now),
    {
        self.update_progress_history(progress, now);
        let count: usize = self.progress_history.len();
        if count < MIN_PROGRESS_HISTORY_TO_USE {
            return TotalTime::Unknown;
        }
        let first = self.progress_history[0];
        let last = self.progress_history[count - 1];
        TotalTime::FromHistory {
            first_progress: first.0,
            last_progress: last.0,
            time_delta: last.1.duration_since(&first.1),
            elapsed: self.elapsed_time(now),
        }
    }

    /// The paths of the subtitle files in the given directory, which is that of the input file.
    pub fn subtitle_paths_in(directory: &Directory) -> (r: Result<
        Vec<FilePath>,
        UnreadableDirectory,
    >)
        ensures
            r is Ok <==> subtitles::directory_readable(*directory, SUBTITLE_SEARCH_DEPTH as nat),
            r matches Ok(paths) ==> paths@ == subtitles::subtitle_paths(
                subtitles::entries_of(*directory),
                SUBTITLE_SEARCH_DEPTH as nat,
            ),
    {
        subtitles::gather_subtitle_file_paths_in(directory, SUBTITLE_SEARCH_DEPTH)
    }

    /// Takes the subtitle files that were found in the directory of the input file for those of
    /// this job. Nothing changes where the input file has no directory, or it could not be
    /// searched. The language of a file in which too much is spoken stays unknown. Tells whether
    /// there was no such file.
    pub fn scan_for_subtitle_files(
        &mut self,
        found: &Result<Vec<FoundSubtitles>, UnreadableDirectory>,
    ) -> (all_detectable: bool)
        ensures
            all_detectable == are_detectable(*found),
            *final(self) == (Job { subtitle_files: final(self).subtitle_files, ..*old(self) }),
            match *found {
                Ok(files) if old(self).paths.input_file.parent is Some => {
                    &&& final(self).subtitle_files@.len() == files@.len()
                    &&& forall|i: int|
                        0 <= i < files@.len() ==> describes_where_detectable(
                            #[trigger] final(self).subtitle_files@[i],
                            files@[i],
                        )
                },
                _ => final(self).subtitle_files == old(self).subtitle_files,
            },
    {
        match found {
            Ok(files) => {
                let (described, all_detectable) = describe_all(files);
                if self.paths.input_file.parent.is_some() {
                    self.subtitle_files = described;
                }
                all_detectable
            },
            Err(_) => true,
        }
    }
}

} // verus!
