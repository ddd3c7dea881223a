//! Laws of jobs: how they come to their ends, what they remember of their progress, and the
//! subtitle files that they find.

use vstd::prelude::*;

use crate::job::{FoundSubtitles, Job, JobStatus, TotalTime};
use crate::metadata::FloatBits;
use crate::paths::FilePath;
use crate::settings::{EncodingSettings, MatroskaSettings, PathSettings, RunSettings};
use crate::subtitles::{
    detect_type_of_subtitle_file_type, gather_subtitle_file_paths_in,
    try_detect_language_of_subtitle_file, Directory, Language, LanguageError, SubTitleType,
    UnreadableDirectory,
};
use crate::time::{Duration, Instant};

verus! {

// ---------------------------------------------------------------------------------------------
// States
// ---------------------------------------------------------------------------------------------

/// Whether two jobs have the same settings, metadata and subtitle files.
pub open spec fn does_the_same(job: Job, other: Job) -> bool {
    &&& job.paths == other.paths
    &&& job.matroska == other.matroska
    &&& job.encoding == other.encoding
    &&& job.run == other.run
    &&& job.input_file_metadata == other.input_file_metadata
    &&& job.subtitle_files == other.subtitle_files
}

/// Whether two jobs have made the same progress.
pub open spec fn has_come_as_far(job: Job, other: Job) -> bool {
    &&& job.current_frame == other.current_frame
    &&& job.current_fps == other.current_fps
    &&& job.progress_history == other.progress_history
    &&& job.progress_history_skips == other.progress_history_skips
}

/// A new job is edited with the settings it was made with, knows nothing of its input, and has
/// neither started nor come anywhere.
pub proof fn new_jobs_are_edited(
    paths: PathSettings,
    encoding: EncodingSettings,
    matroska: MatroskaSettings,
    run: RunSettings,
    r: Job,
)
    requires
        call_ensures(Job::new, (paths, encoding, matroska, run), r),
    ensures
        r.status == JobStatus::Editing,
        r.paths == paths && r.encoding == encoding && r.matroska == matroska && r.run == run,
        r.started_at is None && r.stopped_at is None,
        r.input_file_metadata is None && r.ffmpeg_error is None,
        r.subtitle_files@.len() == 0,
        r.current_frame == 0 && r.current_fps.bits == 0,
        r.progress_history@.len() == 0,
        r.progress_history_skips == 4,
{
}

/// A started job is being encoded since then, and tells whether subtitle files are wanted. All
/// else stays as it was.
pub proof fn a_started_job_is_being_encoded(job: &mut Job, now: Instant, scan: bool)
    requires
        call_ensures(Job::start, (job, now), scan),
    ensures
        final(job).status == JobStatus::Encoding,
        final(job).started_at == Some(now),
        final(job).stopped_at == old(job).stopped_at,
        final(job).ffmpeg_error == old(job).ffmpeg_error,
        does_the_same(*final(job), *old(job)),
        has_come_as_far(*final(job), *old(job)),
        scan == old(job).paths.scan_for_subtitles,
{
}

/// A cancelled job keeps all but its state.
pub proof fn a_cancelled_job_keeps_all_else(job: &mut Job)
    requires
        call_ensures(Job::cancel, (job,), ()),
    ensures
        final(job).status == JobStatus::Cancelled,
        final(job).started_at == old(job).started_at,
        final(job).stopped_at == old(job).stopped_at,
        final(job).ffmpeg_error == old(job).ffmpeg_error,
        does_the_same(*final(job), *old(job)),
        has_come_as_far(*final(job), *old(job)),
{
}

/// A job that is finished stops then and keeps all else.
pub proof fn a_finished_job_stops(job: &mut Job, now: Instant)
    requires
        call_ensures(Job::finish, (job, now), ()),
    ensures
        final(job).status == JobStatus::Finished,
        final(job).started_at == old(job).started_at,
        final(job).stopped_at == Some(now),
        final(job).ffmpeg_error == old(job).ffmpeg_error,
        does_the_same(*final(job), *old(job)),
        has_come_as_far(*final(job), *old(job)),
{
}

/// A job that has failed stops then, with its error, and keeps all else.
pub proof fn a_failed_job_stops_with_its_error(job: &mut Job, error_message: String, now: Instant)
    requires
        call_ensures(Job::fail, (job, error_message, now), ()),
    ensures
        final(job).status == JobStatus::Failed,
        final(job).started_at == old(job).started_at,
        final(job).stopped_at == Some(now),
        final(job).ffmpeg_error == Some(error_message),
        does_the_same(*final(job), *old(job)),
        has_come_as_far(*final(job), *old(job)),
{
}

// ---------------------------------------------------------------------------------------------
// Progress
// ---------------------------------------------------------------------------------------------

/// What is encoded is the input without its last second, or the length of the segment where only
/// a segment is encoded and that is shorter. Nothing is encoded of an unknown or empty input.
pub proof fn the_shorter_of_input_and_segment_is_encoded(job: Job, r: u64)
    requires
        job.run.only_encode_segment ==> job.run.only_encode_for is Some,
        call_ensures(Job::seconds_to_encode, (&job,), r),
    ensures
        call_requires(Job::seconds_to_encode, (&job,)),
        job.input_file_metadata is None ==> r == 0,
        job.input_file_metadata matches Some(metadata) ==> {
            let whole = metadata.duration@ / 1_000_000_000;
            &&& whole == 0 ==> r == 0
            &&& whole > 0 ==> r <= whole - 1
            &&& !job.run.only_encode_segment && whole > 0 ==> r == whole - 1
            &&& job.run.only_encode_segment ==> {
                let segment = job.run.only_encode_for->0@ / 1_000_000_000;
                &&& r <= segment
                &&& r == segment || r == whole - 1 || whole == 0
            }
        },
{
}

/// Whether `jobs` are the states of a job through progress events, one after the other.
pub open spec fn follow_events(jobs: Seq<Job>, events: Seq<(FloatBits, Instant)>) -> bool {
    &&& jobs.len() == events.len() + 1
    &&& forall|i: int|
        0 <= i < events.len() ==> Job::is_updated(
            jobs[i],
            jobs[i + 1],
            (#[trigger] events[i]).0,
            events[i].1,
        )
}

/// A progress event is noted the way in which the history of a job is made.
pub proof fn progress_updates_follow_each_other(job: &mut Job, progress: FloatBits, now: Instant)
    requires
        call_ensures(Job::update_progress_history, (job, progress, now), ()),
    ensures
        follow_events(seq![*old(job), *final(job)], seq![(progress, now)]),
{
}

/// A job remembers the latest twenty of its progress events but for the first four, in their
/// order, and progress events change nothing else of it.
pub proof fn the_latest_progress_is_remembered(jobs: Seq<Job>, events: Seq<(FloatBits, Instant)>)
    requires
        follow_events(jobs, events),
        jobs[0].progress_history@.len() == 0,
        jobs[0].progress_history_skips == 4,
    ensures
        events.len() <= 4 ==> jobs.last().progress_history@.len() == 0,
        4 < events.len() <= 24 ==> jobs.last().progress_history@ == events.skip(4),
        events.len() > 24 ==> jobs.last().progress_history@ == events.skip(events.len() - 20),
        events.len() < 4 ==> jobs.last().progress_history_skips == 4 - events.len(),
        events.len() >= 4 ==> jobs.last().progress_history_skips == 0,
        does_the_same(jobs.last(), jobs[0]),
        jobs.last().status == jobs[0].status,
        jobs.last().started_at == jobs[0].started_at,
        jobs.last().stopped_at == jobs[0].stopped_at,
        jobs.last().ffmpeg_error == jobs[0].ffmpeg_error,
        jobs.last().current_frame == jobs[0].current_frame,
        jobs.last().current_fps == jobs[0].current_fps,
    decreases events.len(),
{
    if events.len() > 0 {
        let n = events.len() as int;
        let shorter = jobs.drop_last();
        let earlier = events.drop_last();
        assert forall|i: int| 0 <= i < earlier.len() implies Job::is_updated(
            shorter[i],
            shorter[i + 1],
            (#[trigger] earlier[i]).0,
            earlier[i].1,
        ) by {
            assert(earlier[i] == events[i]);
            assert(shorter[i + 1] == jobs[i + 1]);
        }
        the_latest_progress_is_remembered(shorter, earlier);
        let event = events[n - 1];
        assert(Job::is_updated(jobs[n - 1], jobs[n - 1 + 1], event.0, event.1));
        assert(shorter.last() == jobs[n - 1]);
        let history = jobs.last().progress_history@;
        if n > 4 {
            assert(event == (event.0, event.1));
            if n <= 24 {
                if n == 5 {
                    assert(history =~= events.skip(4));
                } else {
                    assert(earlier.skip(4).push(event) =~= events.skip(4));
                    assert(history =~= events.skip(4));
                }
            } else {
                assert(history =~= events.skip(n - 20));
            }
        }
    }
}

/// A job runs from its start until now, and not at all before it was started.
pub proof fn jobs_run_since_their_start(job: Job, now: Instant, r: Duration)
    requires
        call_ensures(Job::elapsed_time, (&job, now), r),
    ensures
        job.started_at matches Some(start) ==> (start@ <= now@ ==> start@ + r@ == now@),
        job.started_at matches Some(start) ==> (start@ > now@ ==> r@ == 0),
        job.started_at is None ==> r@ == 0,
{
}

/// Whether `r` says what the total time of a job is estimated from at a point in time: nothing
/// where fewer than three events are remembered, and otherwise the first and the last of them, the
/// time between the two, and how long the job has run.
pub open spec fn estimates(r: TotalTime, job: Job, now: Instant) -> bool {
    let history = job.progress_history@;
    &&& r == TotalTime::Unknown <==> history.len() < 3
    &&& r matches TotalTime::FromHistory { first_progress, last_progress, time_delta, elapsed }
        ==> {
        let first = history[0];
        let last = history[history.len() - 1];
        &&& first_progress == first.0
        &&& last_progress == last.0
        &&& first.1@ <= last.1@ ==> first.1@ + time_delta@ == last.1@
        &&& first.1@ > last.1@ ==> time_delta@ == 0
        &&& job.started_at matches Some(start) ==> (start@ <= now@ ==> start@ + elapsed@ == now@)
        &&& job.started_at matches Some(start) ==> (start@ > now@ ==> elapsed@ == 0)
        &&& job.started_at is None ==> elapsed@ == 0
    }
}

/// The total time is estimated once three events are remembered, of which the one that is noted
/// is the last.
pub proof fn three_events_make_an_estimate(
    job: &mut Job,
    progress: FloatBits,
    now: Instant,
    r: TotalTime,
)
    requires
        call_ensures(Job::total_time, (job, progress, now), r),
    ensures
        estimates(r, *final(job), now),
        follow_events(seq![*old(job), *final(job)], seq![(progress, now)]),
{
}

// ---------------------------------------------------------------------------------------------
// Subtitle files
// ---------------------------------------------------------------------------------------------

/// Subtitle files are searched for ten levels deep.
pub proof fn the_search_is_ten_levels_deep(
    directory: Directory,
    r: Result<Vec<FilePath>, UnreadableDirectory>,
    gathered: Result<Vec<FilePath>, UnreadableDirectory>,
)
    requires
        call_ensures(Job::subtitle_paths_in, (&directory,), r),
        call_ensures(gather_subtitle_file_paths_in, (&directory, 10u32), gathered),
    ensures
        r is Ok <==> gathered is Ok,
        r is Ok ==> r->Ok_0@ == gathered->Ok_0@,
{
}

/// The subtitle files that were found become those of the job, all of them in their order, each
/// with its own path, what its name says of it, and the language that is detected in it, if one
/// is.
pub proof fn found_subtitles_become_those_of_the_job(
    job: &mut Job,
    found: Result<Vec<FoundSubtitles>, UnreadableDirectory>,
    all_detectable: bool,
    i: int,
    kind: SubTitleType,
    detected: Option<Result<Language, LanguageError>>,
)
    requires
        call_ensures(Job::scan_for_subtitle_files, (job, &found), all_detectable),
        old(job).paths.input_file.parent is Some,
        found is Ok,
        0 <= i < found->Ok_0@.len(),
        call_ensures(
            detect_type_of_subtitle_file_type,
            (&found->Ok_0@[i].path,),
            kind,
        ),
        call_ensures(
            try_detect_language_of_subtitle_file,
            (&found->Ok_0@[i].path, &found->Ok_0@[i].lines),
            detected,
        ),
    ensures
        final(job).subtitle_files@.len() == found->Ok_0@.len(),
        final(job).subtitle_files@[i].path == found->Ok_0@[i].path,
        final(job).subtitle_files@[i].kind == kind,
        match detected {
            Some(Ok(language)) => final(job).subtitle_files@[i].language matches Some(l) && l@
                == language@,
            _ => final(job).subtitle_files@[i].language is None,
        },
        all_detectable ==> detected is Some,
{
    let file = final(job).subtitle_files@[i];
    let given = found->Ok_0@[i];
    assert(crate::job::describes_where_detectable(file, given));
}

/// Nothing becomes of a search that failed or of an input file without a directory, and whatever
/// was found changes nothing of a job but its subtitle files.
pub proof fn a_search_changes_only_the_subtitle_files(
    job: &mut Job,
    found: Result<Vec<FoundSubtitles>, UnreadableDirectory>,
    all_detectable: bool,
)
    requires
        call_ensures(Job::scan_for_subtitle_files, (job, &found), all_detectable),
    ensures
        *final(job) == (Job { subtitle_files: final(job).subtitle_files, ..*old(job) }),
        found is Err || old(job).paths.input_file.parent is None ==> *final(job) == *old(job),
        found is Err ==> all_detectable,
{
}

} // verus!
