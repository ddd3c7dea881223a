//! Laws of the application: what it stores, what a choice of files does, and how encoding starts
//! and ends.

use vstd::prelude::*;

use crate::ffmpeg::CropRegion;
use crate::job::{Job, JobStatus, TotalTime};
use crate::laws::job;
use crate::laws::paths as path_laws;
use crate::metadata::{duration_to_string, FloatBits, InputFileMetadata};
use crate::model::{FileError, InputFileOutcome, Model, OutputFileOutcome, StartOutcome};
use crate::paths::FilePath;
use crate::settings::{ApplicationSettings, PathError, Settings};
use crate::strings;
use crate::time::{Duration, Instant};

verus! {

// ---------------------------------------------------------------------------------------------
// Settings
// ---------------------------------------------------------------------------------------------

/// What is stored right after the start is what was read, and the job starts with it.
pub proof fn settings_survive_a_start(settings: Settings, started: Model, saved: Settings)
    requires
        call_ensures(Model::new, (settings,), started),
        call_ensures(Model::settings_to_save, (&started,), saved),
    ensures
        saved == settings,
        started.settings == settings,
        started.current_job.paths == settings.paths,
        started.current_job.encoding == settings.encoding,
        started.current_job.matroska == settings.matroska,
        started.current_job.run == settings.run,
        started.current_job.status == JobStatus::Editing,
{
}

/// What is stored of the paths, the encoding and the segment is what the job has, and of all else
/// what the application has. All of it is there again after a restart.
pub proof fn edits_survive_a_restart(model: Model, saved: Settings, restarted: Model)
    requires
        call_ensures(Model::settings_to_save, (&model,), saved),
        call_ensures(Model::new, (saved,), restarted),
    ensures
        saved.paths == model.current_job.paths,
        saved.encoding == model.current_job.encoding,
        saved.run == model.current_job.run,
        saved.matroska == model.settings.matroska,
        saved.application == model.settings.application,
        saved.version == model.settings.version,
        restarted.settings == saved,
        restarted.current_job.paths == model.current_job.paths,
        restarted.current_job.encoding == model.current_job.encoding,
        restarted.current_job.run == model.current_job.run,
{
}

/// A reset of the video and audio settings makes them those that the application starts with, and
/// changes nothing else.
pub proof fn a_reset_brings_the_first_encoding_settings_back(model: &mut Model, first: Settings)
    requires
        call_ensures(Model::reset_video_audio_settings, (model,), ()),
        call_ensures(Settings::new, (None,), first),
    ensures
        ({
            let video = final(model).current_job.encoding.video;
            let audio = final(model).current_job.encoding.audio;
            let first_video = first.encoding.video;
            let first_audio = first.encoding.audio;
            &&& video.crf@ == first_video.crf@ && video.preset@ == first_video.preset@
            &&& video.crop == first_video.crop && video.scale == first_video.scale
            &&& video.grain == first_video.grain && video.denoise == first_video.denoise
            &&& video.crop_width is None && video.crop_height is None
            &&& video.crop_x_offset is None && video.crop_y_offset is None
            &&& video.scale_width is None && video.scale_height is None
            &&& audio.bitrate_2_0@ == first_audio.bitrate_2_0@
            &&& audio.bitrate_5_1@ == first_audio.bitrate_5_1@
            &&& audio.bitrate_7_1@ == first_audio.bitrate_7_1@
            &&& audio.downmix_5_1_to_stereo == first_audio.downmix_5_1_to_stereo
            &&& audio.downmix_7_1_to_stereo == first_audio.downmix_7_1_to_stereo
            &&& audio.volume_adjustment == first_audio.volume_adjustment
            &&& audio.re_encode_good_audio_codecs == first_audio.re_encode_good_audio_codecs
            &&& audio.copy == first_audio.copy
        }),
        *final(model) == (Model {
            current_job: Job {
                encoding: final(model).current_job.encoding,
                ..old(model).current_job
            },
            ..*old(model)
        }),
{
}

/// A reset of all settings brings those back that the application starts with, with a new job for
/// which no time has passed.
pub proof fn a_full_reset_starts_anew(model: &mut Model, now: Instant, r: (String, TotalTime))
    requires
        call_ensures(Model::reset_all_settings, (model, now), r),
    ensures
        final(model).settings.paths.input_file.text@.len() == 0,
        final(model).settings.paths.output_file.text@.len() == 0,
        final(model).settings.encoding.video.crf@ == 22,
        final(model).settings.encoding.video.preset@ == 4,
        final(model).current_job.status == JobStatus::Editing,
        final(model).current_job.paths == final(model).settings.paths,
        final(model).current_job.encoding == final(model).settings.encoding,
        final(model).current_job.matroska == final(model).settings.matroska,
        final(model).current_job.run == final(model).settings.run,
        final(model).current_job.input_file_metadata is None,
        final(model).current_job.started_at is None,
        final(model).current_job.progress_history@.len() == 0,
        final(model).current_job.progress_history_skips == 3,
        r.0@ == seq!['0', '0', ':', '0', '0', ':', '0', '0'],
        r.1 == TotalTime::Unknown,
{
    reveal_strlit(":");
    assert(":"@ =~= seq![':']);
    assert(r.0@ =~= seq!['0', '0', ':', '0', '0', ':', '0', '0']);
}

/// The segment is shown as its start and its whole seconds, and as nothing where it has none.
pub proof fn segments_are_shown(model: Model, r: (String, String))
    requires
        call_ensures(Model::segment_texts, (&model,), r),
    ensures
        model.current_job.run.start@ matches Some(start) ==> r.0@ == start,
        model.current_job.run.start@ is None ==> r.0@.len() == 0,
        model.current_job.run.only_encode_for matches Some(length) ==> r.1@ == strings::decimal(
            length@ / 1_000_000_000,
        ),
        model.current_job.run.only_encode_for is None ==> r.1@.len() == 0,
{
}

// ---------------------------------------------------------------------------------------------
// Files
// ---------------------------------------------------------------------------------------------

/// Input files are chosen in the last directory, or else in the video directory, or else in the
/// home directory, and output files in their last directory before all of these.
pub proof fn the_last_directory_comes_first(
    model: Model,
    video: Option<String>,
    home: Option<String>,
    input: String,
    output: String,
)
    requires
        call_ensures(Model::input_dialog_directory, (&model, video, home), input),
        call_ensures(Model::output_dialog_directory, (&model, video, home), output),
    ensures
        model.settings.application.last_input_directory matches Some(last) ==> input@ == last@,
        model.settings.application.last_input_directory is None ==> match (video, home) {
            (Some(v), _) => input@ == v@,
            (None, Some(h)) => input@ == h@,
            (None, None) => input@.len() == 0,
        },
        model.settings.application.last_output_directory matches Some(last) ==> output@ == last@,
        model.settings.application.last_output_directory is None ==> output@ == input@,
{
}

/// The name that is suggested for the output file is that of the input file.
pub proof fn the_name_of_the_input_is_suggested(model: Model, r: String)
    requires
        call_ensures(Model::suggested_output_filename, (&model,), r),
    ensures
        model.current_job.paths.input_file.file_name matches Some(name) ==> r@ == name@,
        model.current_job.paths.input_file.file_name is None ==> r@.len() == 0,
{
}

/// The directory of an input file that was picked is the one that the next is chosen in, and
/// nothing else changes.
pub proof fn picked_input_directories_are_remembered(
    model: &mut Model,
    file_path: FilePath,
    video: Option<String>,
    home: Option<String>,
    next: String,
)
    requires
        call_ensures(Model::remember_input_directory, (model, &file_path), ()),
        call_ensures(Model::input_dialog_directory, (final(model), video, home), next),
    ensures
        file_path.parent matches Some(directory) ==> next@ == directory@,
        *final(model) == (Model {
            settings: Settings {
                application: ApplicationSettings {
                    last_input_directory: file_path.parent,
                    ..old(model).settings.application
                },
                ..old(model).settings
            },
            ..*old(model)
        }),
{
}

/// The directory of an output file that was picked is the one that the next is chosen in, and
/// nothing else changes.
pub proof fn picked_output_directories_are_remembered(
    model: &mut Model,
    file_path: FilePath,
    video: Option<String>,
    home: Option<String>,
    next: String,
)
    requires
        call_ensures(Model::remember_output_directory, (model, &file_path), ()),
        call_ensures(Model::output_dialog_directory, (final(model), video, home), next),
    ensures
        file_path.parent matches Some(directory) ==> next@ == directory@,
        *final(model) == (Model {
            settings: Settings {
                application: ApplicationSettings {
                    last_output_directory: file_path.parent,
                    ..old(model).settings.application
                },
                ..old(model).settings
            },
            ..*old(model)
        }),
{
}

/// An input file is set whatever it is, and nothing else of the model changes. It is accepted
/// where its path is Unicode text, not empty, and that of a file. What is wrong otherwise is
/// told, but nothing of an empty path.
pub proof fn input_files_are_set_and_checked(
    model: &mut Model,
    file_path: FilePath,
    is_unicode: bool,
    input_is_file: bool,
    r: InputFileOutcome,
)
    requires
        call_ensures(Model::set_input_file, (model, file_path, is_unicode, input_is_file), r),
    ensures
        final(model).current_job.paths.input_file == file_path,
        final(model).current_job.paths.output_file == old(model).current_job.paths.output_file,
        final(model).current_job.paths.scan_for_subtitles
            == old(model).current_job.paths.scan_for_subtitles,
        final(model).current_job.paths.sync_output_filename
            == old(model).current_job.paths.sync_output_filename,
        *final(model) == (Model {
            current_job: Job {
                paths: final(model).current_job.paths,
                ..old(model).current_job
            },
            ..*old(model)
        }),
        r.accepted <==> is_unicode && input_is_file && file_path.text@.len() > 0,
        !is_unicode ==> r.error == Some(FileError::NotUnicode),
        is_unicode && !input_is_file && file_path.text@.len() > 0 ==> r.error == Some(
            FileError::Path(PathError::InputFileMissing),
        ),
        r.accepted || (is_unicode && file_path.text@.len() == 0) ==> r.error is None,
{
}

/// Where an input file is accepted, an output file was set and the names go together, the output
/// file gets the name of the input file and stays in its directory. It is emptied where one of the
/// two is missing, and otherwise left alone.
pub proof fn the_output_file_goes_along(
    model: &mut Model,
    file_path: FilePath,
    is_unicode: bool,
    input_is_file: bool,
    r: InputFileOutcome,
)
    requires
        call_ensures(Model::set_input_file, (model, file_path, is_unicode, input_is_file), r),
    ensures
        r.synced_output is Some <==> r.accepted
            && old(model).current_job.paths.sync_output_filename
            && old(model).current_job.paths.output_file.text@.len() > 0,
        r.synced_output matches Some(output) ==> match (
            old(model).current_job.paths.output_file.parent,
            file_path.file_name,
        ) {
            (Some(directory), Some(name)) => path_laws::is_directory(directory@)
                && path_laws::is_file_name(name@) ==> path_laws::joins(
                output,
                directory@,
                name@,
            ),
            _ => output.text@.len() == 0 && output.parent is None && output.file_name is None,
        },
{
    if let Some(output) = r.synced_output {
        let parent = old(model).current_job.paths.output_file.parent;
        if parent is Some && file_path.file_name is Some {
            let directory = parent->0@;
            let name = file_path.file_name->0@;
            if path_laws::is_directory(directory) && path_laws::is_file_name(name) {
                path_laws::paths_in_a_directory_join(output, directory, name);
            }
        }
    }
}

/// Whether the output path ends in a slash.
pub open spec fn output_is_directory(model: Model) -> bool {
    model.current_job.paths.output_file.text@.len() > 0
        && model.current_job.paths.output_file.text@.last() == '/'
}

/// Whether the output path ends in a backslash, which some hosts take for a separator.
pub open spec fn output_ends_in_backslash(model: Model) -> bool {
    model.current_job.paths.output_file.text@.len() > 0
        && model.current_job.paths.output_file.text@.last() == '\\'
}

/// Encoding can start exactly where the input is a file whose metadata has come, and the output is
/// no directory and can be written. Left out are output paths that end in a backslash.
pub proof fn encoding_can_start_when_all_is_there(
    model: Model,
    input_is_file: bool,
    output_is_writable: bool,
    b: bool,
)
    requires
        call_ensures(Model::is_encode_startable, (&model, input_is_file, output_is_writable), b),
        !output_ends_in_backslash(model),
    ensures
        b <==> input_is_file && output_is_writable && !output_is_directory(model)
            && model.current_job.input_file_metadata is Some,
{
}

/// An output file is set whatever it is, and nothing else of the model changes. The settings are
/// stored where nothing is wrong with it, and then encoding can start where all is there. Left out
/// are output paths that end in a backslash.
pub proof fn output_files_are_set_and_checked(
    model: &mut Model,
    file_path: FilePath,
    is_unicode: bool,
    input_is_file: bool,
    output_is_writable: bool,
    r: OutputFileOutcome,
)
    requires
        call_ensures(
            Model::set_output_file,
            (model, file_path, is_unicode, input_is_file, output_is_writable),
            r,
        ),
        !output_ends_in_backslash(*final(model)),
    ensures
        final(model).current_job.paths.output_file == file_path,
        final(model).current_job.paths.input_file == old(model).current_job.paths.input_file,
        final(model).current_job.paths.scan_for_subtitles
            == old(model).current_job.paths.scan_for_subtitles,
        final(model).current_job.paths.sync_output_filename
            == old(model).current_job.paths.sync_output_filename,
        *final(model) == (Model {
            current_job: Job {
                paths: final(model).current_job.paths,
                ..old(model).current_job
            },
            ..*old(model)
        }),
        !is_unicode ==> r.error == Some(FileError::NotUnicode),
        is_unicode && file_path.text@.len() == 0 ==> r.error is None,
        is_unicode && file_path.text@.len() > 0 ==> r.error == (if output_is_directory(
            *final(model),
        ) {
            Some(FileError::Path(PathError::OutputIsDirectory))
        } else if !output_is_writable {
            Some(FileError::Path(PathError::OutputNotWritable))
        } else {
            None
        }),
        r.write_settings <==> r.error is None,
        r.can_start <==> r.error is None && input_is_file && output_is_writable
            && !output_is_directory(*final(model))
            && old(model).current_job.input_file_metadata is Some,
{
}

// ---------------------------------------------------------------------------------------------
// Encoding
// ---------------------------------------------------------------------------------------------

/// A job is started whatever its paths are. Where they are not ready, that is told, and the error
/// and the end stay with the job. Left out are output paths that end in a backslash.
pub proof fn encoding_starts(
    model: &mut Model,
    input_is_file: bool,
    output_is_writable: bool,
    now: Instant,
    r: StartOutcome,
)
    requires
        call_ensures(Model::start_encoding, (model, input_is_file, output_is_writable, now), r),
        !output_ends_in_backslash(*old(model)),
    ensures
        r.error == (if !input_is_file {
            Some(PathError::InputFileMissing)
        } else if output_is_directory(*old(model)) {
            Some(PathError::OutputIsDirectory)
        } else if !output_is_writable {
            Some(PathError::OutputNotWritable)
        } else {
            None
        }),
        r.scan_for_subtitles == old(model).current_job.paths.scan_for_subtitles,
        final(model).settings == old(model).settings,
        final(model).current_job.status == JobStatus::Encoding,
        final(model).current_job.started_at == Some(now),
        job::does_the_same(final(model).current_job, old(model).current_job),
        job::has_come_as_far(final(model).current_job, old(model).current_job),
        r.error is None ==> {
            &&& final(model).current_job.ffmpeg_error == old(model).current_job.ffmpeg_error
            &&& final(model).current_job.stopped_at == old(model).current_job.stopped_at
        },
        r.error is Some ==> {
            &&& final(model).current_job.stopped_at == Some(now)
            &&& final(model).current_job.ffmpeg_error is Some
        },
{
}

/// The error that stays with a job that was not ready is the message of what was wrong.
pub proof fn the_error_stays_with_the_job(
    model: &mut Model,
    input_is_file: bool,
    output_is_writable: bool,
    now: Instant,
    r: StartOutcome,
    message: String,
)
    requires
        call_ensures(Model::start_encoding, (model, input_is_file, output_is_writable, now), r),
        r.error matches Some(e) ==> call_ensures(PathError::message, (&e,), message),
    ensures
        r.error is Some ==> (final(model).current_job.ffmpeg_error matches Some(told) && told@
            == message@),
{
}

/// A cancelled job has no progress left to show, and keeps what it does.
pub proof fn encoding_is_cancelled(model: &mut Model)
    requires
        call_ensures(Model::cancel_encoding, (model,), ()),
    ensures
        final(model).settings == old(model).settings,
        final(model).current_job.status == JobStatus::Cancelled,
        final(model).current_job.current_frame == 0,
        final(model).current_job.current_fps.bits == 0,
        job::does_the_same(final(model).current_job, old(model).current_job),
        final(model).current_job.started_at == old(model).current_job.started_at,
        final(model).current_job.stopped_at == old(model).current_job.stopped_at,
        final(model).current_job.ffmpeg_error == old(model).current_job.ffmpeg_error,
        final(model).current_job.progress_history == old(model).current_job.progress_history,
{
}

/// A job that has failed keeps its error and the time at which it came.
pub proof fn encoding_fails(model: &mut Model, error_message: String, now: Instant)
    requires
        call_ensures(Model::fail_encoding, (model, error_message, now), ()),
    ensures
        final(model).settings == old(model).settings,
        final(model).current_job.status == JobStatus::Failed,
        final(model).current_job.ffmpeg_error == Some(error_message),
        final(model).current_job.stopped_at == Some(now),
        final(model).current_job.started_at == old(model).current_job.started_at,
        job::does_the_same(final(model).current_job, old(model).current_job),
        job::has_come_as_far(final(model).current_job, old(model).current_job),
{
}

/// A job that is finished keeps the frame that it has come to, at no speed, and tells how long it
/// has run, as clocks do.
pub proof fn encoding_finishes(
    model: &mut Model,
    progress: FloatBits,
    now: Instant,
    r: (String, TotalTime),
    elapsed: Duration,
    clock: String,
)
    requires
        call_ensures(Model::finish_encoding, (model, progress, now), r),
        call_ensures(Job::elapsed_time, (&old(model).current_job, now), elapsed),
        call_ensures(duration_to_string, (&elapsed,), clock),
    ensures
        final(model).settings == old(model).settings,
        final(model).current_job.status == JobStatus::Finished,
        final(model).current_job.stopped_at == Some(now),
        final(model).current_job.started_at == old(model).current_job.started_at,
        final(model).current_job.ffmpeg_error == old(model).current_job.ffmpeg_error,
        final(model).current_job.current_frame == old(model).current_job.current_frame,
        final(model).current_job.current_fps.bits == 0,
        job::does_the_same(final(model).current_job, old(model).current_job),
        job::follow_events(
            seq![
                (Job {
                    status: JobStatus::Finished,
                    stopped_at: Some(now),
                    current_fps: FloatBits { bits: 0 },
                    ..old(model).current_job
                }),
                final(model).current_job,
            ],
            seq![(progress, now)],
        ),
        r.0@ == clock@,
        job::estimates(r.1, final(model).current_job, now),
{
}

/// Noting the times of a job remembers its progress, and tells how long it has run, as clocks do,
/// and what the total time is estimated from.
pub proof fn times_are_told(
    model: &mut Model,
    progress: FloatBits,
    now: Instant,
    r: (String, TotalTime),
    elapsed: Duration,
    clock: String,
)
    requires
        call_ensures(Model::update_job_times, (model, progress, now), r),
        call_ensures(Job::elapsed_time, (&old(model).current_job, now), elapsed),
        call_ensures(duration_to_string, (&elapsed,), clock),
    ensures
        final(model).settings == old(model).settings,
        job::follow_events(
            seq![old(model).current_job, final(model).current_job],
            seq![(progress, now)],
        ),
        r.0@ == clock@,
        job::estimates(r.1, final(model).current_job, now),
{
}

/// Metadata is taken over where it has come, and the former one kept where none has. Nothing else
/// changes.
pub proof fn metadata_is_taken_over(model: &mut Model, received: Option<InputFileMetadata>)
    requires
        call_ensures(Model::collect_input_file_metadata, (model, received), ()),
    ensures
        received is Some ==> final(model).current_job.input_file_metadata == received,
        received is None ==> *final(model) == *old(model),
        *final(model) == (Model {
            current_job: Job {
                input_file_metadata: final(model).current_job.input_file_metadata,
                ..old(model).current_job
            },
            ..*old(model)
        }),
{
}

/// A region that was detected becomes the one to cut to, number for number, and is stored. Whether
/// the cut is switched on, and all else, stays as it was.
pub proof fn detected_regions_are_taken_over(
    model: &mut Model,
    received: Option<CropRegion>,
    write_settings: bool,
)
    requires
        call_ensures(Model::collect_crop_data, (model, received), write_settings),
    ensures
        write_settings <==> received is Some,
        received is None ==> *final(model) == *old(model),
        received matches Some(region) ==> {
            let video = final(model).current_job.encoding.video;
            let before = old(model).current_job.encoding.video;
            &&& video.crop_width == Some(region.0)
            &&& video.crop_height == Some(region.1)
            &&& video.crop_x_offset == Some(region.2)
            &&& video.crop_y_offset == Some(region.3)
            &&& video.crop == before.crop
            &&& video.scale == before.scale
            &&& video.scale_width == before.scale_width
            &&& video.scale_height == before.scale_height
            &&& video.crf == before.crf && video.preset == before.preset
            &&& video.grain == before.grain && video.denoise == before.denoise
        },
        final(model).current_job.encoding.audio == old(model).current_job.encoding.audio,
        *final(model) == (Model {
            current_job: Job {
                encoding: final(model).current_job.encoding,
                ..old(model).current_job
            },
            ..*old(model)
        }),
{
}

/// Progress that ffmpeg tells is shown, without any nothing changes, and nothing else changes.
pub proof fn progress_is_shown(model: &mut Model, received: Option<(i32, FloatBits)>)
    requires
        call_ensures(Model::collect_progress_from_ffmpeg, (model, received), ()),
    ensures
        received is None ==> *final(model) == *old(model),
        received matches Some(progress) ==> {
            &&& final(model).current_job.current_frame == progress.0
            &&& final(model).current_job.current_fps == progress.1
        },
        *final(model) == (Model {
            current_job: Job {
                current_frame: final(model).current_job.current_frame,
                current_fps: final(model).current_job.current_fps,
                ..old(model).current_job
            },
            ..*old(model)
        }),
{
}

/// Progress is shown as it is given, and nothing else changes.
pub proof fn progress_is_shown_as_given(model: &mut Model, frame: i32, fps: FloatBits)
    requires
        call_ensures(Model::update_progress_of_current_job, (model, frame, fps), ()),
    ensures
        final(model).current_job.current_frame == frame,
        final(model).current_job.current_fps == fps,
        *final(model) == (Model {
            current_job: Job {
                current_frame: final(model).current_job.current_frame,
                current_fps: final(model).current_job.current_fps,
                ..old(model).current_job
            },
            ..*old(model)
        }),
{
}

/// A job ends as it is told: finished, with its times, or failed, with the message.
pub proof fn jobs_end_as_told(
    model: &mut Model,
    status: JobStatus,
    message: String,
    progress: FloatBits,
    now: Instant,
    r: Option<(String, TotalTime)>,
    elapsed: Duration,
    clock: String,
)
    requires
        status == JobStatus::Finished || status == JobStatus::Failed,
        call_ensures(Model::collect_finished, (model, status, message, progress, now), r),
        call_ensures(Job::elapsed_time, (&old(model).current_job, now), elapsed),
        call_ensures(duration_to_string, (&elapsed,), clock),
    ensures
        final(model).current_job.status == status,
        final(model).current_job.stopped_at == Some(now),
        final(model).settings == old(model).settings,
        job::does_the_same(final(model).current_job, old(model).current_job),
        final(model).current_job.current_frame == old(model).current_job.current_frame,
        final(model).current_job.started_at == old(model).current_job.started_at,
        r is Some <==> status == JobStatus::Finished,
        r matches Some(times) ==> times.0@ == clock@ && job::estimates(
            times.1,
            final(model).current_job,
            now,
        ) && final(model).current_job.current_fps.bits == 0,
        status == JobStatus::Failed ==> job::has_come_as_far(
            final(model).current_job,
            old(model).current_job,
        ),
        status == JobStatus::Failed ==> final(model).current_job.ffmpeg_error == Some(message),
        status == JobStatus::Finished ==> final(model).current_job.ffmpeg_error
            == old(model).current_job.ffmpeg_error,
{
}

} // verus!
