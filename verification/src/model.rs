//! What the application knows, and what it does when the user or ffmpeg does something.

use vstd::prelude::*;

use crate::ffmpeg::CropRegion;
use crate::job::{Job, JobStatus, TotalTime, SKIP_N_FIRST_PROGRESS_EVENTS};
use crate::metadata;
use crate::metadata::{FloatBits, InputFileMetadata};
use crate::paths;
use crate::paths::FilePath;
use crate::settings::{AudioSettings, PathError, Settings, VideoSettings};
use crate::strings;
use crate::time::{Instant, NANOS_PER_SEC};

verus! {

/// What is wrong with a path that was chosen.
#[derive(Debug, Clone, Copy, PartialEq, Eq, Structural)]
pub enum FileError {
    NotUnicode,
    Path(PathError),
}

impl FileError {
    /// The message that is shown to the user.
    pub open spec fn spec_message(self) -> Seq<char> {
        match self {
            FileError::NotUnicode => "Could not convert path into valid string. Unicode problem?"@,
            FileError::Path(e) => e.spec_message(),
        }
    }

    /// The message that is shown to the user.
    pub fn message(&self) -> (r: String)
        ensures
            r@ == self.spec_message(),
    {
        match self {
            FileError::NotUnicode => {
                "Could not convert path into valid string. Unicode problem?".to_string()
            },
            FileError::Path(e) => e.message(),
        }
    }
}

/// What is to be done after an input file was set. Encoding can not start before the metadata has
/// come.
#[derive(Debug, PartialEq)]
pub struct InputFileOutcome {
    /// What is wrong with the path.
    pub error: Option<FileError>,
    /// Whether the metadata of the file is to be retrieved, and the settings are to be stored.
    pub accepted: bool,
    /// The output file that is to be set, where it follows the input file.
    pub synced_output: Option<FilePath>,
}

/// What is to be done after an output file was set.
#[derive(Debug, Clone, Copy, PartialEq, Eq, Structural)]
pub struct OutputFileOutcome {
    /// What is wrong with the path.
    pub error: Option<FileError>,
    /// Whether encoding can start.
    pub can_start: bool,
    /// Whether the settings are to be stored.
    pub write_settings: bool,
}

/// What is to be done when encoding starts.
#[derive(Debug, Clone, Copy, PartialEq, Eq, Structural)]
pub struct StartOutcome {
    /// Why the job has failed before it was started.
    pub error: Option<PathError>,
    /// Whether subtitle files are to be searched for.
    pub scan_for_subtitles: bool,
}

/// The first of two texts that is there.
pub open spec fn first_text(a: Option<Seq<char>>, b: Option<Seq<char>>) -> Option<Seq<char>> {
    match a {
        Some(_) => a,
        None => b,
    }
}

/// The text, or the empty one where it is missing.
pub open spec fn text_or_empty(text: Option<Seq<char>>) -> Seq<char> {
    match text {
        Some(t) => t,
        None => Seq::empty(),
    }
}

fn first_of(a: &Option<String>, b: Option<String>) -> (r: Option<String>)
    ensures
        paths::optional_text(r) == first_text(paths::optional_text(*a), paths::optional_text(b)),
{
    match a {
        Some(text) => Some(text.clone()),
        None => b,
    }
}

fn or_empty(text: Option<String>) -> (r: String)
    ensures
        r@ == text_or_empty(paths::optional_text(text)),
{
    match text {
        Some(text) => text,
        None => String::new(),
    }
}

/// The settings of the application and the job that is being edited or encoded.
#[derive(Debug)]
pub struct Model {
    pub settings: Settings,
    pub current_job: Job,
}

impl Model {
    /// Whether the settings that are not edited in the job agree with those of the job.
    pub open spec fn is_consistent(self) -> bool {
        self.settings.matroska == self.current_job.matroska
    }

    /// Whether this is what the application starts with, given the stored settings.
    pub open spec fn is_started_with(self, settings: Settings) -> bool {
        &&& self.settings == settings
        &&& self.current_job.is_new(
            settings.paths,
            settings.encoding,
            settings.matroska,
            settings.run,
        )
    }

    /// The settings to store: those of the job, and those of the application for the rest.
    pub open spec fn saved_settings(self) -> Settings {
        Settings {
            paths: self.current_job.paths,
            encoding: self.current_job.encoding,
            run: self.current_job.run,
            ..self.settings
        }
    }

    /// What the application starts with.
    pub fn new(settings: Settings) -> (r: Self)
        ensures
            r.is_started_with(settings),
            r.is_consistent(),
    {
        Model {
            current_job: Job::new(
                settings.paths.clone(),
                settings.encoding,
                settings.matroska.clone(),
                settings.run.clone(),
            ),
            settings,
        }
    }

    /// The settings to store.
    pub fn settings_to_save(&self) -> (r: Settings)
        ensures
            r == self.saved_settings(),
    {
        let mut settings = self.settings.clone();
        settings.paths = self.current_job.paths.clone();
        settings.encoding = self.current_job.encoding;
        settings.run = self.current_job.run.clone();
        settings
    }

    /// A restart erases no value: what is stored and read back brings all settings back, and would
    /// be stored again as it is.
    pub proof fn a_restart_erases_nothing(before: Model, after: Model)
        requires
            before.is_consistent(),
            after.is_started_with(before.saved_settings()),
        ensures
            after.current_job.paths == before.current_job.paths,
            after.current_job.encoding == before.current_job.encoding,
            after.current_job.matroska == before.current_job.matroska,
            after.current_job.run == before.current_job.run,
            after.settings.application == before.settings.application,
            after.settings.version == before.settings.version,
            after.saved_settings() == before.saved_settings(),
            after.is_consistent(),
    {
    }

    // -----------------------------------------------------------------------------------------
    // Files
    // -----------------------------------------------------------------------------------------

    /// The directory to choose an input file in: the last one, or else the video directory or the
    /// home directory of the user.
    pub fn input_dialog_directory(
        &self,
        video_directory: Option<String>,
        home_directory: Option<String>,
    ) -> (r: String)
        ensures
            r@ == text_or_empty(
                first_text(
                    paths::optional_text(self.settings.application.last_input_directory),
                    first_text(
                        paths::optional_text(video_directory),
                        paths::optional_text(home_directory),
                    ),
                ),
            ),
    {
        let of_user = first_of(&video_directory, home_directory);
        or_empty(first_of(&self.settings.application.last_input_directory, of_user))
    }

    /// The directory to choose an output file in: the last one, or else the last one of an input
    /// file, the video directory or the home directory of the user.
    pub fn output_dialog_directory(
        &self,
        video_directory: Option<String>,
        home_directory: Option<String>,
    ) -> (r: String)
        ensures
            r@ == text_or_empty(
                first_text(
                    paths::optional_text(self.settings.application.last_output_directory),
                    first_text(
                        paths::optional_text(self.settings.application.last_input_directory),
                        first_text(
                            paths::optional_text(video_directory),
                            paths::optional_text(home_directory),
                        ),
                    ),
                ),
            ),
    {
        let of_user = first_of(&video_directory, home_directory);
        let of_input = first_of(&self.settings.application.last_input_directory, of_user);
        or_empty(first_of(&self.settings.application.last_output_directory, of_input))
    }

    /// The file name to suggest for the output file: that of the input file.
    pub fn suggested_output_filename(&self) -> (r: String)
        ensures
            r@ == text_or_empty(paths::optional_text(self.current_job.paths.input_file.file_name)),
    {
        or_empty(paths::clone_text(&self.current_job.paths.input_file.file_name))
    }

    /// Remembers the directory of an input file that was picked.
    pub fn remember_input_directory(&mut self, file_path: &FilePath)
        ensures
            final(self).current_job == old(self).current_job,
            final(self).settings == (Settings {
                application: final(self).settings.application,
                ..old(self).settings
            }),
            final(self).settings.application.last_input_directory == file_path.parent,
            final(self).settings.application.last_output_directory
                == old(self).settings.application.last_output_directory,
            final(self).settings.application.dark_mode == old(self).settings.application.dark_mode,
            final(self).settings.application.advanced_settings
                == old(self).settings.application.advanced_settings,
    {
        self.settings.application.last_input_directory = paths::clone_text(&file_path.parent);
    }

    /// Remembers the directory of an output file that was picked.
    pub fn remember_output_directory(&mut self, file_path: &FilePath)
        ensures
            final(self).current_job == old(self).current_job,
            final(self).settings == (Settings {
                application: final(self).settings.application,
                ..old(self).settings
            }),
            final(self).settings.application.last_output_directory == file_path.parent,
            final(self).settings.application.last_input_directory
                == old(self).settings.application.last_input_directory,
            final(self).settings.application.dark_mode == old(self).settings.application.dark_mode,
            final(self).settings.application.advanced_settings
                == old(self).settings.application.advanced_settings,
    {
        self.settings.application.last_output_directory = paths::clone_text(&file_path.parent);
    }

    /// Whether `after` is `before` with another input file.
    pub open spec fn differs_in_input_file(
        before: Model,
        after: Model,
        file_path: FilePath,
    ) -> bool {
        &&& after.settings == before.settings
        &&& after.current_job.paths.input_file == file_path
        &&& after.current_job.paths.output_file == before.current_job.paths.output_file
        &&& after.current_job.paths.scan_for_subtitles
            == before.current_job.paths.scan_for_subtitles
        &&& after.current_job.paths.sync_output_filename
            == before.current_job.paths.sync_output_filename
        &&& after.current_job == (Job { paths: after.current_job.paths, ..before.current_job })
    }

    /// Whether `after` is `before` with another output file.
    pub open spec fn differs_in_output_file(
        before: Model,
        after: Model,
        file_path: FilePath,
    ) -> bool {
        &&& after.settings == before.settings
        &&& after.current_job.paths.output_file == file_path
        &&& after.current_job.paths.input_file == before.current_job.paths.input_file
        &&& after.current_job.paths.scan_for_subtitles
            == before.current_job.paths.scan_for_subtitles
        &&& after.current_job.paths.sync_output_filename
            == before.current_job.paths.sync_output_filename
        &&& after.current_job == (Job { paths: after.current_job.paths, ..before.current_job })
    }

    /// Whether `synced` is the output file with the file name of the input file in the directory
    /// of the output file, or the empty path where one of the two is missing.
    pub open spec fn is_synced_output(self, synced: FilePath) -> bool {
        let name = self.current_job.paths.input_file.file_name;
        let directory = self.current_job.paths.output_file.parent;
        if name is Some && directory is Some {
            synced.is_in_directory(directory->0@, name->0@)
        } else {
            synced.text@.len() == 0 && synced.parent is None && synced.file_name is None
        }
    }

    /// Sets the input file, given whether its path is Unicode text, and whether it is that of a
    /// file. Where an output file was set and its name follows that of the input file, tells which
    /// output file is to be set.
    pub fn set_input_file(
        &mut self,
        file_path: FilePath,
        is_unicode: bool,
        input_is_file: bool,
    ) -> (r: InputFileOutcome)
        ensures
            Model::differs_in_input_file(*old(self), *final(self), file_path),
            r.error == (if !is_unicode {
                Some(FileError::NotUnicode)
            } else if file_path.text@.len() > 0 && !input_is_file {
                Some(FileError::Path(PathError::InputFileMissing))
            } else {
                None
            }),
            r.accepted == (is_unicode && file_path.text@.len() > 0 && input_is_file),
            r.synced_output is Some <==> r.accepted
                && old(self).current_job.paths.output_file.text@.len() > 0
                && old(self).current_job.paths.sync_output_filename,
            r.synced_output matches Some(p) ==> final(self).is_synced_output(p),
            old(self).is_consistent() ==> final(self).is_consistent(),
    {
        self.current_job.paths.input_file = file_path;
        if !is_unicode {
            return InputFileOutcome {
                error: Some(FileError::NotUnicode),
                accepted: false,
                synced_output: None,
            };
        }
        let paths = &self.current_job.paths;
        if paths.input_file.is_empty() {
            return InputFileOutcome { error: None, accepted: false, synced_output: None };
        }
        if let Err(e) = paths.assert_that_input_file_is_ready_for_encoding(input_is_file) {
            return InputFileOutcome {
                error: Some(FileError::Path(e)),
                accepted: false,
                synced_output: None,
            };
        }
        let synced_output = if !paths.output_file.is_empty() && paths.sync_output_filename {
            match paths.output_file_path_with_inputs_filename() {
                Ok(path) => Some(path),
                Err(_) => Some(FilePath::empty()),
            }
        } else {
            None
        };
        InputFileOutcome { error: None, accepted: true, synced_output }
    }

    /// Whether `b` says whether encoding can start, given whether the input path is that of a
    /// file and whether the output directory can be written into.
    pub open spec fn is_startability(
        self,
        b: bool,
        input_is_file: bool,
        output_is_writable: bool,
    ) -> bool {
        exists|checks: Result<(), PathError>|
            #![trigger self.current_job.paths.is_outcome_of_checks(
                checks,
                input_is_file,
                output_is_writable,
            )]
            self.current_job.paths.is_outcome_of_checks(
                checks,
                input_is_file,
                output_is_writable,
            ) && b == (checks is Ok && self.current_job.input_file_metadata is Some)
    }

    /// Whether all is there for the encoding to start.
    pub fn is_encode_startable(&self, input_is_file: bool, output_is_writable: bool) -> (b: bool)
        ensures
            self.is_startability(b, input_is_file, output_is_writable),
            b ==> input_is_file && output_is_writable
                && self.current_job.input_file_metadata is Some,
    {
        self.current_job.paths.assert_that_is_ready_for_encoding(
            input_is_file,
            output_is_writable,
        ).is_ok() && self.current_job.input_file_metadata.is_some()
    }

    /// Sets the output file, given whether its path is Unicode text, whether the input path is
    /// that of a file, and whether the output directory can be written into.
    pub fn set_output_file(
        &mut self,
        file_path: FilePath,
        is_unicode: bool,
        input_is_file: bool,
        output_is_writable: bool,
    ) -> (r: OutputFileOutcome)
        ensures
            Model::differs_in_output_file(*old(self), *final(self), file_path),
            !is_unicode ==> r.error == Some(FileError::NotUnicode),
            is_unicode && file_path.text@.len() == 0 ==> r.error is None,
            is_unicode && file_path.text@.len() > 0 ==> match r.error {
                None => final(self).current_job.paths.is_outcome_of_checks(
                    Ok(()),
                    true,
                    output_is_writable,
                ),
                Some(e) => e is Path && final(self).current_job.paths.is_outcome_of_checks(
                    Err(e->Path_0),
                    true,
                    output_is_writable,
                ),
            },
            r.write_settings == r.error is None,
            r.error is Some ==> !r.can_start,
            r.error is None ==> final(self).is_startability(
                r.can_start,
                input_is_file,
                output_is_writable,
            ),
            old(self).is_consistent() ==> final(self).is_consistent(),
    {
        self.current_job.paths.output_file = file_path;
        if !is_unicode {
            return OutputFileOutcome {
                error: Some(FileError::NotUnicode),
                can_start: false,
                write_settings: false,
            };
        }
        if !self.current_job.paths.output_file.is_empty() {
            if let Err(e) = self.current_job.paths.assert_that_output_file_is_ready_for_encoding(
                output_is_writable,
            ) {
                return OutputFileOutcome {
                    error: Some(FileError::Path(e)),
                    can_start: false,
                    write_settings: false,
                };
            }
        }
        OutputFileOutcome {
            error: None,
            can_start: self.is_encode_startable(input_is_file, output_is_writable),
            write_settings: true,
        }
    }

    /// Opening another input file leaves all settings but the two paths as they are, and the
    /// output file stays in its directory and takes the name of the input file.
    pub proof fn opening_a_file_keeps_the_settings(
        before: Model,
        opened: Model,
        after: Model,
        file_path: FilePath,
        synced: FilePath,
    )
        requires
            Model::differs_in_input_file(before, opened, file_path),
            opened.is_synced_output(synced),
            Model::differs_in_output_file(opened, after, synced),
        ensures
            after.settings == before.settings,
            after.current_job.encoding == before.current_job.encoding,
            after.current_job.run == before.current_job.run,
            after.current_job.matroska == before.current_job.matroska,
            after.current_job.paths.scan_for_subtitles
                == before.current_job.paths.scan_for_subtitles,
            after.current_job.paths.sync_output_filename
                == before.current_job.paths.sync_output_filename,
            after.current_job.paths.input_file == file_path,
            file_path.file_name is Some && before.current_job.paths.output_file.parent is Some ==> {
                let name = file_path.file_name->0@;
                let directory = before.current_job.paths.output_file.parent->0@;
                let output = after.current_job.paths.output_file;
                &&& output.is_in_directory(directory, name)
                &&& paths::is_plain_name(name) && !paths::has_double_start(directory) ==> {
                    &&& paths::is_directory_and_name(output.text@, directory, name)
                    &&& paths::is_bare_directory(directory) && paths::is_joined_by_slash(
                        output.text@,
                        directory,
                        name,
                    ) ==> {
                        &&& paths::optional_text(output.parent) == Some(directory)
                        &&& paths::optional_text(output.file_name) == Some(name)
                    }
                }
            },
    {
        if file_path.file_name is Some && before.current_job.paths.output_file.parent is Some {
            let name = file_path.file_name->0@;
            let directory = before.current_job.paths.output_file.parent->0@;
            if paths::is_plain_name(name) && !paths::has_double_start(directory)
                && paths::is_bare_directory(directory) && paths::is_joined_by_slash(
                synced.text@,
                directory,
                name,
            ) {
                paths::joined_paths_start_simply(synced.text@, directory, name);
            }
        }
    }

    // -----------------------------------------------------------------------------------------
    // Encoding
    // -----------------------------------------------------------------------------------------

    /// Puts the job into the state of encoding. Where the paths are not ready, the job is taken
    /// for failed before that, and its error stays with it.
    pub fn start_encoding(
        &mut self,
        input_is_file: bool,
        output_is_writable: bool,
        now: Instant,
    ) -> (r: StartOutcome)
        ensures
            final(self).settings == old(self).settings,
            r.scan_for_subtitles == old(self).current_job.paths.scan_for_subtitles,
            match r.error {
                None => {
                    &&& old(self).current_job.paths.is_outcome_of_checks(
                        Ok(()),
                        input_is_file,
                        output_is_writable,
                    )
                    &&& final(self).current_job == (Job {
                        status: JobStatus::Encoding,
                        started_at: Some(now),
                        ..old(self).current_job
                    })
                },
                Some(e) => {
                    &&& old(self).current_job.paths.is_outcome_of_checks(
                        Err(e),
                        input_is_file,
                        output_is_writable,
                    )
                    &&& final(self).current_job == (Job {
                        status: JobStatus::Encoding,
                        started_at: Some(now),
                        stopped_at: Some(now),
                        ffmpeg_error: final(self).current_job.ffmpeg_error,
                        ..old(self).current_job
                    })
                    &&& paths::optional_text(final(self).current_job.ffmpeg_error) == Some(
                        e.spec_message(),
                    )
                },
            },
            old(self).is_consistent() ==> final(self).is_consistent(),
    {
        let checks = self.current_job.paths.assert_that_is_ready_for_encoding(
            input_is_file,
            output_is_writable,
        );
        let error = match checks {
            Ok(_) => None,
            Err(e) => {
                self.fail_encoding(e.message(), now);
                Some(e)
            },
        };
        let scan_for_subtitles = self.current_job.start(now);
        StartOutcome { error, scan_for_subtitles }
    }

    /// Takes the job for cancelled, without any progress.
    pub fn cancel_encoding(&mut self)
        ensures
            final(self).settings == old(self).settings,
            final(self).current_job == (Job {
                status: JobStatus::Cancelled,
                current_frame: 0,
                current_fps: FloatBits { bits: 0 },
                ..old(self).current_job
            }),
            old(self).is_consistent() ==> final(self).is_consistent(),
    {
        self.current_job.cancel();
        self.update_progress_of_current_job(0, FloatBits { bits: 0 });
    }

    /// Takes the job for failed.
    pub fn fail_encoding(&mut self, error_message: String, now: Instant)
        ensures
            final(self).settings == old(self).settings,
            final(self).current_job == (Job {
                status: JobStatus::Failed,
                ffmpeg_error: Some(error_message),
                stopped_at: Some(now),
                ..old(self).current_job
            }),
            old(self).is_consistent() ==> final(self).is_consistent(),
    {
        self.current_job.fail(error_message, now);
    }

    /// A job that has come to its end, before that is taken for a progress event.
    pub open spec fn finished_job(job: Job, now: Instant) -> Job {
        Job {
            status: JobStatus::Finished,
            stopped_at: Some(now),
            current_fps: FloatBits { bits: 0 },
            ..job
        }
    }

    /// Takes the job for finished. It keeps the frame it has come to, and with it its progress.
    /// Tells its times.
    pub fn finish_encoding(&mut self, progress: FloatBits, now: Instant) -> (r: (String, TotalTime))
        ensures
            final(self).settings == old(self).settings,
            Job::is_updated(
                Model::finished_job(old(self).current_job, now),
                final(self).current_job,
                progress,
                now,
            ),
            Model::are_job_times(r, old(self).current_job, final(self).current_job, now),
            old(self).is_consistent() ==> final(self).is_consistent(),
    {
        self.current_job.finish(now);
        let frame: i32 = self.current_job.current_frame;
        self.update_progress_of_current_job(frame, FloatBits { bits: 0 });
        self.update_job_times(progress, now)
    }

    /// Notes how far ffmpeg has come, and how fast it is.
    pub fn update_progress_of_current_job(&mut self, current_frame: i32, current_fps: FloatBits)
        ensures
            final(self).settings == old(self).settings,
            final(self).current_job == (Job {
                current_frame,
                current_fps,
                ..old(self).current_job
            }),
            old(self).is_consistent() ==> final(self).is_consistent(),
    {
        self.current_job.current_fps = current_fps;
        self.current_job.current_frame = current_frame;
    }

    /// Whether `r` are the times of a job: how long it has run, in the form in which it is shown,
    /// and what its total time is to be estimated from, once the last progress was remembered.
    pub open spec fn are_job_times(
        r: (String, TotalTime),
        before: Job,
        after: Job,
        now: Instant,
    ) -> bool {
        &&& r.0@ == metadata::clock_text((before.spec_elapsed(now) / NANOS_PER_SEC as int) as nat)
        &&& after.is_estimate(r.1, now)
    }

    /// Remembers the progress that was made by now, and tells the times of the job.
    pub fn update_job_times(&mut self, progress: FloatBits, now: Instant) -> (r: (
        String,
        TotalTime,
    ))
        ensures
            final(self).settings == old(self).settings,
            Job::is_updated(old(self).current_job, final(self).current_job, progress, now),
            Model::are_job_times(r, old(self).current_job, final(self).current_job, now),
            old(self).is_consistent() ==> final(self).is_consistent(),
    {
        let elapsed = self.current_job.elapsed_time(now);
        let text = metadata::duration_to_string(&elapsed);
        let total = self.current_job.total_time(progress, now);
        (text, total)
    }

    /// Takes over the metadata of the input file, if there is any.
    pub fn collect_input_file_metadata(&mut self, received: Option<InputFileMetadata>)
        ensures
            final(self).settings == old(self).settings,
            final(self).current_job == (Job {
                input_file_metadata: match received {
                    Some(_) => received,
                    None => old(self).current_job.input_file_metadata,
                },
                ..old(self).current_job
            }),
            old(self).is_consistent() ==> final(self).is_consistent(),
    {
        if received.is_some() {
            self.current_job.input_file_metadata = received;
        }
    }

    /// Takes over the region that was detected, if there is one. Tells whether the settings are to
    /// be stored.
    pub fn collect_crop_data(&mut self, received: Option<CropRegion>) -> (write_settings: bool)
        ensures
            final(self).settings == old(self).settings,
            final(self).current_job == (Job {
                encoding: final(self).current_job.encoding,
                ..old(self).current_job
            }),
            final(self).current_job.encoding.audio == old(self).current_job.encoding.audio,
            final(self).current_job.encoding.video == (match received {
                Some((width, height, x_offset, y_offset)) => VideoSettings {
                    crop_width: Some(width),
                    crop_height: Some(height),
                    crop_x_offset: Some(x_offset),
                    crop_y_offset: Some(y_offset),
                    ..old(self).current_job.encoding.video
                },
                None => old(self).current_job.encoding.video,
            }),
            write_settings == received is Some,
            old(self).is_consistent() ==> final(self).is_consistent(),
    {
        match received {
            Some((width, height, x_offset, y_offset)) => {
                self.current_job.encoding.video.crop_width = Some(width);
                self.current_job.encoding.video.crop_height = Some(height);
                self.current_job.encoding.video.crop_x_offset = Some(x_offset);
                self.current_job.encoding.video.crop_y_offset = Some(y_offset);
                true
            },
            None => false,
        }
    }

    /// Notes how far ffmpeg has come, if it has told so.
    pub fn collect_progress_from_ffmpeg(&mut self, received: Option<(i32, FloatBits)>)
        ensures
            final(self).settings == old(self).settings,
            final(self).current_job == (match received {
                Some((frame, fps)) => Job {
                    current_frame: frame,
                    current_fps: fps,
                    ..old(self).current_job
                },
                None => old(self).current_job,
            }),
            old(self).is_consistent() ==> final(self).is_consistent(),
    {
        if let Some((frame, fps)) = received {
            self.update_progress_of_current_job(frame, fps);
        }
    }

    /// Takes over the end that the job has come to, which is one of two. Tells the times of a job
    /// that is finished.
    pub fn collect_finished(
        &mut self,
        status: JobStatus,
        message: String,
        progress: FloatBits,
        now: Instant,
    ) -> (r: Option<(String, TotalTime)>)
        requires
            status == JobStatus::Finished || status == JobStatus::Failed,
        ensures
            final(self).settings == old(self).settings,
            r is Some <==> status == JobStatus::Finished,
            r matches Some(times) ==> {
                &&& Job::is_updated(
                    Model::finished_job(old(self).current_job, now),
                    final(self).current_job,
                    progress,
                    now,
                )
                &&& Model::are_job_times(
                    times,
                    old(self).current_job,
                    final(self).current_job,
                    now,
                )
            },
            r is None ==> final(self).current_job == (Job {
                status,
                ffmpeg_error: Some(message),
                stopped_at: Some(now),
                ..old(self).current_job
            }),
            old(self).is_consistent() ==> final(self).is_consistent(),
    {
        if status == JobStatus::Finished {
            Some(self.finish_encoding(progress, now))
        } else {
            self.fail_encoding(message, now);
            None
        }
    }

    // -----------------------------------------------------------------------------------------
    // Settings
    // -----------------------------------------------------------------------------------------

    /// Resets the audio and video settings.
    pub fn reset_video_audio_settings(&mut self)
        ensures
            final(self).settings == old(self).settings,
            final(self).current_job == (Job {
                encoding: final(self).current_job.encoding,
                ..old(self).current_job
            }),
            final(self).current_job.encoding.is_default(),
            old(self).is_consistent() ==> final(self).is_consistent(),
    {
        self.current_job.encoding.video = VideoSettings::default();
        self.current_job.encoding.audio = AudioSettings::default();
    }

    /// Resets all settings, including the paths and those of the application, and the job, which
    /// has one progress event without progress behind it then. Tells its times.
    pub fn reset_all_settings(&mut self, now: Instant) -> (r: (String, TotalTime))
        ensures
            final(self).settings.is_default(),
            (Model {
                current_job: Job {
                    progress_history_skips: SKIP_N_FIRST_PROGRESS_EVENTS,
                    ..final(self).current_job
                },
                ..*final(self)
            }).is_started_with(final(self).settings),
            final(self).current_job.progress_history_skips == SKIP_N_FIRST_PROGRESS_EVENTS - 1,
            r.0@ == metadata::clock_text(0),
            r.1 == TotalTime::Unknown,
            final(self).is_consistent(),
    {
        *self = Model::new(Settings::default());
        self.update_job_times(FloatBits { bits: 0 }, now)
    }

    /// The start and the length of the segment to encode, in the form in which they are shown.
    pub fn segment_texts(&self) -> (r: (String, String))
        ensures
            r.0@ == text_or_empty(self.current_job.run.start@),
            r.1@ == (match self.current_job.run.only_encode_for {
                Some(length) => strings::decimal(length.seconds()),
                None => Seq::empty(),
            }),
    {
        let from = match self.current_job.run.only_encode_from() {
            Some(time) => time.clone(),
            None => String::new(),
        };
        let length = match &self.current_job.run.only_encode_for {
            Some(duration) => strings::decimal_string(duration.as_secs()),
            None => String::new(),
        };
        (from, length)
    }
}

} // verus!
