//! Laws of plain values: spans of time, stored numbers, the segment to encode, languages, copies
//! and messages.

use vstd::prelude::*;

use crate::ffmpeg::CropError;
use crate::job::JobStatus;
use crate::metadata::{AudioStream, StreamError, SubtitleStream};
use crate::model::FileError;
use crate::paths::FilePath;
use crate::settings::{
    ApplicationSettings, AudioChannelLayout, Av1Crf, Av1Preset, MatroskaSettings, OpusBitrate,
    PathError, PathSettings, RunSettings, Settings,
};
use crate::strings::{parse_decimal, parse_u32};
use crate::subtitles::{known_language, Language, LanguageError, SubtitleFile};
use crate::time::{Duration, Instant};

verus! {

// ---------------------------------------------------------------------------------------------
// Time
// ---------------------------------------------------------------------------------------------

/// A span is its whole seconds and what it has beyond them, which is less than a second.
pub proof fn spans_are_seconds_and_the_rest(d: Duration, secs: u64, nanos: u32)
    requires
        call_ensures(Duration::as_secs, (&d,), secs),
        call_ensures(Duration::subsec_nanos, (&d,), nanos),
    ensures
        secs * 1_000_000_000 + nanos == d@,
        nanos < 1_000_000_000,
{
}

/// A span is as long as the seconds and nanoseconds that it is made of.
pub proof fn spans_are_as_long_as_given(
    secs: u64,
    nanos: u32,
    d: Duration,
    whole: Duration,
    zero: Duration,
)
    requires
        call_ensures(Duration::new, (secs, nanos), d),
        call_ensures(Duration::from_secs, (secs,), whole),
        call_ensures(Duration::zero, (), zero),
    ensures
        d@ == secs * 1_000_000_000 + nanos,
        whole@ == secs * 1_000_000_000,
        zero@ == 0,
{
}

/// Taking a span off another leaves what is missing between the two, or nothing.
pub proof fn differences_make_up_the_whole(a: Duration, b: Duration, r: Duration)
    requires
        call_ensures(Duration::saturating_sub, (&a, &b), r),
    ensures
        a@ >= b@ ==> b@ + r@ == a@,
        a@ <= b@ ==> r@ == 0,
{
}

/// The time that has passed between two points in time leads from the earlier to the later one.
/// None has passed since a later point.
pub proof fn passed_time_leads_from_one_point_to_the_other(
    earlier: Duration,
    later: Duration,
    from: Instant,
    to: Instant,
    r: Duration,
    back: Duration,
)
    requires
        earlier@ <= later@,
        call_ensures(Instant::at, (earlier,), from),
        call_ensures(Instant::at, (later,), to),
        call_ensures(Instant::duration_since, (&to, &from), r),
        call_ensures(Instant::duration_since, (&from, &to), back),
    ensures
        earlier@ + r@ == later@,
        back@ == 0,
{
}

// ---------------------------------------------------------------------------------------------
// Numbers
// ---------------------------------------------------------------------------------------------

/// Values of a settings file are taken as they are, within the bounds or not, and given back.
pub proof fn stored_values_are_given_back(
    value: u32,
    crf: Av1Crf,
    preset: Av1Preset,
    bitrate: OpusBitrate,
    r_crf: u32,
    r_preset: u32,
    r_bitrate: u32,
)
    requires
        call_ensures(Av1Crf::from_stored, (value,), crf),
        call_ensures(Av1Preset::from_stored, (value,), preset),
        call_ensures(OpusBitrate::from_stored, (value,), bitrate),
        call_ensures(Av1Crf::value, (&crf,), r_crf),
        call_ensures(Av1Preset::value, (&preset,), r_preset),
        call_ensures(OpusBitrate::value, (&bitrate,), r_bitrate),
    ensures
        r_crf == value && crf@ == value,
        r_preset == value && preset@ == value,
        r_bitrate == value && bitrate@ == value,
{
}

/// A bitrate is divided, rounded down, and brought within 6 and 510.
pub proof fn bitrates_are_divided_within_the_bounds(value: u32, right: u32)
    requires
        right > 0,
    ensures
        ({
            let r = OpusBitrate::divided(value, right);
            &&& 6 <= r <= 510
            &&& 6 * right <= value && value < 511 * right ==> r * right <= value && value < (r + 1)
                * right
            &&& value < 6 * right ==> r == 6
            &&& value >= 511 * right ==> r == 510
        }),
{
    let q = value as int / right as int;
    assert(q * right <= value && value < (q + 1) * right) by (nonlinear_arith)
        requires
            right > 0,
            q == value as int / right as int,
    ;
    assert(q < 6 ==> value < 6 * right) by (nonlinear_arith)
        requires
            right > 0,
            value < (q + 1) * right,
    ;
    assert(q >= 6 ==> value >= 6 * right) by (nonlinear_arith)
        requires
            right > 0,
            value >= q * right,
    ;
    assert(q > 510 ==> value >= 511 * right) by (nonlinear_arith)
        requires
            right > 0,
            value >= q * right,
    ;
    assert(q <= 510 ==> value < 511 * right) by (nonlinear_arith)
        requires
            right > 0,
            value < (q + 1) * right,
    ;
}

/// A number of 32 bits is read as any number is, up to the largest of its kind.
pub proof fn numbers_of_32_bits_are_read(s: &str, r: Option<u32>, wide: Option<u64>)
    requires
        call_ensures(parse_u32, (s,), r),
        call_ensures(parse_decimal, (s, 0xffff_ffffu64), wide),
    ensures
        r is Some <==> wide is Some,
        r is Some ==> r->0 == wide->0,
{
}

// ---------------------------------------------------------------------------------------------
// The segment to encode
// ---------------------------------------------------------------------------------------------

/// A segment is made of its values as they are, where its start is a time or missing, and is
/// refused otherwise.
pub proof fn segments_start_at_times(
    on: bool,
    from: Option<String>,
    length: Option<Duration>,
    r: Result<RunSettings, &'static str>,
    text: &str,
    is_time: bool,
)
    requires
        call_ensures(RunSettings::try_new, (on, from, length), r),
        from matches Some(t) ==> text@ == t@,
        call_ensures(RunSettings::is_valid_time_format, (text,), is_time),
    ensures
        from is None ==> r is Ok,
        from is Some ==> (r is Ok <==> is_time),
        r matches Ok(run) ==> {
            &&& run.only_encode_segment == on
            &&& run.only_encode_for == length
            &&& from is None ==> run.start@ is None
            &&& from is Some ==> run.start@ == Some(from->0@)
        },
{
}

/// A segment of a settings file is taken as it is.
pub proof fn stored_segments_are_kept(
    on: bool,
    from: Option<String>,
    length: Option<Duration>,
    r: RunSettings,
    start: Option<&String>,
)
    requires
        call_ensures(RunSettings::from_stored, (on, from, length), r),
        call_ensures(RunSettings::only_encode_from, (&r,), start),
    ensures
        r.only_encode_segment == on,
        r.only_encode_for == length,
        from is None ==> r.start@ is None && start is None,
        from is Some ==> r.start@ == Some(from->0@) && start is Some && start->0@ == from->0@,
{
}

/// The start of a segment is set where it is a time, and stays as it was otherwise. Nothing else
/// of the segment changes.
pub proof fn only_times_are_set_as_the_start(
    run: &mut RunSettings,
    start: String,
    r: Result<(), &'static str>,
    text: &str,
    is_time: bool,
)
    requires
        call_ensures(RunSettings::set_only_encode_from, (run, start), r),
        text@ == start@,
        call_ensures(RunSettings::is_valid_time_format, (text,), is_time),
    ensures
        r is Ok <==> is_time,
        is_time ==> final(run).start@ == Some(start@),
        !is_time ==> *final(run) == *old(run),
        final(run).only_encode_segment == old(run).only_encode_segment,
        final(run).only_encode_for == old(run).only_encode_for,
{
}

/// The length of a segment is set to as many whole seconds as the text says, and to none where
/// the text is no number of 64 bits.
pub proof fn lengths_are_set_in_seconds(run: &mut RunSettings, seconds: &str, read: Option<u64>)
    requires
        call_ensures(RunSettings::set_only_encode_for, (run, seconds), ()),
        call_ensures(parse_decimal, (seconds, 0xffff_ffff_ffff_ffffu64), read),
    ensures
        final(run).only_encode_for is Some,
        read matches Some(n) ==> final(run).only_encode_for->0@ == n * 1_000_000_000,
        read is None ==> final(run).only_encode_for->0@ == 0,
        final(run).only_encode_segment == old(run).only_encode_segment,
        final(run).start == old(run).start,
{
}

// ---------------------------------------------------------------------------------------------
// Languages
// ---------------------------------------------------------------------------------------------

/// A language gives the code back that it was found by.
pub proof fn languages_give_their_codes_back(
    code: &str,
    found: Option<Language>,
    r: &str,
    known: Result<Language, LanguageError>,
)
    requires
        call_ensures(Language::from_639_3, (code,), found),
        found is Some ==> call_ensures(Language::to_639_3, (&found->0,), r),
        call_ensures(known_language, (found,), known),
    ensures
        found is Some ==> r@ == code@ && known == Ok::<Language, LanguageError>(found->0),
        found is None ==> known == Err::<Language, LanguageError>(LanguageError::InvalidCode),
{
}

// ---------------------------------------------------------------------------------------------
// Copies
// ---------------------------------------------------------------------------------------------

/// A copy is what was copied.
pub proof fn copies_are_equal(
    path: (FilePath, FilePath),
    settings: (Settings, Settings),
    paths: (PathSettings, PathSettings),
    run: (RunSettings, RunSettings),
    matroska: (MatroskaSettings, MatroskaSettings),
    application: (ApplicationSettings, ApplicationSettings),
)
    requires
        call_ensures(FilePath::clone, (&path.0,), path.1),
        call_ensures(Settings::clone, (&settings.0,), settings.1),
        call_ensures(PathSettings::clone, (&paths.0,), paths.1),
        call_ensures(RunSettings::clone, (&run.0,), run.1),
        call_ensures(MatroskaSettings::clone, (&matroska.0,), matroska.1),
        call_ensures(ApplicationSettings::clone, (&application.0,), application.1),
    ensures
        path.1 == path.0,
        settings.1 == settings.0,
        paths.1 == paths.0,
        run.1 == run.0,
        matroska.1 == matroska.0,
        application.1 == application.0,
{
}

/// A copy of a stream, a language or a subtitle file is what was copied.
pub proof fn copies_of_streams_are_equal(
    audio: (AudioStream, AudioStream),
    subtitle: (SubtitleStream, SubtitleStream),
    language: (Language, Language),
    file: (SubtitleFile, SubtitleFile),
)
    requires
        call_ensures(AudioStream::clone, (&audio.0,), audio.1),
        call_ensures(SubtitleStream::clone, (&subtitle.0,), subtitle.1),
        call_ensures(Language::clone, (&language.0,), language.1),
        call_ensures(SubtitleFile::clone, (&file.0,), file.1),
    ensures
        audio.1 == audio.0,
        subtitle.1 == subtitle.0,
        language.1 == language.0,
        file.1 == file.0,
{
}

// ---------------------------------------------------------------------------------------------
// Messages
// ---------------------------------------------------------------------------------------------

/// What is wrong with a path is told in its own words, whoever asks.
pub proof fn path_errors_are_told(error: PathError, message: String, shown: String)
    requires
        call_ensures(PathError::message, (&error,), message),
        call_ensures(FileError::message, (&FileError::Path(error),), shown),
    ensures
        shown@ == message@,
        message@ == match error {
            PathError::InputFileMissing => "Input file does not exist or is not readable."@,
            PathError::OutputIsDirectory => "Path points to a directory and not a file."@,
            PathError::OutputNotWritable => "Output directory can not be written into."@,
            PathError::NoInputFileName => "Input file path has no filename."@,
            PathError::NoOutputDirectory => "Output file path has no directory (parent)."@,
        },
{
}

/// What is wrong with a stream or with the regions in ffmpeg's answers is told in words.
pub proof fn answers_are_told(
    stream: StreamError,
    crop: CropError,
    stream_message: String,
    crop_message: String,
)
    requires
        call_ensures(StreamError::message, (&stream,), stream_message),
        call_ensures(CropError::message, (&crop,), crop_message),
    ensures
        stream matches StreamError::UnsupportedLayout(channels) ==> stream_message@
            == "Unsupported channel layout detected: "@ + channels@,
        stream is NotAudio ==> stream_message@ == "Stream does not contain audio data"@,
        crop == CropError::NothingFound ==> crop_message@
            == "Could not select least cropped parameters."@,
        crop == CropError::Unreadable ==> crop_message@ == "A number of a region is too large."@,
{
}

/// Layouts and states are called by their names.
pub proof fn layouts_and_states_have_names(
    layout: AudioChannelLayout,
    status: JobStatus,
    layout_name: String,
    status_name: String,
)
    requires
        call_ensures(AudioChannelLayout::to_text, (&layout,), layout_name),
        call_ensures(JobStatus::to_text, (&status,), status_name),
    ensures
        layout_name@ == match layout {
            AudioChannelLayout::Mono => "Mono"@,
            AudioChannelLayout::Stereo20 => "Stereo20"@,
            AudioChannelLayout::Surround51 => "Surround51"@,
            AudioChannelLayout::Surround51Side => "Surround51Side"@,
            AudioChannelLayout::Surround71 => "Surround71"@,
        },
        status_name@ == match status {
            JobStatus::Editing => "Editing"@,
            JobStatus::Encoding => "Encoding"@,
            JobStatus::Cancelled => "Cancelled"@,
            JobStatus::Failed => "Failed"@,
            JobStatus::Finished => "Finished"@,
        },
{
}

} // verus!
