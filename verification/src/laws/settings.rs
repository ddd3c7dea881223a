//! Laws of the settings: bitrates, codecs, filters, times and checks.

use vstd::prelude::*;

use crate::laws::texts;
use crate::settings::{
    AudioChannelLayout, AudioSettings, Av1Crf, Av1Preset, OpusBitrate, PathError, PathSettings,
    RunSettings, Settings, VideoSettings,
};
use crate::strings;

verus! {

// ---------------------------------------------------------------------------------------------
// Audio
// ---------------------------------------------------------------------------------------------

/// Each layout that is not mixed down has the very bitrate that was set for it: stereo that of
/// stereo, 5.1 and 5.1(side) that of 5.1, and 7.1 that of 7.1.
pub proof fn layouts_have_the_bitrates_that_were_set(
    audio: AudioSettings,
    stereo: OpusBitrate,
    surround_5_1: OpusBitrate,
    surround_5_1_side: OpusBitrate,
    surround_7_1: OpusBitrate,
)
    requires
        call_ensures(
            AudioSettings::bitrate_for_layout,
            (&audio, &AudioChannelLayout::Stereo20),
            stereo,
        ),
        call_ensures(
            AudioSettings::bitrate_for_layout,
            (&audio, &AudioChannelLayout::Surround51),
            surround_5_1,
        ),
        call_ensures(
            AudioSettings::bitrate_for_layout,
            (&audio, &AudioChannelLayout::Surround51Side),
            surround_5_1_side,
        ),
        call_ensures(
            AudioSettings::bitrate_for_layout,
            (&audio, &AudioChannelLayout::Surround71),
            surround_7_1,
        ),
    ensures
        stereo@ == audio.bitrate_2_0@,
        !audio.downmix_5_1_to_stereo ==> surround_5_1@ == audio.bitrate_5_1@,
        !audio.downmix_5_1_to_stereo ==> surround_5_1_side@ == audio.bitrate_5_1@,
        !audio.downmix_7_1_to_stereo ==> surround_7_1@ == audio.bitrate_7_1@,
{
}

/// A surround layout that is mixed down to stereo has the bitrate that was set for stereo, and
/// whether one of them is mixed down does not concern the other.
pub proof fn mixed_down_layouts_have_the_bitrate_of_stereo(
    audio: AudioSettings,
    surround_5_1: OpusBitrate,
    surround_5_1_side: OpusBitrate,
    surround_7_1: OpusBitrate,
)
    requires
        call_ensures(
            AudioSettings::bitrate_for_layout,
            (&audio, &AudioChannelLayout::Surround51),
            surround_5_1,
        ),
        call_ensures(
            AudioSettings::bitrate_for_layout,
            (&audio, &AudioChannelLayout::Surround51Side),
            surround_5_1_side,
        ),
        call_ensures(
            AudioSettings::bitrate_for_layout,
            (&audio, &AudioChannelLayout::Surround71),
            surround_7_1,
        ),
    ensures
        audio.downmix_5_1_to_stereo ==> surround_5_1@ == audio.bitrate_2_0@,
        audio.downmix_5_1_to_stereo ==> surround_5_1_side@ == audio.bitrate_2_0@,
        audio.downmix_7_1_to_stereo ==> surround_7_1@ == audio.bitrate_2_0@,
{
}

/// Mono has half of the bitrate of stereo, rounded down, but never less than 6 nor more than 510.
pub proof fn mono_has_half_of_the_bitrate_of_stereo(audio: AudioSettings, mono: OpusBitrate)
    requires
        call_ensures(AudioSettings::bitrate_for_layout, (&audio, &AudioChannelLayout::Mono), mono),
    ensures
        6 <= mono@ <= 510,
        12 <= audio.bitrate_2_0@ <= 1021 ==> 2 * mono@ <= audio.bitrate_2_0@ < 2 * mono@ + 2,
        audio.bitrate_2_0@ < 12 ==> mono@ == 6,
        audio.bitrate_2_0@ > 1021 ==> mono@ == 510,
{
}

/// Audio in opus, vorbis or mp3 is kept unless good codecs are to be encoded again, and audio in
/// any other codec is always encoded again.
pub proof fn only_good_codecs_are_kept(audio: AudioSettings, codec: &str, b: bool)
    requires
        call_ensures(AudioSettings::should_re_encode, (&audio, codec), b),
    ensures
        audio.re_encode_good_audio_codecs ==> b,
        codec@ == "opus"@ && !audio.re_encode_good_audio_codecs ==> !b,
        codec@ == "vorbis"@ && !audio.re_encode_good_audio_codecs ==> !b,
        codec@ == "mp3"@ && !audio.re_encode_good_audio_codecs ==> !b,
        codec@ != "opus"@ && codec@ != "vorbis"@ && codec@ != "mp3"@ ==> b,
{
}

/// The values that are accepted: rate factors up to 63, presets up to 8, bitrates from 6 to 510.
/// What is accepted is kept as it is.
pub proof fn values_within_the_bounds_are_kept(
    value: u32,
    crf: Result<Av1Crf, String>,
    preset: Result<Av1Preset, String>,
    bitrate: Result<OpusBitrate, String>,
)
    requires
        call_ensures(Av1Crf::new, (value,), crf),
        call_ensures(Av1Preset::new, (value,), preset),
        call_ensures(OpusBitrate::new, (value,), bitrate),
    ensures
        crf is Ok <==> value <= 63,
        preset is Ok <==> value <= 8,
        bitrate is Ok <==> 6 <= value <= 510,
        crf matches Ok(v) ==> v@ == value,
        preset matches Ok(v) ==> v@ == value,
        bitrate matches Ok(v) ==> v@ == value,
{
}

// ---------------------------------------------------------------------------------------------
// Video
// ---------------------------------------------------------------------------------------------

/// Whether `text` is the number in decimal notation, or `otherwise` where there is no number.
pub open spec fn says(text: Seq<char>, number: Option<u32>, otherwise: Seq<char>) -> bool {
    &&& number matches Some(n) ==> text == strings::decimal(n as nat)
    &&& number is None ==> text == otherwise
}

/// Whether `filter` cuts the picture to the chosen width, height and place. Where nothing was
/// chosen, the picture keeps its size and the place is left to ffmpeg.
pub open spec fn cuts(
    filter: Seq<char>,
    width: Option<u32>,
    height: Option<u32>,
    x: Option<u32>,
    y: Option<u32>,
) -> bool {
    exists|w: Seq<char>, h: Seq<char>, left: Seq<char>, top: Seq<char>|
        #![trigger
            says(w, width, "iw"@),
            says(h, height, "ih"@),
            says(left, x, ""@),
            says(top, y, ""@)
        ]
        {
            &&& says(w, width, "iw"@)
            &&& says(h, height, "ih"@)
            &&& says(left, x, ""@)
            &&& says(top, y, ""@)
            &&& filter == "crop="@ + w + ":"@ + h + ":"@ + left + ":"@ + top
        }
}

/// Whether `filter` brings the picture to the chosen width and height, which stay as they are
/// where nothing was chosen.
pub open spec fn scales(filter: Seq<char>, width: Option<u32>, height: Option<u32>) -> bool {
    exists|w: Seq<char>, h: Seq<char>|
        #![trigger says(w, width, "iw"@), says(h, height, "ih"@)]
        {
            &&& says(w, width, "iw"@)
            &&& says(h, height, "ih"@)
            &&& filter == "scale="@ + w + ":"@ + h + ":flags=bicubic:param0=0:param1=1/2"@
        }
}

/// Whether `filters` are the filters that are switched on: the cut to the chosen numbers, the
/// scaling to the chosen numbers, or both of them in this order with a comma between.
pub open spec fn are_the_filters(filters: Seq<char>, video: VideoSettings) -> bool {
    exists|cut: Seq<char>, scaled: Seq<char>|
        #![trigger
            cuts(
                cut,
                video.crop_width,
                video.crop_height,
                video.crop_x_offset,
                video.crop_y_offset,
            ),
            scales(scaled, video.scale_width, video.scale_height)
        ]
        {
            &&& cuts(
                cut,
                video.crop_width,
                video.crop_height,
                video.crop_x_offset,
                video.crop_y_offset,
            )
            &&& scales(scaled, video.scale_width, video.scale_height)
            &&& video.crop && !video.scale ==> filters == cut
            &&& !video.crop && video.scale ==> filters == scaled
            &&& video.crop && video.scale ==> filters == cut + ","@ + scaled
        }
}

pub(crate) proof fn filters_are_the_filters(video: VideoSettings)
    ensures
        are_the_filters(strings::join(video.filters(), ","@), video),
{
    let w = crate::settings::number_or(video.crop_width, "iw"@);
    let h = crate::settings::number_or(video.crop_height, "ih"@);
    let left = crate::settings::number_or(video.crop_x_offset, ""@);
    let top = crate::settings::number_or(video.crop_y_offset, ""@);
    let cut = video.crop_filter();
    assert(says(w, video.crop_width, "iw"@));
    assert(says(h, video.crop_height, "ih"@));
    assert(says(left, video.crop_x_offset, ""@));
    assert(says(top, video.crop_y_offset, ""@));
    assert(cuts(
        cut,
        video.crop_width,
        video.crop_height,
        video.crop_x_offset,
        video.crop_y_offset,
    ));
    let scaled = video.scale_filter();
    assert(says(crate::settings::number_or(video.scale_width, "iw"@), video.scale_width, "iw"@));
    assert(says(crate::settings::number_or(video.scale_height, "ih"@), video.scale_height, "ih"@));
    assert(scales(scaled, video.scale_width, video.scale_height));
    texts::two_pieces_are_joined(cut, scaled, ","@);
    texts::joining_puts_the_separator_between(seq![], cut, ","@);
    texts::joining_puts_the_separator_between(seq![], scaled, ","@);
    assert(video.crop && video.scale ==> video.filters() =~= seq![cut, scaled]);
    assert(video.crop && !video.scale ==> video.filters() =~= seq![cut]);
    assert(!video.crop && video.scale ==> video.filters() =~= seq![scaled]);
}

/// Where a filter is switched on, the filter arguments are `-vf` and the filters that are
/// switched on, and where none is there are no such arguments.
pub proof fn filters_that_are_on_are_passed_on(video: VideoSettings, args: Vec<String>)
    requires
        call_ensures(VideoSettings::filter_args, (&video,), args),
    ensures
        video.crop || video.scale ==> args@.len() == 2 && args@[0]@ == "-vf"@ && are_the_filters(
            args@[1]@,
            video,
        ),
        !video.crop && !video.scale ==> args@.len() == 0,
{
    filters_are_the_filters(video);
    texts::texts_are_those_of_the_strings(args@);
    let all = strings::texts(args@);
    if video.crop || video.scale {
        assert(all[0] == args@[0]@);
        assert(all[1] == args@[1]@);
    }
}

/// The parameters of the AV1 encoder end in the chosen film grain and in whether it replaces the
/// noise, and are otherwise always the same.
pub proof fn the_encoder_gets_grain_and_denoise(video: VideoSettings, args: Vec<String>)
    requires
        call_ensures(VideoSettings::av1_args, (&video,), args),
    ensures
        args@.len() == 2,
        args@[0]@ == "-svtav1-params"@,
        args@[1]@
            == "tune=0:sharpness=1:input-depth=10:enable-qm=1:qm-min=0:keyint=300:aq-mode=2:sharpness=1:irefresh-type=2:film-grain="@
            + strings::decimal(video.grain as nat) + ":film-grain-denoise="@ + (if video.denoise {
            seq!['1']
        } else {
            seq!['0']
        }),
{
    texts::texts_are_those_of_the_strings(args@);
    let all = strings::texts(args@);
    assert(all[0] == args@[0]@);
    assert(all[1] == args@[1]@);
    assert(strings::decimal(0) =~= seq!['0']);
    assert(strings::decimal(1) =~= seq!['1']);
}

// ---------------------------------------------------------------------------------------------
// Run
// ---------------------------------------------------------------------------------------------

/// A time is hours, minutes and seconds with a colon between each two of them, where the hours
/// fit in 32 bits and minutes and seconds are below 60; nothing else is a time.
pub proof fn times_have_hours_minutes_and_seconds(time: &str, b: bool)
    requires
        call_ensures(RunSettings::is_valid_time_format, (time,), b),
    ensures
        b <==> exists|h: Seq<char>, m: Seq<char>, s: Seq<char>|
            time@ == #[trigger] (h + seq![':'] + m + seq![':'] + s) && strings::parsed(
                h,
                0xffff_ffff,
            ) is Some && strings::parsed(m, 59) is Some && strings::parsed(s, 59) is Some,
{
    let parts = strings::split(time@, ':');
    let glue = seq![':'];
    if b {
        strings::joining_undoes_split(time@, ':');
        texts::two_pieces_are_joined(parts[0], parts[1], glue);
        texts::joining_puts_the_separator_between(
            seq![parts[0], parts[1]],
            parts[2],
            glue,
        );
        assert(parts =~= seq![parts[0], parts[1]].push(parts[2]));
        assert(time@ == parts[0] + seq![':'] + parts[1] + seq![':'] + parts[2]);
    }
    if exists|h: Seq<char>, m: Seq<char>, s: Seq<char>|
        time@ == #[trigger] (h + seq![':'] + m + seq![':'] + s) && strings::parsed(h, 0xffff_ffff)
            is Some && strings::parsed(m, 59) is Some && strings::parsed(s, 59) is Some {
        let (h, m, s) = choose|h: Seq<char>, m: Seq<char>, s: Seq<char>|
            time@ == #[trigger] (h + seq![':'] + m + seq![':'] + s) && strings::parsed(
                h,
                0xffff_ffff,
            ) is Some && strings::parsed(m, 59) is Some && strings::parsed(s, 59) is Some;
        numbers_hold_no_colon(h, 0xffff_ffff);
        numbers_hold_no_colon(m, 59);
        numbers_hold_no_colon(s, 59);
        strings::split_without_separator(h, ':');
        strings::split_after_separator(h, ':', m);
        strings::split_after_separator(h + seq![':'] + m, ':', s);
        assert(parts =~= seq![h, m, s]);
    }
}

proof fn numbers_hold_no_colon(s: Seq<char>, max: nat)
    requires
        strings::parsed(s, max) is Some,
    ensures
        !s.contains(':'),
{
    let digits = strings::unsigned_part(s);
    assert forall|i: int| 0 <= i < s.len() implies s[i] != ':' by {
        if s[0] == '+' {
            if i > 0 {
                assert(strings::is_digit(digits[i - 1]));
            }
        } else {
            assert(strings::is_digit(digits[i]));
        }
    }
}

/// Without stored settings the application starts with its own, and stored settings are taken as
/// they are.
pub proof fn the_first_settings(stored: Option<Settings>, r: Settings)
    requires
        call_ensures(Settings::new, (stored,), r),
    ensures
        stored matches Some(s) ==> r == s,
        stored is None ==> {
            &&& r.version == 1
            &&& r.paths.input_file.text@ == ""@
            &&& r.paths.input_file.parent is None && r.paths.input_file.file_name is None
            &&& r.paths.output_file.text@ == ""@
            &&& r.paths.output_file.parent is None && r.paths.output_file.file_name is None
            &&& r.paths.scan_for_subtitles
            &&& r.paths.sync_output_filename
            &&& r.encoding.video.crf@ == 22
            &&& r.encoding.video.preset@ == 4
            &&& !r.encoding.video.crop
            &&& !r.encoding.video.scale
            &&& r.encoding.video.crop_width is None && r.encoding.video.crop_height is None
            &&& r.encoding.video.crop_x_offset is None && r.encoding.video.crop_y_offset is None
            &&& r.encoding.video.scale_width is None && r.encoding.video.scale_height is None
            &&& r.encoding.video.grain == 0
            &&& r.encoding.video.denoise
            &&& r.encoding.audio.bitrate_2_0@ == 112
            &&& r.encoding.audio.bitrate_5_1@ == 224
            &&& r.encoding.audio.bitrate_7_1@ == 394
            &&& !r.encoding.audio.downmix_5_1_to_stereo
            &&& !r.encoding.audio.downmix_7_1_to_stereo
            &&& r.encoding.audio.volume_adjustment == 100
            &&& !r.encoding.audio.re_encode_good_audio_codecs
            &&& !r.encoding.audio.copy
            &&& r.matroska.file_title@ == ""@
            &&& !r.run.only_encode_segment
            &&& r.run.start@ is None
            &&& r.run.only_encode_for is None
            &&& r.application.last_input_directory is None
            &&& r.application.last_output_directory is None
            &&& !r.application.dark_mode
            &&& !r.application.advanced_settings
        },
{
    reveal_strlit("");
    if stored is None {
        assert(r.paths.input_file.text@ =~= ""@);
        assert(r.paths.output_file.text@ =~= ""@);
        assert(r.matroska.file_title@ =~= ""@);
    }
}

// ---------------------------------------------------------------------------------------------
// Checks
// ---------------------------------------------------------------------------------------------

/// Encoding is ready exactly where the input is a file, the output directory can be written into
/// and the output path does not end in a slash. A missing input is told before all else, and a
/// directory as output before one that can not be written into. Left out are output paths that
/// end in a backslash, which some hosts take for a separator.
pub proof fn readiness_is_decided_by_the_first_failure(
    paths: PathSettings,
    input_is_file: bool,
    output_is_writable: bool,
    r: Result<(), PathError>,
)
    requires
        call_ensures(
            PathSettings::assert_that_is_ready_for_encoding,
            (&paths, input_is_file, output_is_writable),
            r,
        ),
        paths.output_file.text@.len() > 0 ==> paths.output_file.text@.last() != '\\',
    ensures
        ({
            let slash = paths.output_file.text@.len() > 0 && paths.output_file.text@.last() == '/';
            &&& r is Ok <==> input_is_file && !slash && output_is_writable
            &&& !input_is_file ==> r == Err::<(), PathError>(PathError::InputFileMissing)
            &&& input_is_file && slash ==> r == Err::<(), PathError>(PathError::OutputIsDirectory)
            &&& input_is_file && !slash && !output_is_writable ==> r == Err::<(), PathError>(
                PathError::OutputNotWritable,
            )
        }),
{
}

/// Where the output path ends in a backslash, the host decides whether it is that of a directory,
/// and all else is checked as for other paths.
pub proof fn readiness_of_paths_with_a_backslash(
    paths: PathSettings,
    input_is_file: bool,
    output_is_writable: bool,
    r: Result<(), PathError>,
)
    requires
        call_ensures(
            PathSettings::assert_that_is_ready_for_encoding,
            (&paths, input_is_file, output_is_writable),
            r,
        ),
        paths.output_file.text@.len() > 0,
        paths.output_file.text@.last() == '\\',
    ensures
        !input_is_file ==> r == Err::<(), PathError>(PathError::InputFileMissing),
        input_is_file && output_is_writable ==> r is Ok || r == Err::<(), PathError>(
            PathError::OutputIsDirectory,
        ),
        input_is_file && !output_is_writable ==> r == Err::<(), PathError>(
            PathError::OutputNotWritable,
        ) || r == Err::<(), PathError>(PathError::OutputIsDirectory),
{
}

/// An output path is refused as a directory where the host finds a separator at its end, and
/// otherwise where its directory can not be written into. Every host finds a slash, and none finds
/// anything but a slash or a backslash.
pub proof fn separators_mark_directories(
    paths: PathSettings,
    ends_in_separator: bool,
    output_is_writable: bool,
    r: Result<(), PathError>,
)
    requires
        call_ensures(PathSettings::output_ends_in_separator, (&paths,), ends_in_separator),
        call_ensures(PathSettings::check_output, (ends_in_separator, output_is_writable), r),
    ensures
        ends_in_separator ==> r == Err::<(), PathError>(PathError::OutputIsDirectory),
        !ends_in_separator && !output_is_writable ==> r == Err::<(), PathError>(
            PathError::OutputNotWritable,
        ),
        !ends_in_separator && output_is_writable ==> r is Ok,
        paths.output_file.text@.len() > 0 && paths.output_file.text@.last() == '/'
            ==> ends_in_separator,
        ends_in_separator ==> paths.output_file.text@.len() > 0 && (paths.output_file.text@.last()
            == '/' || paths.output_file.text@.last() == '\\'),
{
}

/// The input path is refused where it is not that of a file.
pub proof fn missing_inputs_are_refused(
    paths: PathSettings,
    input_is_file: bool,
    r: Result<(), PathError>,
)
    requires
        call_ensures(
            PathSettings::assert_that_input_file_is_ready_for_encoding,
            (&paths, input_is_file),
            r,
        ),
    ensures
        input_is_file ==> r is Ok,
        !input_is_file ==> r == Err::<(), PathError>(PathError::InputFileMissing),
{
}

/// The check of the output path finds what the check of both paths finds where the input is a
/// file. Left out are output paths that end in a backslash, which some hosts take for a
/// separator.
pub proof fn the_output_is_checked_alike(
    paths: PathSettings,
    output_is_writable: bool,
    both: Result<(), PathError>,
    output: Result<(), PathError>,
    directory: Result<(), PathError>,
)
    requires
        call_ensures(
            PathSettings::assert_that_is_ready_for_encoding,
            (&paths, true, output_is_writable),
            both,
        ),
        call_ensures(
            PathSettings::assert_that_output_file_is_ready_for_encoding,
            (&paths, output_is_writable),
            output,
        ),
        call_ensures(
            PathSettings::assert_output_file_path_does_not_end_with_a_path_separator,
            (&paths,),
            directory,
        ),
        paths.output_file.text@.len() > 0 ==> paths.output_file.text@.last() != '\\',
    ensures
        output == both,
        directory is Err <==> both == Err::<(), PathError>(PathError::OutputIsDirectory),
{
}

} // verus!
