//! Laws of what is made of ffmpeg's answers: metadata, progress and cropping.

use vstd::prelude::*;

use crate::ffmpeg;
use crate::ffmpeg::{
    args_for_crop_detection, autodetect_crop_parameters, encode_step, extract_all_crop_parameters,
    extract_crop_parameters, extract_metadata, parse_crop_groups, random_time_codes_within_range,
    select_least_cropped_parameters, try_extract_crop_parameters, whole_second_time_codes,
    CropError, CropRegion, EncodeAction, EncodeEvent, ProbeEvent, UnreadableCrop,
};
use crate::job::JobStatus;
use crate::metadata;
use crate::metadata::{
    duration_to_string, AudioStream, InputFileMetadata, StreamError, StreamInfo, StreamKind,
    SubtitleStream,
};
use crate::paths;
use crate::settings::AudioChannelLayout;
use crate::strings;
use crate::time::Duration;

verus! {

// ---------------------------------------------------------------------------------------------
// Metadata
// ---------------------------------------------------------------------------------------------

/// Whether ffmpeg calls the layout `channels`.
pub open spec fn is_called(layout: AudioChannelLayout, channels: Seq<char>) -> bool {
    match layout {
        AudioChannelLayout::Mono => channels == "mono"@,
        AudioChannelLayout::Stereo20 => channels == "stereo"@,
        AudioChannelLayout::Surround51 => channels == "5.1"@,
        AudioChannelLayout::Surround51Side => channels == "5.1(side)"@,
        AudioChannelLayout::Surround71 => channels == "7.1"@,
    }
}

/// Whether `event` is an audio stream in one of the five layouts.
pub open spec fn is_known_audio(event: ProbeEvent) -> bool {
    &&& event matches ProbeEvent::Stream(stream)
    &&& stream.kind matches StreamKind::Audio { channels }
    &&& channels@ == "mono"@ || channels@ == "stereo"@ || channels@ == "5.1"@ || channels@
        == "5.1(side)"@ || channels@ == "7.1"@
}

/// Whether `audio` has the index, the layout and the codec of the audio stream `event`.
pub open spec fn is_audio_entry(audio: AudioStream, event: ProbeEvent) -> bool {
    &&& event matches ProbeEvent::Stream(stream)
    &&& stream.kind matches StreamKind::Audio { channels }
    &&& audio.index == stream.index
    &&& is_called(audio.channel_layout, channels@)
    &&& audio.codec@ == stream.format@
}

/// Whether `event` is a subtitle stream.
pub open spec fn is_subtitle(event: ProbeEvent) -> bool {
    event matches ProbeEvent::Stream(stream) && stream.kind is Subtitle
}

/// Whether `subtitle` has the index and the format of the subtitle stream `event`.
pub open spec fn is_subtitle_entry(subtitle: SubtitleStream, event: ProbeEvent) -> bool {
    &&& event matches ProbeEvent::Stream(stream)
    &&& subtitle.index == stream.index
    &&& subtitle.format@ == stream.format@
}

proof fn audio_streams_are_those_of_the_events(events: Seq<ProbeEvent>)
    ensures
        ({
            let known = events.filter(|e: ProbeEvent| is_known_audio(e));
            let found = ffmpeg::audio_streams(events);
            &&& found.len() == known.len()
            &&& forall|k: int|
                0 <= k < found.len() ==> {
                    &&& #[trigger] known[k] matches ProbeEvent::Stream(stream)
                    &&& stream.kind matches StreamKind::Audio { channels }
                    &&& found[k].0 == stream.index
                    &&& is_called(found[k].1, channels@)
                    &&& found[k].2 == stream.format@
                }
        }),
    decreases events.len(),
{
    reveal(Seq::filter);
    reveal_strlit("mono");
    reveal_strlit("stereo");
    reveal_strlit("5.1");
    reveal_strlit("5.1(side)");
    reveal_strlit("7.1");
    if events.len() > 0 {
        audio_streams_are_those_of_the_events(events.drop_last());
        let pick = |e: ProbeEvent| is_known_audio(e);
        let known = events.filter(pick);
        let known_before = events.drop_last().filter(pick);
        let found = ffmpeg::audio_streams(events);
        let found_before = ffmpeg::audio_streams(events.drop_last());
        assert forall|k: int| 0 <= k < found.len() implies {
            &&& #[trigger] known[k] matches ProbeEvent::Stream(stream)
            &&& stream.kind matches StreamKind::Audio { channels }
            &&& found[k].0 == stream.index
            &&& is_called(found[k].1, channels@)
            &&& found[k].2 == stream.format@
        } by {
            if k < found_before.len() {
                assert(known[k] == known_before[k]);
                assert(found[k] == found_before[k]);
            }
        }
    }
}

/// The audio streams of a file are the audio streams in a known layout that ffmpeg tells of, all
/// of them, in their order, each with its index, its layout and its codec.
pub proof fn all_known_audio_streams_are_kept(
    events: Vec<ProbeEvent>,
    r: Option<InputFileMetadata>,
)
    requires
        call_ensures(extract_metadata, (&events,), r),
        r is Some,
    ensures
        ({
            let known = events@.filter(|e: ProbeEvent| is_known_audio(e));
            let audio = r->0.audio_streams@;
            &&& audio.len() == known.len()
            &&& forall|k: int|
                0 <= k < audio.len() ==> is_audio_entry(#[trigger] audio[k], known[k])
        }),
        forall|i: int|
            0 <= i < events@.len() && is_known_audio(#[trigger] events@[i]) ==> exists|k: int|
                0 <= k < r->0.audio_streams@.len() && is_audio_entry(
                    #[trigger] r->0.audio_streams@[k],
                    events@[i],
                ),
{
    audio_streams_are_those_of_the_events(events@);
    let pick = |e: ProbeEvent| is_known_audio(e);
    let known = events@.filter(pick);
    let audio = r->0.audio_streams@;
    let found = ffmpeg::audio_streams(events@);
    assert(metadata::audio_views(audio) == found);
    assert(metadata::audio_views(audio).len() == audio.len());
    assert forall|k: int| 0 <= k < audio.len() implies is_audio_entry(
        #[trigger] audio[k],
        known[k],
    ) by {
        assert(metadata::audio_views(audio)[k] == audio[k]@);
        assert(found[k] == audio[k]@);
    }
    assert forall|i: int|
        0 <= i < events@.len() && is_known_audio(#[trigger] events@[i]) implies exists|k: int|
        0 <= k < audio.len() && is_audio_entry(#[trigger] audio[k], events@[i]) by {
        events@.lemma_filter_contains(pick, i);
        let k = choose|k: int| 0 <= k < known.len() && known[k] == events@[i];
        assert(is_audio_entry(audio[k], known[k]));
    }
}

proof fn subtitle_streams_are_those_of_the_events(events: Seq<ProbeEvent>)
    ensures
        ({
            let told = events.filter(|e: ProbeEvent| is_subtitle(e));
            let found = ffmpeg::subtitle_streams(events);
            &&& found.len() == told.len()
            &&& forall|k: int|
                0 <= k < found.len() ==> {
                    &&& #[trigger] told[k] matches ProbeEvent::Stream(stream)
                    &&& found[k].0 == stream.index
                    &&& found[k].1 == stream.format@
                }
        }),
    decreases events.len(),
{
    reveal(Seq::filter);
    if events.len() > 0 {
        subtitle_streams_are_those_of_the_events(events.drop_last());
        let pick = |e: ProbeEvent| is_subtitle(e);
        let told = events.filter(pick);
        let told_before = events.drop_last().filter(pick);
        let found = ffmpeg::subtitle_streams(events);
        let found_before = ffmpeg::subtitle_streams(events.drop_last());
        assert forall|k: int| 0 <= k < found.len() implies {
            &&& #[trigger] told[k] matches ProbeEvent::Stream(stream)
            &&& found[k].0 == stream.index
            &&& found[k].1 == stream.format@
        } by {
            if k < found_before.len() {
                assert(told[k] == told_before[k]);
                assert(found[k] == found_before[k]);
            }
        }
    }
}

/// The subtitle streams of a file are the subtitle streams that ffmpeg tells of, all of them, in
/// their order, each with its index and its format.
pub proof fn all_subtitle_streams_are_kept(events: Vec<ProbeEvent>, r: Option<InputFileMetadata>)
    requires
        call_ensures(extract_metadata, (&events,), r),
        r is Some,
    ensures
        ({
            let told = events@.filter(|e: ProbeEvent| is_subtitle(e));
            let subtitles = r->0.subtitle_streams@;
            &&& subtitles.len() == told.len()
            &&& forall|k: int|
                0 <= k < subtitles.len() ==> is_subtitle_entry(#[trigger] subtitles[k], told[k])
        }),
{
    subtitle_streams_are_those_of_the_events(events@);
    let told = events@.filter(|e: ProbeEvent| is_subtitle(e));
    let subtitles = r->0.subtitle_streams@;
    let found = ffmpeg::subtitle_streams(events@);
    assert(metadata::subtitle_views(subtitles) == found);
    assert(metadata::subtitle_views(subtitles).len() == subtitles.len());
    assert forall|k: int| 0 <= k < subtitles.len() implies is_subtitle_entry(
        #[trigger] subtitles[k],
        told[k],
    ) by {
        assert(metadata::subtitle_views(subtitles)[k] == subtitles[k]@);
        assert(found[k] == subtitles[k]@);
    }
}

/// Whether `event` is a video stream.
pub open spec fn is_video(event: ProbeEvent) -> bool {
    event matches ProbeEvent::Stream(stream) && stream.kind is Video
}

proof fn the_first_video_is_found(events: Seq<ProbeEvent>, i: int)
    requires
        0 <= i < events.len(),
        is_video(events[i]),
        forall|j: int| 0 <= j < i ==> !is_video(#[trigger] events[j]),
    ensures
        ffmpeg::first_video(events) is Some,
        events[i] matches ProbeEvent::Stream(stream) && stream.kind matches StreamKind::Video {
            fps,
            width,
            height,
        } && ffmpeg::first_video(events) == Some((fps, width, height)),
    decreases events.len(),
{
    if i < events.len() - 1 {
        the_first_video_is_found(events.drop_last(), i);
    } else {
        no_video_is_found(events.drop_last());
    }
}

proof fn no_video_is_found(events: Seq<ProbeEvent>)
    ensures
        ffmpeg::first_video(events) is None <==> forall|j: int|
            0 <= j < events.len() ==> !is_video(#[trigger] events[j]),
    decreases events.len(),
{
    if events.len() > 0 {
        let before = events.drop_last();
        no_video_is_found(before);
        assert(forall|j: int| 0 <= j < before.len() ==> before[j] == #[trigger] events[j]);
        if ffmpeg::first_video(events) is Some && ffmpeg::first_video(before) is Some {
            let j = choose|j: int| 0 <= j < before.len() && is_video(#[trigger] before[j]);
            assert(is_video(events[j]));
        }
        if ffmpeg::first_video(events) is None {
            assert forall|j: int| 0 <= j < events.len() implies !is_video(#[trigger] events[j]) by {
                if j < before.len() {
                    assert(!is_video(before[j]));
                }
            }
        } else if ffmpeg::first_video(before) is None {
            assert(is_video(events[events.len() - 1]));
        }
    }
}

proof fn the_last_duration_is_found(events: Seq<ProbeEvent>, i: int)
    requires
        0 <= i < events.len(),
        events[i] is Duration,
        forall|j: int| i < j < events.len() ==> !((#[trigger] events[j]) is Duration),
    ensures
        events[i] matches ProbeEvent::Duration(seconds) && ffmpeg::last_duration(events) == Some(
            seconds,
        ),
    decreases events.len(),
{
    if i < events.len() - 1 {
        assert(!(events[events.len() - 1] is Duration));
        the_last_duration_is_found(events.drop_last(), i);
    }
}

proof fn no_duration_is_found(events: Seq<ProbeEvent>)
    ensures
        ffmpeg::last_duration(events) is None <==> forall|j: int|
            0 <= j < events.len() ==> !((#[trigger] events[j]) is Duration),
    decreases events.len(),
{
    if events.len() > 0 {
        let before = events.drop_last();
        no_duration_is_found(before);
        if events.last() is Duration {
            assert(events[events.len() - 1] is Duration);
        } else {
            if ffmpeg::last_duration(before) is Some {
                let j = choose|j: int| 0 <= j < before.len() && (#[trigger] before[j]) is Duration;
                assert(events[j] is Duration);
            } else {
                assert forall|j: int| 0 <= j < events.len() implies !((#[trigger] events[j]) is
                    Duration) by {
                    if j < before.len() {
                        assert(!(before[j] is Duration));
                    }
                }
            }
        }
    }
}

/// There is metadata exactly where ffmpeg tells of a video stream and of a length.
pub proof fn metadata_needs_a_video_and_a_length(
    events: Vec<ProbeEvent>,
    r: Option<InputFileMetadata>,
)
    requires
        call_ensures(extract_metadata, (&events,), r),
    ensures
        r is Some <==> (exists|i: int| 0 <= i < events@.len() && is_video(#[trigger] events@[i]))
            && (exists|i: int| 0 <= i < events@.len() && (#[trigger] events@[i]) is Duration),
{
    no_video_is_found(events@);
    no_duration_is_found(events@);
}

/// The frame rate and the size are those of the first video stream.
pub proof fn the_first_video_stream_counts(
    events: Vec<ProbeEvent>,
    r: Option<InputFileMetadata>,
    i: int,
)
    requires
        call_ensures(extract_metadata, (&events,), r),
        r is Some,
        0 <= i < events@.len(),
        is_video(events@[i]),
        forall|j: int| 0 <= j < i ==> !is_video(#[trigger] events@[j]),
    ensures
        events@[i] matches ProbeEvent::Stream(stream) && stream.kind == (StreamKind::Video {
            fps: r->0.fps,
            width: r->0.width,
            height: r->0.height,
        }),
{
    the_first_video_is_found(events@, i);
}

/// The length is the one that ffmpeg tells last.
pub proof fn the_last_length_counts(
    events: Vec<ProbeEvent>,
    r: Option<InputFileMetadata>,
    i: int,
)
    requires
        call_ensures(extract_metadata, (&events,), r),
        r is Some,
        0 <= i < events@.len(),
        events@[i] is Duration,
        forall|j: int| i < j < events@.len() ==> !((#[trigger] events@[j]) is Duration),
    ensures
        events@[i] matches ProbeEvent::Duration(seconds) && r->0.duration@ == seconds
            * 1_000_000_000,
{
    the_last_duration_is_found(events@, i);
}

/// Whether `event` is a video, audio or subtitle stream with the given index.
pub open spec fn is_stream_with_index(event: ProbeEvent, index: u32) -> bool {
    &&& event matches ProbeEvent::Stream(stream)
    &&& stream.kind is Video || stream.kind is Audio || stream.kind is Subtitle
    &&& stream.index == index
}

proof fn the_highest_index_is_found(events: Seq<ProbeEvent>)
    ensures
        forall|i: int, index: u32|
            0 <= i < events.len() && #[trigger] is_stream_with_index(events[i], index) ==> index
                <= ffmpeg::highest_index(events),
        ffmpeg::highest_index(events) != 0 ==> exists|i: int|
            0 <= i < events.len() && #[trigger] is_stream_with_index(
                events[i],
                ffmpeg::highest_index(events),
            ),
    decreases events.len(),
{
    if events.len() > 0 {
        let before = events.drop_last();
        the_highest_index_is_found(before);
        let highest = ffmpeg::highest_index(events);
        assert forall|i: int, index: u32|
            0 <= i < events.len() && #[trigger] is_stream_with_index(events[i], index) implies index
            <= highest by {
            if i < before.len() {
                assert(is_stream_with_index(before[i], index));
            }
        }
        if highest != 0 {
            if highest == ffmpeg::highest_index(before) {
                let i = choose|i: int|
                    0 <= i < before.len() && #[trigger] is_stream_with_index(before[i], highest);
                assert(is_stream_with_index(events[i], highest));
            } else {
                assert(is_stream_with_index(events[events.len() - 1], highest));
            }
        }
    }
}

/// The highest index is that of a video, audio or subtitle stream, known or not, and no such
/// stream has a higher one. It is 0 where there is no such stream.
pub proof fn the_highest_index_is_that_of_a_stream(
    events: Vec<ProbeEvent>,
    r: Option<InputFileMetadata>,
)
    requires
        call_ensures(extract_metadata, (&events,), r),
        r is Some,
    ensures
        forall|i: int, index: u32|
            0 <= i < events@.len() && #[trigger] is_stream_with_index(events@[i], index) ==> index
                <= r->0.highest_stream_index,
        r->0.highest_stream_index != 0 ==> exists|i: int|
            0 <= i < events@.len() && #[trigger] is_stream_with_index(
                events@[i],
                r->0.highest_stream_index,
            ),
{
    the_highest_index_is_found(events@);
}

/// A stream is taken for an audio stream exactly where it is one in a known layout, and with its
/// own index, layout and codec. What is no audio and what has another layout is told apart.
pub proof fn audio_in_a_known_layout_is_taken(
    stream: StreamInfo,
    r: Result<AudioStream, StreamError>,
)
    requires
        call_ensures(AudioStream::try_from, (&stream,), r),
    ensures
        r is Ok <==> is_known_audio(ProbeEvent::Stream(stream)),
        r matches Ok(audio) ==> is_audio_entry(audio, ProbeEvent::Stream(stream)),
        !(stream.kind is Audio) ==> r matches Err(StreamError::NotAudio),
        stream.kind matches StreamKind::Audio { channels } ==> (r matches Err(e) ==> e matches
            StreamError::UnsupportedLayout(told) && told@ == channels@),
{
    reveal_strlit("mono");
    reveal_strlit("stereo");
    reveal_strlit("5.1");
    reveal_strlit("5.1(side)");
    reveal_strlit("7.1");
}

/// A span of time is shown as hours, minutes and seconds of two digits each, the hours with more
/// where they need more: the three numbers add up to its whole seconds, and there are fewer than
/// 60 minutes and fewer than 60 seconds.
pub proof fn spans_are_shown_as_clocks_do(
    duration: Duration,
    r: String,
    hours: nat,
    minutes: nat,
    seconds: nat,
)
    requires
        call_ensures(duration_to_string, (&duration,), r),
        duration@ / 1_000_000_000 == 3600 * hours + 60 * minutes + seconds,
        minutes < 60,
        seconds < 60,
    ensures
        r@ == (if hours < 10 {
            seq!['0'] + strings::decimal(hours)
        } else {
            strings::decimal(hours)
        }) + seq![':'] + seq![(48 + minutes / 10) as char, (48 + minutes % 10) as char] + seq![':']
            + seq![(48 + seconds / 10) as char, (48 + seconds % 10) as char],
{
    let total = duration.seconds();
    assert(total == 3600 * hours + 60 * minutes + seconds);
    assert(total / 3600 == hours && total % 3600 / 60 == minutes && total % 60 == seconds)
        by (nonlinear_arith)
        requires
            total == 3600 * hours + 60 * minutes + seconds,
            minutes < 60,
            seconds < 60,
    ;
    reveal_strlit(":");
    assert(":"@ =~= seq![':']);
    reveal_with_fuel(strings::decimal, 2);
    assert(strings::two_digits(hours) =~= if hours < 10 {
        seq!['0'] + strings::decimal(hours)
    } else {
        strings::decimal(hours)
    });
    assert(strings::two_digits(minutes) =~= seq![
        (48 + minutes / 10) as char,
        (48 + minutes % 10) as char,
    ]);
    assert(strings::two_digits(seconds) =~= seq![
        (48 + seconds / 10) as char,
        (48 + seconds % 10) as char,
    ]);
}

// ---------------------------------------------------------------------------------------------
// Encoding
// ---------------------------------------------------------------------------------------------

/// The work with ffmpeg ends where its events end or it was asked to, and only there. Where the
/// events end the job is finished, without a message, and where it was asked to nothing is told.
pub proof fn encoding_ends_with_the_events_or_on_request(
    quit_requested: bool,
    event: Option<EncodeEvent>,
    action: EncodeAction,
    ends: bool,
)
    requires
        call_ensures(encode_step, (quit_requested, event), action),
        call_ensures(EncodeAction::ends_encoding, (&action,), ends),
    ensures
        ends <==> event is None || quit_requested,
        event is None ==> (action matches EncodeAction::Stop(status, message) && status
            == JobStatus::Finished && message@.len() == 0),
        event is Some && quit_requested ==> action == EncodeAction::Quit,
{
}

/// An error fails the job with its message, progress is shown with its own frame and rate, what
/// is likely benign is only logged, and nothing else is acted on.
pub proof fn events_are_acted_on(event: EncodeEvent, action: EncodeAction)
    requires
        call_ensures(encode_step, (false, Some(event)), action),
    ensures
        event matches EncodeEvent::Error(message) ==> action == EncodeAction::Stop(
            JobStatus::Failed,
            message,
        ),
        event matches EncodeEvent::Progress { frame, fps } ==> {
            &&& action matches EncodeAction::Progress { frame: shown, fps: rate }
            &&& rate == fps
            &&& shown == frame || shown == frame - 0x1_0000_0000
        },
        event matches EncodeEvent::Problem(message) ==> action == EncodeAction::Warn(message),
        event == EncodeEvent::Other ==> action == EncodeAction::Nothing,
{
}

// ---------------------------------------------------------------------------------------------
// Cropping
// ---------------------------------------------------------------------------------------------

/// Of regions, the largest width and the largest height are selected, each with the offset of the
/// first region that has it; there is nothing to select only where there are no regions.
pub proof fn the_largest_extents_are_selected(regions: Vec<CropRegion>, r: Option<CropRegion>)
    requires
        call_ensures(select_least_cropped_parameters, (&regions,), r),
    ensures
        r is Some <==> regions@.len() > 0,
        r matches Some(least) ==> {
            &&& forall|i: int| 0 <= i < regions@.len() ==> (#[trigger] regions@[i]).0 <= least.0
            &&& forall|i: int| 0 <= i < regions@.len() ==> (#[trigger] regions@[i]).1 <= least.1
            &&& exists|i: int| 0 <= i < regions@.len() && (#[trigger] regions@[i]).0 == least.0
            &&& exists|i: int| 0 <= i < regions@.len() && (#[trigger] regions@[i]).1 == least.1
            &&& least.0 > 0 ==> exists|i: int|
                #![trigger regions@[i]]
                0 <= i < regions@.len() && regions@[i].0 == least.0 && regions@[i].2 == least.2
                    && forall|j: int| 0 <= j < i ==> (#[trigger] regions@[j]).0 < least.0
            &&& least.1 > 0 ==> exists|i: int|
                #![trigger regions@[i]]
                0 <= i < regions@.len() && regions@[i].1 == least.1 && regions@[i].3 == least.3
                    && forall|j: int| 0 <= j < i ==> (#[trigger] regions@[j]).1 < least.1
            &&& least.0 == 0 ==> least.2 == 0
            &&& least.1 == 0 ==> least.3 == 0
        },
{
    if let Some(least) = r {
        let all = regions@;
        assert forall|i: int| 0 <= i < all.len() implies (#[trigger] all[i]).0 <= least.0
            && all[i].1 <= least.1 by {
            assert(ffmpeg::widths(all)[i] == all[i].0);
            assert(ffmpeg::heights(all)[i] == all[i].1);
        }
        if least.0 > 0 {
            let widths = ffmpeg::widths(all);
            let i = choose|i: int|
                0 <= i < widths.len() && #[trigger] widths[i] == least.0 && ffmpeg::x_offsets(
                    all,
                )[i] == least.2 && forall|j: int| 0 <= j < i ==> #[trigger] widths[j] < least.0;
            assert(all[i].0 == least.0 && all[i].2 == least.2);
            assert forall|j: int| 0 <= j < i implies (#[trigger] all[j]).0 < least.0 by {
                assert(widths[j] == all[j].0);
            }
        } else {
            assert(all[0].0 == least.0);
        }
        if least.1 > 0 {
            let heights = ffmpeg::heights(all);
            let i = choose|i: int|
                0 <= i < heights.len() && #[trigger] heights[i] == least.1 && ffmpeg::y_offsets(
                    all,
                )[i] == least.3 && forall|j: int| 0 <= j < i ==> #[trigger] heights[j] < least.1;
            assert(all[i].1 == least.1 && all[i].3 == least.3);
            assert forall|j: int| 0 <= j < i implies (#[trigger] all[j]).1 < least.1 by {
                assert(heights[j] == all[j].1);
            }
        } else {
            assert(all[0].1 == least.1);
        }
    }
}

proof fn only_one_region_is_selected(regions: Seq<CropRegion>, a: CropRegion, b: CropRegion)
    requires
        regions.len() > 0,
        ffmpeg::is_largest(ffmpeg::widths(regions), ffmpeg::x_offsets(regions), a.0, a.2),
        ffmpeg::is_largest(ffmpeg::heights(regions), ffmpeg::y_offsets(regions), a.1, a.3),
        ffmpeg::is_largest(ffmpeg::widths(regions), ffmpeg::x_offsets(regions), b.0, b.2),
        ffmpeg::is_largest(ffmpeg::heights(regions), ffmpeg::y_offsets(regions), b.1, b.3),
    ensures
        a == b,
{
    only_one_is_largest(ffmpeg::widths(regions), ffmpeg::x_offsets(regions), a.0, a.2, b.0, b.2);
    only_one_is_largest(ffmpeg::heights(regions), ffmpeg::y_offsets(regions), a.1, a.3, b.1, b.3);
}

proof fn only_one_is_largest(
    extents: Seq<u32>,
    offsets: Seq<u32>,
    extent: u32,
    offset: u32,
    other: u32,
    other_offset: u32,
)
    requires
        ffmpeg::is_largest(extents, offsets, extent, offset),
        ffmpeg::is_largest(extents, offsets, other, other_offset),
    ensures
        extent == other,
        offset == other_offset,
{
    if extent > 0 && other > 0 {
        let i = choose|i: int|
            0 <= i < extents.len() && #[trigger] extents[i] == extent && offsets[i] == offset
                && forall|j: int| 0 <= j < i ==> #[trigger] extents[j] < extent;
        let k = choose|i: int|
            0 <= i < extents.len() && #[trigger] extents[i] == other && offsets[i] == other_offset
                && forall|j: int| 0 <= j < i ==> #[trigger] extents[j] < other;
        assert(extents[i] <= other && extents[k] <= extent);
        if i < k {
            assert(extents[i] < other);
        }
        if k < i {
            assert(extents[k] < extent);
        }
    }
}

/// Four numbers that fit in 32 bits are read as a region, in the order of width, height, x-offset
/// and y-offset, where they stand behind the whole match.
pub proof fn four_numbers_are_a_region(
    groups: Option<Vec<Option<String>>>,
    r: Result<Option<CropRegion>, UnreadableCrop>,
    width: u32,
    height: u32,
    x: u32,
    y: u32,
)
    requires
        call_ensures(parse_crop_groups, (&groups,), r),
        groups matches Some(g) && g@.len() >= 5 && g@[1] is Some && g@[2] is Some && g@[3] is Some
            && g@[4] is Some && g@[1]->0@ == strings::decimal(width as nat) && g@[2]->0@
            == strings::decimal(height as nat) && g@[3]->0@ == strings::decimal(x as nat)
            && g@[4]->0@ == strings::decimal(y as nat),
    ensures
        r == Ok::<Option<CropRegion>, UnreadableCrop>(Some((width, height, x, y))),
{
    let g = ffmpeg::group_texts(groups)->0;
    strings::parsing_undoes_decimal(width as nat, u32::MAX as nat);
    strings::parsing_undoes_decimal(height as nat, u32::MAX as nat);
    strings::parsing_undoes_decimal(x as nat, u32::MAX as nat);
    strings::parsing_undoes_decimal(y as nat, u32::MAX as nat);
    assert(ffmpeg::group_number(g, 1) == Some(width as nat));
    assert(ffmpeg::group_number(g, 2) == Some(height as nat));
    assert(ffmpeg::group_number(g, 3) == Some(x as nat));
    assert(ffmpeg::group_number(g, 4) == Some(y as nat));
}

/// Without a match there is no region, and a match in which one of the four numbers is missing or
/// does not fit in 32 bits can not be read.
pub proof fn other_groups_are_no_region(
    groups: Option<Vec<Option<String>>>,
    r: Result<Option<CropRegion>, UnreadableCrop>,
    i: int,
)
    requires
        call_ensures(parse_crop_groups, (&groups,), r),
    ensures
        groups is None ==> r == Ok::<Option<CropRegion>, UnreadableCrop>(None),
        groups matches Some(g) ==> (1 <= i <= 4 && (i >= g@.len() || g@[i] is None
            || strings::parsed(g@[i]->0@, 0xffff_ffff) is None) ==> r is Err),
        r matches Ok(region) ==> (region is Some <==> groups is Some),
{
    if let Some(vec) = groups {
        let g = ffmpeg::group_texts(groups)->0;
        assert(g.len() == vec@.len());
        if 1 <= i <= 4 && (i >= vec@.len() || vec@[i] is None || strings::parsed(
            vec@[i]->0@,
            0xffff_ffff,
        ) is None) {
            assert(i < g.len() ==> g[i] == paths::optional_text(vec@[i]));
            assert(ffmpeg::group_number(g, i) is None);
        }
    }
}

/// The region in a line is the one that is read of what the pattern for four numbers matches in
/// it, and where that can be read it does not matter which way it is asked for.
pub proof fn lines_are_matched_with_the_pattern(
    line: &str,
    groups: Option<Vec<Option<String>>>,
    of_groups: Result<Option<CropRegion>, UnreadableCrop>,
    of_line: Result<Option<CropRegion>, UnreadableCrop>,
    found: Option<CropRegion>,
)
    requires
        ffmpeg::group_texts(groups) == ffmpeg::regex_groups(
            "crop=(\\d+):(\\d+):(\\d+):(\\d+)"@,
            line@,
        ),
        call_ensures(parse_crop_groups, (&groups,), of_groups),
        call_ensures(try_extract_crop_parameters, (line,), of_line),
        of_groups is Ok ==> call_ensures(extract_crop_parameters, (line,), found),
    ensures
        of_line is Ok <==> of_groups is Ok,
        of_groups is Ok ==> of_line == of_groups && found == of_groups->Ok_0,
{
}

proof fn lines_hold_only_these_regions(
    found: Seq<CropRegion>,
    other: Seq<CropRegion>,
    lines: Seq<Seq<char>>,
)
    requires
        ffmpeg::are_crops_of_lines(found, lines),
        ffmpeg::are_crops_of_lines(other, lines),
    ensures
        found == other,
    decreases lines.len(),
{
    if lines.len() == 0 {
        assert(found =~= other);
    } else {
        match ffmpeg::regex_groups(ffmpeg::CROP_DETECT_PATTERN@, lines.last()) {
            None => {
                lines_hold_only_these_regions(found, other, lines.drop_last());
            },
            Some(groups) => {
                lines_hold_only_these_regions(
                    found.drop_last(),
                    other.drop_last(),
                    lines.drop_last(),
                );
                assert(found.last() == other.last());
                assert(found =~= found.drop_last().push(found.last()));
                assert(other =~= other.drop_last().push(other.last()));
            },
        }
    }
}

/// One more line adds the region that it holds, if it holds one, behind those of the lines before
/// it. No line holds no region, and one line that can not be read spoils all.
pub proof fn another_line_adds_its_region(
    lines: Vec<String>,
    before: Vec<String>,
    last: &str,
    r: Result<Vec<CropRegion>, UnreadableCrop>,
    r_before: Result<Vec<CropRegion>, UnreadableCrop>,
    r_last: Result<Option<CropRegion>, UnreadableCrop>,
)
    requires
        lines@.len() > 0,
        before@ == lines@.drop_last(),
        last@ == lines@.last()@,
        call_ensures(extract_all_crop_parameters, (&lines,), r),
        call_ensures(extract_all_crop_parameters, (&before,), r_before),
        call_ensures(try_extract_crop_parameters, (last,), r_last),
    ensures
        r is Ok <==> r_before is Ok && r_last is Ok,
        r is Ok ==> r->Ok_0@ == (match r_last->Ok_0 {
            Some(region) => r_before->Ok_0@.push(region),
            None => r_before->Ok_0@,
        }),
        before@.len() == 0 ==> r_before is Ok && r_before->Ok_0@.len() == 0,
{
    let all = strings::texts(lines@);
    let fewer = strings::texts(before@);
    assert(all.drop_last() =~= fewer);
    assert(all.last() == last@);
    assert(lines@[lines@.len() - 1] == lines@.last());
    if r is Ok {
        assert forall|i: int| 0 <= i < before@.len() implies ffmpeg::are_crop_groups(
            ffmpeg::regex_groups(ffmpeg::CROP_DETECT_PATTERN@, (#[trigger] before@[i])@),
        ) by {
            assert(before@[i] == lines@[i]);
        }
        assert(r_last is Ok);
        match ffmpeg::regex_groups(ffmpeg::CROP_DETECT_PATTERN@, last@) {
            None => {
                lines_hold_only_these_regions(r->Ok_0@, r_before->Ok_0@, fewer);
            },
            Some(groups) => {
                let regions = r->Ok_0@;
                lines_hold_only_these_regions(regions.drop_last(), r_before->Ok_0@, fewer);
                assert(regions =~= regions.drop_last().push(regions.last()));
            },
        }
    }
    if r_before is Ok && r_last is Ok {
        assert forall|i: int| 0 <= i < lines@.len() implies ffmpeg::are_crop_groups(
            ffmpeg::regex_groups(ffmpeg::CROP_DETECT_PATTERN@, (#[trigger] lines@[i])@),
        ) by {
            if i < before@.len() {
                assert(before@[i] == lines@[i]);
            }
        }
    }
}

/// What is detected is what is selected of the regions in all lines. It is an error where one of
/// them can not be read, and another one where there is nothing to select.
pub proof fn detection_selects_of_all_lines(
    lines: Vec<String>,
    found: Result<Vec<CropRegion>, UnreadableCrop>,
    selected: Option<CropRegion>,
    r: Result<CropRegion, CropError>,
)
    requires
        call_ensures(extract_all_crop_parameters, (&lines,), found),
        found matches Ok(regions) ==> call_ensures(
            select_least_cropped_parameters,
            (&regions,),
            selected,
        ),
        call_ensures(autodetect_crop_parameters, (&lines,), r),
    ensures
        found is Err <==> r == Err::<CropRegion, CropError>(CropError::Unreadable),
        found is Ok ==> match selected {
            Some(least) => r == Ok::<CropRegion, CropError>(least),
            None => r == Err::<CropRegion, CropError>(CropError::NothingFound),
        },
{
    let all = strings::texts(lines@);
    if found is Err {
        let i = choose|i: int|
            0 <= i < lines@.len() && !ffmpeg::are_crop_groups(
                ffmpeg::regex_groups(ffmpeg::CROP_DETECT_PATTERN@, (#[trigger] lines@[i])@),
            );
    } else {
        let regions = found->Ok_0;
        matches_make_regions(regions@, all);
        assert forall|i: int| 0 <= i < lines@.len() implies (#[trigger] lines@[i])@ == all[i] by {}
        match r {
            Ok(least) => {
                let others = choose|others: Seq<CropRegion>| #[trigger]
                    ffmpeg::are_crops_of_lines(others, all) && others.len() > 0
                        && ffmpeg::is_largest(
                        ffmpeg::widths(others),
                        ffmpeg::x_offsets(others),
                        least.0,
                        least.2,
                    ) && ffmpeg::is_largest(
                        ffmpeg::heights(others),
                        ffmpeg::y_offsets(others),
                        least.1,
                        least.3,
                    );
                lines_hold_only_these_regions(regions@, others, all);
                only_one_region_is_selected(regions@, least, selected->0);
            },
            Err(e) => {},
        }
    }
}

proof fn matches_make_regions(found: Seq<CropRegion>, lines: Seq<Seq<char>>)
    requires
        ffmpeg::are_crops_of_lines(found, lines),
    ensures
        found.len() == 0 <==> forall|i: int|
            0 <= i < lines.len() ==> ffmpeg::regex_groups(
                ffmpeg::CROP_DETECT_PATTERN@,
                #[trigger] lines[i],
            ) is None,
    decreases lines.len(),
{
    if lines.len() > 0 {
        let before = lines.drop_last();
        if ffmpeg::regex_groups(ffmpeg::CROP_DETECT_PATTERN@, lines.last()) is None {
            matches_make_regions(found, before);
            if found.len() == 0 {
                assert forall|i: int| 0 <= i < lines.len() implies ffmpeg::regex_groups(
                    ffmpeg::CROP_DETECT_PATTERN@,
                    #[trigger] lines[i],
                ) is None by {
                    if i < lines.len() - 1 {
                        assert(before[i] == lines[i]);
                    }
                }
            } else {
                let i = choose|i: int|
                    0 <= i < before.len() && !(ffmpeg::regex_groups(
                        ffmpeg::CROP_DETECT_PATTERN@,
                        #[trigger] before[i],
                    ) is None);
                assert(lines[i] == before[i]);
            }
        } else {
            assert(lines[lines.len() - 1] == lines.last());
        }
    }
}

/// To detect how to crop, ffmpeg seeks to the point in time before it opens the file, looks at a
/// fifth of a second and keeps nothing of the picture.
pub proof fn detection_looks_at_a_point_in_time(
    file_path: &str,
    time_code: Duration,
    clock: String,
    args: Vec<String>,
)
    requires
        call_ensures(args_for_crop_detection, (file_path, &time_code), args),
        call_ensures(duration_to_string, (&time_code,), clock),
    ensures
        strings::texts(args@) == seq!["-ss"@, clock@] + seq!["-t"@, "0.2"@] + seq![
            "-i"@,
            file_path@,
        ] + seq!["-vf"@, "cropdetect=round=2:limit=0.1,metadata=mode=print"@] + seq![
            "-f"@,
            "null"@,
            "-"@,
        ],
{
    assert(strings::texts(args@) =~= seq!["-ss"@, clock@] + seq!["-t"@, "0.2"@] + seq![
        "-i"@,
        file_path@,
    ] + seq!["-vf"@, "cropdetect=round=2:limit=0.1,metadata=mode=print"@] + seq![
        "-f"@,
        "null"@,
        "-"@,
    ]);
}

/// There are as many points in time as were asked for, or as there are whole seconds where those
/// are fewer, and each of them is a whole second before the end. The whole seconds are counted in
/// 32 bits.
pub proof fn points_in_time_lie_before_the_end(time_code: Duration, n: u32, r: Vec<Duration>)
    requires
        call_ensures(random_time_codes_within_range, (time_code, n), r),
    ensures
        ({
            let seconds = time_code@ / 1_000_000_000 % 0x1_0000_0000;
            &&& r@.len() <= n
            &&& r@.len() <= seconds
            &&& r@.len() == n || r@.len() == seconds
        }),
        forall|i: int|
            0 <= i < r@.len() ==> (#[trigger] r@[i])@ < time_code@ && r@[i]@ % 1_000_000_000 == 0,
{
}

/// Points in time are the whole seconds that they are made of, in their order.
pub proof fn points_in_time_are_whole_seconds(seconds: Vec<u64>, r: Vec<Duration>, i: int)
    requires
        call_ensures(whole_second_time_codes, (&seconds,), r),
        0 <= i < seconds@.len(),
    ensures
        r@.len() == seconds@.len(),
        r@[i]@ == seconds@[i] * 1_000_000_000,
{
}

} // verus!
