//! Laws of the encode command: what its arguments hold, and what they do not.

use vstd::prelude::*;

use crate::ffmpeg;
use crate::ffmpeg::{
    args_for_all_maps, args_for_audio_5_1_side_workaround, args_for_audio_bitrate,
    args_for_audio_codecs, args_for_audio_downmix, args_for_audio_maps, args_for_encoding,
    args_for_external_subtitles_maps, args_for_input_encoding_duration_limit, args_for_input_seek,
    args_for_internal_subtitles_maps, args_for_mov_text_subtitle_workaround,
    args_for_subtitle_file_inputs, args_for_video_maps,
};
use crate::job::Job;
use crate::laws::settings;
use crate::laws::texts;
use crate::settings::{AudioChannelLayout, AudioSettings, OpusBitrate, VideoSettings};
use crate::strings;
use crate::subtitles::SubTitleType;

verus! {

/// Whether `args` hold an option with its value directly behind it.
pub open spec fn holds_pair(args: Seq<Seq<char>>, option: Seq<char>, value: Seq<char>) -> bool {
    exists|i: int|
        0 <= i < args.len() - 1 && #[trigger] args[i] == option && args[i + 1] == value
}

proof fn pair_within(
    before: Seq<Seq<char>>,
    args: Seq<Seq<char>>,
    after: Seq<Seq<char>>,
    option: Seq<char>,
    value: Seq<char>,
)
    requires
        holds_pair(args, option, value),
    ensures
        holds_pair(before + args + after, option, value),
{
    let i = choose|i: int|
        0 <= i < args.len() - 1 && #[trigger] args[i] == option && args[i + 1] == value;
    let whole = before + args + after;
    let k = before.len() + i;
    assert(whole[k] == option && whole[k + 1] == value);
}

proof fn pair_at(args: Seq<Seq<char>>, i: int)
    requires
        0 <= i < args.len() - 1,
    ensures
        holds_pair(args, args[i], args[i + 1]),
{
}

proof fn pair_of_part(
    n: nat,
    part: spec_fn(int) -> Seq<Seq<char>>,
    i: int,
    option: Seq<char>,
    value: Seq<char>,
)
    requires
        0 <= i < n,
        holds_pair(part(i), option, value),
    ensures
        holds_pair(ffmpeg::concatenated(n, part), option, value),
{
    let k = choose|k: int|
        0 <= k < part(i).len() - 1 && #[trigger] part(i)[k] == option && part(i)[k + 1] == value;
    ffmpeg::parts_stand_in_order(n, part, i, k);
    ffmpeg::parts_stand_in_order(n, part, i, k + 1);
    let at = ffmpeg::concatenated(i as nat, part).len() + k;
    let all = ffmpeg::concatenated(n, part);
    assert(all[at] == option && all[at + 1] == value);
}

proof fn equal_parts_concatenate_alike(
    n: nat,
    part: spec_fn(int) -> Seq<Seq<char>>,
    other: spec_fn(int) -> Seq<Seq<char>>,
)
    requires
        forall|k: int| 0 <= k < n ==> #[trigger] part(k) == other(k),
    ensures
        ffmpeg::concatenated(n, part) == ffmpeg::concatenated(n, other),
    decreases n,
{
    if n > 0 {
        equal_parts_concatenate_alike((n - 1) as nat, part, other);
        assert(part(n - 1) == other(n - 1));
    }
}

proof fn parts_without_an_argument(
    n: nat,
    part: spec_fn(int) -> Seq<Seq<char>>,
    argument: Seq<char>,
)
    requires
        forall|k: int| 0 <= k < n ==> !(#[trigger] part(k)).contains(argument),
    ensures
        !ffmpeg::concatenated(n, part).contains(argument),
    decreases n,
{
    if n > 0 {
        parts_without_an_argument((n - 1) as nat, part, argument);
        neither_holds(ffmpeg::concatenated((n - 1) as nat, part), part(n - 1), argument);
    }
}

proof fn neither_holds(a: Seq<Seq<char>>, b: Seq<Seq<char>>, argument: Seq<char>)
    requires
        !a.contains(argument),
        !b.contains(argument),
    ensures
        !(a + b).contains(argument),
{
    let whole = a + b;
    if whole.contains(argument) {
        let i = choose|i: int| 0 <= i < whole.len() && whole[i] == argument;
        if i < a.len() {
            assert(a[i] == argument);
        } else {
            assert(b[i - a.len()] == argument);
        }
    }
}

// ---------------------------------------------------------------------------------------------
// The parts of the command
// ---------------------------------------------------------------------------------------------

/// Whether `longer` has the streams and files of `shorter` and one more audio stream behind the
/// others.
pub open spec fn has_one_more_audio_stream(longer: Job, shorter: Job) -> bool {
    &&& longer.input_file_metadata is Some
    &&& shorter.input_file_metadata is Some
    &&& longer.input_file_metadata->0.audio_streams@.len() > 0
    &&& longer.input_file_metadata->0.audio_streams@.drop_last()
        == shorter.input_file_metadata->0.audio_streams@
    &&& longer.encoding == shorter.encoding
}

/// Whether `longer` has the streams and files of `shorter` and one more subtitle stream behind the
/// others.
pub open spec fn has_one_more_subtitle_stream(longer: Job, shorter: Job) -> bool {
    &&& longer.input_file_metadata is Some
    &&& shorter.input_file_metadata is Some
    &&& longer.input_file_metadata->0.subtitle_streams@.len() > 0
    &&& longer.input_file_metadata->0.subtitle_streams@.drop_last()
        == shorter.input_file_metadata->0.subtitle_streams@
}

/// Whether `longer` has the files of `shorter` and one more subtitle file behind the others, for
/// the same input and the same segment of it.
pub open spec fn has_one_more_subtitle_file(longer: Job, shorter: Job) -> bool {
    &&& longer.input_file_metadata is Some
    &&& shorter.input_file_metadata is Some
    &&& longer.input_file_metadata->0.highest_stream_index
        == shorter.input_file_metadata->0.highest_stream_index
    &&& longer.subtitle_files@.len() > 0
    &&& longer.subtitle_files@.drop_last() == shorter.subtitle_files@
    &&& longer.run == shorter.run
}

proof fn input_streams_are_named_by_number(index: u32)
    ensures
        ffmpeg::input_stream(index) == "0:"@ + strings::decimal(index as nat),
{
    reveal_strlit(":");
    reveal_strlit("0:");
    assert(strings::decimal(0) =~= seq!['0']);
    assert(strings::decimal(0) + ":"@ =~= "0:"@);
}

/// Of audio streams, each is mapped by its index in the input file, in the order of the streams.
pub proof fn another_audio_stream_is_mapped(
    longer: Job,
    shorter: Job,
    more: Vec<String>,
    fewer: Vec<String>,
)
    requires
        has_one_more_audio_stream(longer, shorter),
        call_ensures(args_for_audio_maps, (&longer,), more),
        call_ensures(args_for_audio_maps, (&shorter,), fewer),
    ensures
        strings::texts(more@) == strings::texts(fewer@) + seq![
            "-map"@,
            "0:"@ + strings::decimal(
                longer.input_file_metadata->0.audio_streams@.last().index as nat,
            ),
        ],
        shorter.input_file_metadata->0.audio_streams@.len() == 0 ==> fewer@.len() == 0,
{
    let streams = longer.input_file_metadata->0.audio_streams@;
    let others = shorter.input_file_metadata->0.audio_streams@;
    let part = |i: int| seq!["-map"@, ffmpeg::input_stream(streams[i].index)];
    let other = |i: int| seq!["-map"@, ffmpeg::input_stream(others[i].index)];
    equal_parts_concatenate_alike(others.len(), part, other);
    input_streams_are_named_by_number(streams.last().index);
    assert(strings::texts(more@) == ffmpeg::concatenated(streams.len(), part));
    assert(strings::texts(fewer@) == ffmpeg::concatenated(others.len(), other));
    texts::texts_are_those_of_the_strings(fewer@);
}

/// Of audio streams, each gets the codec opus, unless it is in opus, vorbis or mp3 already and
/// such streams are not to be encoded again, in which case it is copied.
pub proof fn another_audio_stream_gets_a_codec(
    longer: Job,
    shorter: Job,
    more: Vec<String>,
    fewer: Vec<String>,
)
    requires
        has_one_more_audio_stream(longer, shorter),
        call_ensures(args_for_audio_codecs, (&longer,), more),
        call_ensures(args_for_audio_codecs, (&shorter,), fewer),
    ensures
        ({
            let stream = longer.input_file_metadata->0.audio_streams@.last();
            let kept = !longer.encoding.audio.re_encode_good_audio_codecs && (stream.codec@
                == "opus"@ || stream.codec@ == "vorbis"@ || stream.codec@ == "mp3"@);
            strings::texts(more@) == strings::texts(fewer@) + seq![
                "-c:"@ + strings::decimal(stream.index as nat),
                if kept {
                    "copy"@
                } else {
                    "libopus"@
                },
            ]
        }),
        shorter.input_file_metadata->0.audio_streams@.len() == 0 ==> fewer@.len() == 0,
{
    let streams = longer.input_file_metadata->0.audio_streams@;
    let others = shorter.input_file_metadata->0.audio_streams@;
    let part = |i: int|
        seq![ffmpeg::numbered("-c:"@, streams[i].index as int), longer.audio_codec(streams[i])];
    let other = |i: int|
        seq![ffmpeg::numbered("-c:"@, others[i].index as int), shorter.audio_codec(others[i])];
    equal_parts_concatenate_alike(others.len(), part, other);
    assert(strings::texts(more@) == ffmpeg::concatenated(streams.len(), part));
    assert(strings::texts(fewer@) == ffmpeg::concatenated(others.len(), other));
    texts::texts_are_those_of_the_strings(fewer@);
}

/// Of audio streams, each gets the bitrate of its layout, in kilobits.
pub proof fn another_audio_stream_gets_a_bitrate(
    longer: Job,
    shorter: Job,
    more: Vec<String>,
    fewer: Vec<String>,
    bitrate: OpusBitrate,
)
    requires
        has_one_more_audio_stream(longer, shorter),
        call_ensures(args_for_audio_bitrate, (&longer,), more),
        call_ensures(args_for_audio_bitrate, (&shorter,), fewer),
        call_ensures(
            AudioSettings::bitrate_for_layout,
            (
                &longer.encoding.audio,
                &longer.input_file_metadata->0.audio_streams@.last().channel_layout,
            ),
            bitrate,
        ),
    ensures
        strings::texts(more@) == strings::texts(fewer@) + seq![
            "-b:"@ + strings::decimal(
                longer.input_file_metadata->0.audio_streams@.last().index as nat,
            ),
            strings::decimal(bitrate@ as nat) + "K"@,
        ],
        shorter.input_file_metadata->0.audio_streams@.len() == 0 ==> fewer@.len() == 0,
{
    let streams = longer.input_file_metadata->0.audio_streams@;
    let others = shorter.input_file_metadata->0.audio_streams@;
    let part = |i: int|
        seq![
            ffmpeg::numbered("-b:"@, streams[i].index as int),
            strings::decimal(
                longer.encoding.audio.spec_bitrate(streams[i].channel_layout) as nat,
            ) + "K"@,
        ];
    let other = |i: int|
        seq![
            ffmpeg::numbered("-b:"@, others[i].index as int),
            strings::decimal(
                shorter.encoding.audio.spec_bitrate(others[i].channel_layout) as nat,
            ) + "K"@,
        ];
    equal_parts_concatenate_alike(others.len(), part, other);
    assert(strings::texts(more@) == ffmpeg::concatenated(streams.len(), part));
    assert(strings::texts(fewer@) == ffmpeg::concatenated(others.len(), other));
    texts::texts_are_those_of_the_strings(fewer@);
}

/// An audio stream is mixed down to two channels where it is in 5.1 or in 7.1 and the setting for
/// that layout says so, and otherwise not.
pub proof fn another_audio_stream_may_be_mixed_down(
    longer: Job,
    shorter: Job,
    more: Vec<String>,
    fewer: Vec<String>,
)
    requires
        has_one_more_audio_stream(longer, shorter),
        call_ensures(args_for_audio_downmix, (&longer,), more),
        call_ensures(args_for_audio_downmix, (&shorter,), fewer),
    ensures
        ({
            let stream = longer.input_file_metadata->0.audio_streams@.last();
            let audio = longer.encoding.audio;
            let mixed = match stream.channel_layout {
                AudioChannelLayout::Surround51 => audio.downmix_5_1_to_stereo,
                AudioChannelLayout::Surround71 => audio.downmix_7_1_to_stereo,
                _ => false,
            };
            strings::texts(more@) == strings::texts(fewer@) + (if mixed {
                seq!["-ac:"@ + strings::decimal(stream.index as nat), "2"@]
            } else {
                seq![]
            })
        }),
        shorter.input_file_metadata->0.audio_streams@.len() == 0 ==> fewer@.len() == 0,
{
    let streams = longer.input_file_metadata->0.audio_streams@;
    let others = shorter.input_file_metadata->0.audio_streams@;
    let part = |i: int|
        if longer.is_downmixed(streams[i].channel_layout) {
            seq![ffmpeg::numbered("-ac:"@, streams[i].index as int), "2"@]
        } else {
            Seq::empty()
        };
    let other = |i: int|
        if shorter.is_downmixed(others[i].channel_layout) {
            seq![ffmpeg::numbered("-ac:"@, others[i].index as int), "2"@]
        } else {
            Seq::empty()
        };
    equal_parts_concatenate_alike(others.len(), part, other);
    assert(strings::texts(more@) == ffmpeg::concatenated(streams.len(), part));
    assert(strings::texts(fewer@) == ffmpeg::concatenated(others.len(), other));
    texts::texts_are_those_of_the_strings(fewer@);
}

/// An audio stream gets another layout where it is in 5.1 with side channels, and otherwise not.
pub proof fn another_audio_stream_may_change_its_layout(
    longer: Job,
    shorter: Job,
    more: Vec<String>,
    fewer: Vec<String>,
)
    requires
        has_one_more_audio_stream(longer, shorter),
        call_ensures(args_for_audio_5_1_side_workaround, (&longer,), more),
        call_ensures(args_for_audio_5_1_side_workaround, (&shorter,), fewer),
    ensures
        ({
            let stream = longer.input_file_metadata->0.audio_streams@.last();
            strings::texts(more@) == strings::texts(fewer@) + (if stream.channel_layout
                == AudioChannelLayout::Surround51Side {
                seq![
                    "-filter:"@ + strings::decimal(stream.index as nat),
                    "aformat=channel_layouts='7.1|5.1|stereo'"@,
                ]
            } else {
                seq![]
            })
        }),
        shorter.input_file_metadata->0.audio_streams@.len() == 0 ==> fewer@.len() == 0,
{
    let streams = longer.input_file_metadata->0.audio_streams@;
    let others = shorter.input_file_metadata->0.audio_streams@;
    let part = |i: int|
        if streams[i].channel_layout == AudioChannelLayout::Surround51Side {
            seq![
                ffmpeg::numbered("-filter:"@, streams[i].index as int),
                "aformat=channel_layouts='7.1|5.1|stereo'"@,
            ]
        } else {
            Seq::empty()
        };
    let other = |i: int|
        if others[i].channel_layout == AudioChannelLayout::Surround51Side {
            seq![
                ffmpeg::numbered("-filter:"@, others[i].index as int),
                "aformat=channel_layouts='7.1|5.1|stereo'"@,
            ]
        } else {
            Seq::empty()
        };
    equal_parts_concatenate_alike(others.len(), part, other);
    assert(strings::texts(more@) == ffmpeg::concatenated(streams.len(), part));
    assert(strings::texts(fewer@) == ffmpeg::concatenated(others.len(), other));
    texts::texts_are_those_of_the_strings(fewer@);
}

/// Of subtitle streams, each is mapped by its index in the input file, in the order of the
/// streams, and turned into srt exactly where its format is mov_text.
pub proof fn another_subtitle_stream_is_mapped(
    longer: Job,
    shorter: Job,
    more: Vec<String>,
    fewer: Vec<String>,
    more_changed: Vec<String>,
    fewer_changed: Vec<String>,
)
    requires
        has_one_more_subtitle_stream(longer, shorter),
        call_ensures(args_for_internal_subtitles_maps, (&longer,), more),
        call_ensures(args_for_internal_subtitles_maps, (&shorter,), fewer),
        call_ensures(args_for_mov_text_subtitle_workaround, (&longer,), more_changed),
        call_ensures(args_for_mov_text_subtitle_workaround, (&shorter,), fewer_changed),
    ensures
        ({
            let stream = longer.input_file_metadata->0.subtitle_streams@.last();
            &&& strings::texts(more@) == strings::texts(fewer@) + seq![
                "-map"@,
                "0:"@ + strings::decimal(stream.index as nat),
            ]
            &&& strings::texts(more_changed@) == strings::texts(fewer_changed@) + (
            if stream.format@ == "mov_text"@ {
                seq!["-c:"@ + strings::decimal(stream.index as nat), "srt"@]
            } else {
                seq![]
            })
        }),
        shorter.input_file_metadata->0.subtitle_streams@.len() == 0 ==> fewer@.len() == 0
            && fewer_changed@.len() == 0,
{
    let streams = longer.input_file_metadata->0.subtitle_streams@;
    let others = shorter.input_file_metadata->0.subtitle_streams@;
    let part = |i: int| seq!["-map"@, ffmpeg::input_stream(streams[i].index)];
    let other = |i: int| seq!["-map"@, ffmpeg::input_stream(others[i].index)];
    equal_parts_concatenate_alike(others.len(), part, other);
    input_streams_are_named_by_number(streams.last().index);
    assert(strings::texts(more@) == ffmpeg::concatenated(streams.len(), part));
    assert(strings::texts(fewer@) == ffmpeg::concatenated(others.len(), other));
    let change = |i: int|
        if streams[i].format@ == "mov_text"@ {
            seq![ffmpeg::numbered("-c:"@, streams[i].index as int), "srt"@]
        } else {
            Seq::empty()
        };
    let other_change = |i: int|
        if others[i].format@ == "mov_text"@ {
            seq![ffmpeg::numbered("-c:"@, others[i].index as int), "srt"@]
        } else {
            Seq::empty()
        };
    equal_parts_concatenate_alike(others.len(), change, other_change);
    assert(strings::texts(more_changed@) == ffmpeg::concatenated(streams.len(), change));
    assert(strings::texts(fewer_changed@) == ffmpeg::concatenated(others.len(), other_change));
    texts::texts_are_those_of_the_strings(fewer@);
    texts::texts_are_those_of_the_strings(fewer_changed@);
}

/// Of subtitle files, each becomes an input, with the seek in front of it and the limit behind
/// it that the input file has.
pub proof fn another_subtitle_file_becomes_an_input(
    longer: Job,
    shorter: Job,
    more: Vec<String>,
    fewer: Vec<String>,
    seek: Vec<String>,
    limit: Vec<String>,
)
    requires
        has_one_more_subtitle_file(longer, shorter),
        call_ensures(args_for_subtitle_file_inputs, (&longer,), more),
        call_ensures(args_for_subtitle_file_inputs, (&shorter,), fewer),
        call_ensures(args_for_input_seek, (&longer,), seek),
        call_ensures(args_for_input_encoding_duration_limit, (&longer,), limit),
    ensures
        strings::texts(more@) == strings::texts(fewer@) + strings::texts(seek@) + seq![
            "-i"@,
            longer.subtitle_files@.last().path.text@,
        ] + strings::texts(limit@),
        shorter.subtitle_files@.len() == 0 ==> fewer@.len() == 0,
{
    let files = longer.subtitle_files@;
    let others = shorter.subtitle_files@;
    let part = |i: int|
        longer.input_seek() + seq!["-i"@, files[i].path.text@] + longer.duration_limit();
    let other = |i: int|
        shorter.input_seek() + seq!["-i"@, others[i].path.text@] + shorter.duration_limit();
    equal_parts_concatenate_alike(others.len(), part, other);
    assert(strings::texts(more@) == ffmpeg::concatenated(files.len(), part));
    assert(strings::texts(fewer@) == ffmpeg::concatenated(others.len(), other));
    texts::texts_are_those_of_the_strings(fewer@);
    assert(strings::texts(more@) =~= strings::texts(fewer@) + strings::texts(seek@) + seq![
        "-i"@,
        files.last().path.text@,
    ] + strings::texts(limit@));
}

/// Of subtitle files, each is mapped by the number of its input, which follows those of the input
/// file and of the files before it. Its stream in the output, which gets a number above those of
/// the input file, is labelled with its language where that is known, and as SDH where it is.
pub proof fn another_subtitle_file_is_mapped(
    longer: Job,
    shorter: Job,
    more: Vec<String>,
    fewer: Vec<String>,
)
    requires
        has_one_more_subtitle_file(longer, shorter),
        call_ensures(args_for_external_subtitles_maps, (&longer,), more),
        call_ensures(args_for_external_subtitles_maps, (&shorter,), fewer),
    ensures
        ({
            let file = longer.subtitle_files@.last();
            let number = shorter.subtitle_files@.len() + 1;
            let stream = longer.input_file_metadata->0.highest_stream_index as nat + number;
            let label = "-metadata:s:"@ + strings::decimal(stream);
            strings::texts(more@) == strings::texts(fewer@) + seq![
                "-map"@,
                strings::decimal(number),
            ] + (match file.language {
                Some(language) => seq![label, "language="@ + language@],
                None => seq![],
            }) + (if file.kind == SubTitleType::SDH {
                seq![label, "title=SDH"@]
            } else {
                seq![]
            })
        }),
        shorter.subtitle_files@.len() == 0 ==> fewer@.len() == 0,
{
    let n = shorter.subtitle_files@.len();
    let part = |i: int| longer.external_subtitle_map(i);
    let other = |i: int| shorter.external_subtitle_map(i);
    assert forall|k: int| 0 <= k < n implies #[trigger] part(k) == other(k) by {
        assert(longer.subtitle_files@[k] == shorter.subtitle_files@[k]);
    }
    equal_parts_concatenate_alike(n, part, other);
    assert(strings::texts(more@) == ffmpeg::concatenated(n + 1, part));
    assert(strings::texts(fewer@) == ffmpeg::concatenated(n, other));
    texts::texts_are_those_of_the_strings(fewer@);
    let file = longer.subtitle_files@.last();
    let stream = longer.input_file_metadata->0.highest_stream_index as nat + n + 1;
    let label = "-metadata:s:"@ + strings::decimal(stream);
    assert(strings::texts(more@) =~= strings::texts(fewer@) + seq![
        "-map"@,
        strings::decimal(n + 1),
    ] + (match file.language {
        Some(language) => seq![label, "language="@ + language@],
        None => seq![],
    }) + (if file.kind == SubTitleType::SDH {
        seq![label, "title=SDH"@]
    } else {
        seq![]
    }));
}

/// Where only a segment is encoded, the seek goes to the start that was set, if one was, and the
/// limit is the whole seconds that were set, if any were. Otherwise there is neither.
pub proof fn segments_are_sought_and_limited(job: Job, seek: Vec<String>, limit: Vec<String>)
    requires
        call_ensures(args_for_input_seek, (&job,), seek),
        call_ensures(args_for_input_encoding_duration_limit, (&job,), limit),
    ensures
        !job.run.only_encode_segment || job.run.start@ is None ==> seek@.len() == 0,
        job.run.only_encode_segment && job.run.start@ is Some ==> seek@.len() == 2 && seek@[0]@
            == "-ss"@ && Some(seek@[1]@) == job.run.start@,
        !job.run.only_encode_segment || job.run.only_encode_for is None ==> limit@.len() == 0,
        job.run.only_encode_segment && job.run.only_encode_for is Some ==> limit@.len() == 2
            && limit@[0]@ == "-t"@ && limit@[1]@ == strings::decimal(
            job.run.only_encode_for->0@ / 1_000_000_000,
        ),
{
    texts::texts_are_those_of_the_strings(seek@);
    texts::texts_are_those_of_the_strings(limit@);
    let sought = strings::texts(seek@);
    let limited = strings::texts(limit@);
    assert(sought == job.input_seek());
    assert(limited == job.duration_limit());
    if job.run.only_encode_segment && job.run.start@ is Some {
        assert(sought[0] == seek@[0]@ && sought[1] == seek@[1]@);
    }
    if job.run.only_encode_segment && job.run.only_encode_for is Some {
        assert(limited[0] == limit@[0]@ && limited[1] == limit@[1]@);
    }
}

/// All maps are those of the first video stream, of the audio streams, of the subtitle streams
/// and of the subtitle files, in this order, which is that of the streams in the output.
pub proof fn maps_are_put_together(
    job: Job,
    all: Vec<String>,
    video: Vec<String>,
    audio: Vec<String>,
    internal: Vec<String>,
    external: Vec<String>,
)
    requires
        call_ensures(args_for_all_maps, (&job,), all),
        call_ensures(args_for_video_maps, (), video),
        call_ensures(args_for_audio_maps, (&job,), audio),
        call_ensures(args_for_internal_subtitles_maps, (&job,), internal),
        call_ensures(args_for_external_subtitles_maps, (&job,), external),
    ensures
        strings::texts(video@) == seq!["-map"@, "v:0"@],
        strings::texts(all@) == strings::texts(video@) + strings::texts(audio@) + strings::texts(
            internal@,
        ) + strings::texts(external@),
{
}

/// There is a command for every job whose input is known, as long as the streams and inputs of its
/// subtitle files can be numbered in 32 bits.
pub proof fn known_inputs_can_be_encoded(job: Job)
    requires
        job.input_file_metadata is Some,
        job.input_file_metadata->0.highest_stream_index + 1 + job.subtitle_files@.len()
            <= 0xffff_ffff,
        job.subtitle_files@.len() < 0x7fff_ffff,
    ensures
        call_requires(args_for_encoding, (&job,)),
        call_requires(args_for_all_maps, (&job,)),
        call_requires(args_for_external_subtitles_maps, (&job,)),
        call_requires(args_for_audio_maps, (&job,)),
        call_requires(args_for_audio_codecs, (&job,)),
        call_requires(args_for_audio_bitrate, (&job,)),
        call_requires(args_for_audio_downmix, (&job,)),
        call_requires(args_for_audio_5_1_side_workaround, (&job,)),
        call_requires(args_for_internal_subtitles_maps, (&job,)),
        call_requires(args_for_mov_text_subtitle_workaround, (&job,)),
        call_requires(args_for_input_seek, (&job,)),
        call_requires(args_for_input_encoding_duration_limit, (&job,)),
        call_requires(args_for_subtitle_file_inputs, (&job,)),
{
}

// ---------------------------------------------------------------------------------------------
// The whole command
// ---------------------------------------------------------------------------------------------

/// The inputs with what is sought and limited in them come first, then what concerns the video,
/// the audio, the maps and the subtitles, and the output file comes last.
pub proof fn the_command_starts_with_the_inputs_and_ends_with_the_output(
    job: Job,
    args: Vec<String>,
    seek: Vec<String>,
    limit: Vec<String>,
    subtitle_files: Vec<String>,
)
    requires
        call_ensures(args_for_encoding, (&job,), args),
        call_ensures(args_for_input_seek, (&job,), seek),
        call_ensures(args_for_input_encoding_duration_limit, (&job,), limit),
        call_ensures(args_for_subtitle_file_inputs, (&job,), subtitle_files),
    ensures
        (seq!["-hide_banner"@] + strings::texts(seek@) + seq!["-i"@, job.paths.input_file.text@]
            + strings::texts(limit@) + strings::texts(subtitle_files@)).is_prefix_of(
            strings::texts(args@),
        ),
        seq!["-f"@, "matroska"@, "-y"@, job.paths.output_file.text@].is_suffix_of(
            strings::texts(args@),
        ),
{
    let all = strings::texts(args@);
    assert(all == job.encode_args());
    let inputs = seq!["-hide_banner"@] + job.input_seek() + seq![
        "-i"@,
        job.paths.input_file.text@,
    ] + job.duration_limit() + job.subtitle_inputs();
    assert(inputs =~= all.subrange(0, inputs.len() as int));
    let output = seq!["-f"@, "matroska"@, "-y"@, job.paths.output_file.text@];
    assert(output =~= all.subrange(all.len() - 4, all.len() as int));
}

/// The command is made of the arguments of its parts, each of them once, and of nothing else but
/// the names of the files and what is the same for all jobs.
pub proof fn the_command_is_put_together(
    job: Job,
    args: Vec<String>,
    seek: Vec<String>,
    limit: Vec<String>,
    subtitle_files: Vec<String>,
    filters: Vec<String>,
    parameters: Vec<String>,
    codecs: Vec<String>,
    maps: Vec<String>,
    bitrates: Vec<String>,
    downmixes: Vec<String>,
    layouts: Vec<String>,
    formats: Vec<String>,
)
    requires
        call_ensures(args_for_encoding, (&job,), args),
        call_ensures(args_for_input_seek, (&job,), seek),
        call_ensures(args_for_input_encoding_duration_limit, (&job,), limit),
        call_ensures(args_for_subtitle_file_inputs, (&job,), subtitle_files),
        call_ensures(VideoSettings::filter_args, (&job.encoding.video,), filters),
        call_ensures(VideoSettings::av1_args, (&job.encoding.video,), parameters),
        call_ensures(args_for_audio_codecs, (&job,), codecs),
        call_ensures(args_for_all_maps, (&job,), maps),
        call_ensures(args_for_audio_bitrate, (&job,), bitrates),
        call_ensures(args_for_audio_downmix, (&job,), downmixes),
        call_ensures(args_for_audio_5_1_side_workaround, (&job,), layouts),
        call_ensures(args_for_mov_text_subtitle_workaround, (&job,), formats),
    ensures
        strings::texts(args@) == seq!["-hide_banner"@] + strings::texts(seek@) + seq![
            "-i"@,
            job.paths.input_file.text@,
        ] + strings::texts(limit@) + strings::texts(subtitle_files@) + seq![
            "-pix_fmt"@,
            "yuv420p10le"@,
            "-c:v"@,
            "libsvtav1"@,
            "-crf:v"@,
            strings::decimal(job.encoding.video.crf@ as nat),
            "-preset:v"@,
            strings::decimal(job.encoding.video.preset@ as nat),
        ] + strings::texts(filters@) + strings::texts(parameters@) + strings::texts(codecs@)
            + strings::texts(maps@) + strings::texts(bitrates@) + strings::texts(downmixes@)
            + strings::texts(layouts@) + seq!["-c:s"@, "copy"@] + strings::texts(formats@) + seq![
            "-f"@,
            "matroska"@,
            "-y"@,
            job.paths.output_file.text@,
        ],
{
}

/// The command encodes the video to AV1 with ten bits, with the rate factor and the preset that
/// were chosen, and copies subtitles into a matroska file.
pub proof fn the_command_encodes_as_chosen(job: Job, args: Vec<String>)
    requires
        call_ensures(args_for_encoding, (&job,), args),
    ensures
        ({
            let all = strings::texts(args@);
            let video = job.encoding.video;
            &&& holds_pair(all, "-i"@, job.paths.input_file.text@)
            &&& holds_pair(all, "-pix_fmt"@, "yuv420p10le"@)
            &&& holds_pair(all, "-c:v"@, "libsvtav1"@)
            &&& holds_pair(all, "-crf:v"@, strings::decimal(video.crf@ as nat))
            &&& holds_pair(all, "-preset:v"@, strings::decimal(video.preset@ as nat))
            &&& holds_pair(all, "-map"@, "v:0"@)
            &&& holds_pair(all, "-c:s"@, "copy"@)
            &&& holds_pair(all, "-f"@, "matroska"@)
            &&& holds_pair(all, "-y"@, job.paths.output_file.text@)
        }),
{
    let all = strings::texts(args@);
    let inputs = seq!["-hide_banner"@] + job.input_seek() + seq![
        "-i"@,
        job.paths.input_file.text@,
    ] + job.duration_limit() + job.subtitle_inputs();
    let start = inputs.len() as int;
    assert(all[start] == "-pix_fmt"@);
    pair_at(all, 1 + job.input_seek().len() as int);
    pair_at(all, start);
    pair_at(all, start + 2);
    pair_at(all, start + 4);
    pair_at(all, start + 6);
    let maps = start + 8 + job.encoding.video.spec_filter_args().len()
        + job.encoding.video.spec_av1_args().len() + job.audio_codecs().len();
    assert(all[maps] == "-map"@);
    assert(all[maps + 1] == "v:0"@);
    pair_at(all, maps);
    pair_at(all, job.encode_args_before_subtitles().len() as int);
    pair_at(all, all.len() - 4);
    pair_at(all, all.len() - 2);
}

/// Where the cut or the scaling is switched on, the command holds `-vf` directly followed by the
/// filters that are switched on, with the chosen numbers.
pub proof fn the_command_filters_as_chosen(job: Job, args: Vec<String>)
    requires
        call_ensures(args_for_encoding, (&job,), args),
        job.encoding.video.crop || job.encoding.video.scale,
    ensures
        exists|i: int|
            0 <= i < args@.len() - 1 && (#[trigger] args@[i])@ == "-vf"@
                && settings::are_the_filters(args@[i + 1]@, job.encoding.video),
{
    settings::filters_are_the_filters(job.encoding.video);
    texts::texts_are_those_of_the_strings(args@);
    let all = strings::texts(args@);
    let passed = job.encoding.video.spec_filter_args();
    let inputs = seq!["-hide_banner"@] + job.input_seek() + seq![
        "-i"@,
        job.paths.input_file.text@,
    ] + job.duration_limit() + job.subtitle_inputs();
    let i = inputs.len() as int + 8;
    assert(passed.len() == 2);
    assert(all[i] == passed[0] && all[i + 1] == passed[1]);
    assert(all[i] == args@[i]@ && all[i + 1] == args@[i + 1]@);
}

/// Whether none of `args` can be mistaken for `-vf`.
spec fn lacks_filters(args: Seq<Seq<char>>) -> bool {
    !args.contains("-vf"@)
}

proof fn is_no_filter(argument: Seq<char>)
    requires
        argument.len() != 3 || argument[0] != '-' || argument[1] != 'v',
    ensures
        argument != "-vf"@,
{
    reveal_strlit("-vf");
    assert("-vf"@.len() == 3 && "-vf"@[0] == '-' && "-vf"@[1] == 'v');
}

proof fn numbered_options_are_no_filters(prefix: Seq<char>, number: nat)
    requires
        prefix.len() >= 3,
    ensures
        prefix + strings::decimal(number) != "-vf"@,
{
    strings::decimal_is_read_back(number);
    is_no_filter(prefix + strings::decimal(number));
}

proof fn numbers_are_no_filters(number: nat, unit: Seq<char>)
    ensures
        strings::decimal(number) + unit != "-vf"@,
        strings::decimal(number) != "-vf"@,
{
    strings::decimal_is_read_back(number);
    assert(strings::is_digit(strings::decimal(number)[0]));
    assert((strings::decimal(number) + unit)[0] == strings::decimal(number)[0]);
    is_no_filter(strings::decimal(number) + unit);
    is_no_filter(strings::decimal(number));
}

proof fn pairs_without_filters(a: Seq<char>, b: Seq<char>)
    requires
        a != "-vf"@,
        b != "-vf"@,
    ensures
        lacks_filters(seq![a, b]),
{
    let pair = seq![a, b];
    assert forall|i: int| 0 <= i < pair.len() implies pair[i] != "-vf"@ by {}
}

proof fn nothing_lacks_filters()
    ensures
        lacks_filters(Seq::empty()),
{
}

proof fn streams_are_passed_on_without_filters(job: Job)
    requires
        job.input_file_metadata is Some,
    ensures
        lacks_filters(job.audio_maps()),
        lacks_filters(job.internal_subtitle_maps()),
        lacks_filters(job.audio_codecs()),
        lacks_filters(job.audio_bitrates()),
        lacks_filters(job.audio_downmixes()),
        lacks_filters(job.side_channel_workaround()),
        lacks_filters(job.mov_text_workaround()),
{
    let vf = "-vf"@;
    reveal_strlit("-map");
    is_no_filter("-map"@);
    reveal_strlit("0:");
    reveal_strlit("-c:");
    reveal_strlit("-b:");
    reveal_strlit("K");
    reveal_strlit("-ac:");
    reveal_strlit("2");
    is_no_filter("2"@);
    reveal_strlit("-filter:");
    reveal_strlit("aformat=channel_layouts='7.1|5.1|stereo'");
    is_no_filter("aformat=channel_layouts='7.1|5.1|stereo'"@);
    reveal_strlit("srt");
    is_no_filter("srt"@);
    reveal_strlit("libopus");
    is_no_filter("libopus"@);
    reveal_strlit("copy");
    is_no_filter("copy"@);
    let audio = job.input_file_metadata->0.audio_streams@;
    let subtitles = job.input_file_metadata->0.subtitle_streams@;
    nothing_lacks_filters();

    let map = |i: int| seq!["-map"@, ffmpeg::input_stream(audio[i].index)];
    assert forall|k: int| 0 <= k < audio.len() implies !(#[trigger] map(k)).contains(vf) by {
        input_streams_are_named_by_number(audio[k].index);
        assert(ffmpeg::input_stream(audio[k].index)[0] == '0');
        is_no_filter(ffmpeg::input_stream(audio[k].index));
        pairs_without_filters("-map"@, ffmpeg::input_stream(audio[k].index));
    }
    parts_without_an_argument(audio.len(), map, vf);

    let subtitle_map = |i: int| seq!["-map"@, ffmpeg::input_stream(subtitles[i].index)];
    assert forall|k: int| 0 <= k < subtitles.len() implies !(#[trigger] subtitle_map(k)).contains(
        vf,
    ) by {
        input_streams_are_named_by_number(subtitles[k].index);
        assert(ffmpeg::input_stream(subtitles[k].index)[0] == '0');
        is_no_filter(ffmpeg::input_stream(subtitles[k].index));
        pairs_without_filters("-map"@, ffmpeg::input_stream(subtitles[k].index));
    }
    parts_without_an_argument(subtitles.len(), subtitle_map, vf);

    let codec = |i: int|
        seq![ffmpeg::numbered("-c:"@, audio[i].index as int), job.audio_codec(audio[i])];
    assert forall|k: int| 0 <= k < audio.len() implies !(#[trigger] codec(k)).contains(vf) by {
        numbered_options_are_no_filters("-c:"@, audio[k].index as nat);
        pairs_without_filters(
            ffmpeg::numbered("-c:"@, audio[k].index as int),
            job.audio_codec(audio[k]),
        );
    }
    parts_without_an_argument(audio.len(), codec, vf);

    let bitrate = |i: int|
        seq![
            ffmpeg::numbered("-b:"@, audio[i].index as int),
            strings::decimal(job.encoding.audio.spec_bitrate(audio[i].channel_layout) as nat)
                + "K"@,
        ];
    assert forall|k: int| 0 <= k < audio.len() implies !(#[trigger] bitrate(k)).contains(vf) by {
        let rate = job.encoding.audio.spec_bitrate(audio[k].channel_layout) as nat;
        numbered_options_are_no_filters("-b:"@, audio[k].index as nat);
        numbers_are_no_filters(rate, "K"@);
        pairs_without_filters(
            ffmpeg::numbered("-b:"@, audio[k].index as int),
            strings::decimal(rate) + "K"@,
        );
    }
    parts_without_an_argument(audio.len(), bitrate, vf);

    let downmix = |i: int|
        if job.is_downmixed(audio[i].channel_layout) {
            seq![ffmpeg::numbered("-ac:"@, audio[i].index as int), "2"@]
        } else {
            Seq::empty()
        };
    assert forall|k: int| 0 <= k < audio.len() implies !(#[trigger] downmix(k)).contains(vf) by {
        numbered_options_are_no_filters("-ac:"@, audio[k].index as nat);
        pairs_without_filters(ffmpeg::numbered("-ac:"@, audio[k].index as int), "2"@);
    }
    parts_without_an_argument(audio.len(), downmix, vf);

    let side = |i: int|
        if audio[i].channel_layout == AudioChannelLayout::Surround51Side {
            seq![
                ffmpeg::numbered("-filter:"@, audio[i].index as int),
                "aformat=channel_layouts='7.1|5.1|stereo'"@,
            ]
        } else {
            Seq::empty()
        };
    assert forall|k: int| 0 <= k < audio.len() implies !(#[trigger] side(k)).contains(vf) by {
        numbered_options_are_no_filters("-filter:"@, audio[k].index as nat);
        pairs_without_filters(
            ffmpeg::numbered("-filter:"@, audio[k].index as int),
            "aformat=channel_layouts='7.1|5.1|stereo'"@,
        );
    }
    parts_without_an_argument(audio.len(), side, vf);

    let format = |i: int|
        if subtitles[i].format@ == "mov_text"@ {
            seq![ffmpeg::numbered("-c:"@, subtitles[i].index as int), "srt"@]
        } else {
            Seq::empty()
        };
    assert forall|k: int| 0 <= k < subtitles.len() implies !(#[trigger] format(k)).contains(vf) by {
        numbered_options_are_no_filters("-c:"@, subtitles[k].index as nat);
        pairs_without_filters(ffmpeg::numbered("-c:"@, subtitles[k].index as int), "srt"@);
    }
    parts_without_an_argument(subtitles.len(), format, vf);
}

proof fn inputs_are_passed_on_without_filters(job: Job)
    requires
        job.run.start@ != Some("-vf"@),
        forall|i: int|
            0 <= i < job.subtitle_files@.len() ==> (#[trigger] job.subtitle_files@[i]).path.text@
                != "-vf"@,
    ensures
        lacks_filters(job.input_seek()),
        lacks_filters(job.duration_limit()),
        lacks_filters(job.subtitle_inputs()),
        lacks_filters(job.external_subtitle_maps()),
{
    let vf = "-vf"@;
    reveal_strlit("-ss");
    is_no_filter("-ss"@);
    reveal_strlit("-t");
    is_no_filter("-t"@);
    reveal_strlit("-i");
    is_no_filter("-i"@);
    reveal_strlit("-map");
    is_no_filter("-map"@);
    reveal_strlit("-metadata:s:");
    reveal_strlit("language=");
    reveal_strlit("title=SDH");
    is_no_filter("title=SDH"@);
    nothing_lacks_filters();
    if job.run.start@ is Some {
        pairs_without_filters("-ss"@, job.run.start@->0);
    }
    if let Some(length) = job.run.only_encode_for {
        numbers_are_no_filters(length.seconds(), seq![]);
        pairs_without_filters("-t"@, strings::decimal(length.seconds()));
    }
    let files = job.subtitle_files@;
    let input = |i: int|
        job.input_seek() + seq!["-i"@, files[i].path.text@] + job.duration_limit();
    assert forall|k: int| 0 <= k < files.len() implies !(#[trigger] input(k)).contains(vf) by {
        pairs_without_filters("-i"@, files[k].path.text@);
        neither_holds(job.input_seek(), seq!["-i"@, files[k].path.text@], vf);
        neither_holds(
            job.input_seek() + seq!["-i"@, files[k].path.text@],
            job.duration_limit(),
            vf,
        );
    }
    parts_without_an_argument(files.len(), input, vf);

    let map = |i: int| job.external_subtitle_map(i);
    assert forall|k: int| 0 <= k < files.len() implies !(#[trigger] map(k)).contains(vf) by {
        let label = ffmpeg::numbered("-metadata:s:"@, job.external_stream_index(k));
        numbered_options_are_no_filters("-metadata:s:"@, job.external_stream_index(k) as nat);
        numbers_are_no_filters((k + 1) as nat, seq![]);
        let number = seq!["-map"@, strings::decimal((k + 1) as nat)];
        pairs_without_filters("-map"@, strings::decimal((k + 1) as nat));
        let language = match files[k].language {
            Some(l) => seq![label, "language="@ + l@],
            None => Seq::empty(),
        };
        if let Some(l) = files[k].language {
            assert(("language="@ + l@)[0] == 'l');
            is_no_filter("language="@ + l@);
            pairs_without_filters(label, "language="@ + l@);
        }
        let title = if files[k].kind == SubTitleType::SDH {
            seq![label, "title=SDH"@]
        } else {
            Seq::empty()
        };
        pairs_without_filters(label, "title=SDH"@);
        neither_holds(number, language, vf);
        neither_holds(number + language, title, vf);
        assert(map(k) == number + language + title);
    }
    parts_without_an_argument(files.len(), map, vf);
}

/// Where neither the cut nor the scaling is switched on, the command holds no `-vf`, unless a
/// file or the start of the segment is named so.
pub proof fn the_command_filters_nothing_else(job: Job, args: Vec<String>)
    requires
        job.input_file_metadata is Some,
        call_ensures(args_for_encoding, (&job,), args),
        !job.encoding.video.crop,
        !job.encoding.video.scale,
        job.paths.input_file.text@ != "-vf"@,
        job.paths.output_file.text@ != "-vf"@,
        job.run.start@ != Some("-vf"@),
        forall|i: int|
            0 <= i < job.subtitle_files@.len() ==> (#[trigger] job.subtitle_files@[i]).path.text@
                != "-vf"@,
    ensures
        forall|i: int| 0 <= i < args@.len() ==> (#[trigger] args@[i])@ != "-vf"@,
{
    let vf = "-vf"@;
    streams_are_passed_on_without_filters(job);
    inputs_are_passed_on_without_filters(job);
    reveal_strlit("-hide_banner");
    is_no_filter("-hide_banner"@);
    reveal_strlit("-i");
    is_no_filter("-i"@);
    reveal_strlit("-pix_fmt");
    is_no_filter("-pix_fmt"@);
    reveal_strlit("yuv420p10le");
    is_no_filter("yuv420p10le"@);
    reveal_strlit("-c:v");
    is_no_filter("-c:v"@);
    reveal_strlit("libsvtav1");
    is_no_filter("libsvtav1"@);
    reveal_strlit("-crf:v");
    is_no_filter("-crf:v"@);
    reveal_strlit("-preset:v");
    is_no_filter("-preset:v"@);
    reveal_strlit("-svtav1-params");
    is_no_filter("-svtav1-params"@);
    reveal_strlit(
        "tune=0:sharpness=1:input-depth=10:enable-qm=1:qm-min=0:keyint=300:aq-mode=2:sharpness=1:irefresh-type=2:film-grain=",
    );
    reveal_strlit("-map");
    is_no_filter("-map"@);
    reveal_strlit("v:0");
    is_no_filter("v:0"@);
    reveal_strlit("-c:s");
    is_no_filter("-c:s"@);
    reveal_strlit("copy");
    is_no_filter("copy"@);
    reveal_strlit("-f");
    is_no_filter("-f"@);
    reveal_strlit("matroska");
    is_no_filter("matroska"@);
    reveal_strlit("-y");
    is_no_filter("-y"@);
    let video = job.encoding.video;
    let banner = seq!["-hide_banner"@];
    let input = seq!["-i"@, job.paths.input_file.text@];
    let options = seq![
        "-pix_fmt"@,
        "yuv420p10le"@,
        "-c:v"@,
        "libsvtav1"@,
        "-crf:v"@,
        strings::decimal(video.crf@ as nat),
        "-preset:v"@,
        strings::decimal(video.preset@ as nat),
    ];
    let parameters = video.spec_av1_args();
    let first_map = seq!["-map"@, "v:0"@];
    let copy = seq!["-c:s"@, "copy"@];
    let output = seq!["-f"@, "matroska"@, "-y"@, job.paths.output_file.text@];
    numbers_are_no_filters(video.crf@ as nat, seq![]);
    numbers_are_no_filters(video.preset@ as nat, seq![]);
    assert(parameters[1][0] == 't');
    is_no_filter(parameters[1]);
    assert forall|i: int| 0 <= i < banner.len() implies banner[i] != vf by {}
    assert forall|i: int| 0 <= i < input.len() implies input[i] != vf by {}
    assert forall|i: int| 0 <= i < options.len() implies options[i] != vf by {}
    assert forall|i: int| 0 <= i < parameters.len() implies parameters[i] != vf by {}
    assert forall|i: int| 0 <= i < first_map.len() implies first_map[i] != vf by {}
    assert forall|i: int| 0 <= i < copy.len() implies copy[i] != vf by {}
    assert forall|i: int| 0 <= i < output.len() implies output[i] != vf by {}
    assert(lacks_filters(video.spec_filter_args()));

    let m1 = first_map + job.audio_maps();
    neither_holds(first_map, job.audio_maps(), vf);
    let m2 = m1 + job.internal_subtitle_maps();
    neither_holds(m1, job.internal_subtitle_maps(), vf);
    neither_holds(m2, job.external_subtitle_maps(), vf);
    assert(job.all_maps() == m2 + job.external_subtitle_maps());

    let a1 = banner + job.input_seek();
    neither_holds(banner, job.input_seek(), vf);
    let a2 = a1 + input;
    neither_holds(a1, input, vf);
    let a3 = a2 + job.duration_limit();
    neither_holds(a2, job.duration_limit(), vf);
    let a4 = a3 + job.subtitle_inputs();
    neither_holds(a3, job.subtitle_inputs(), vf);
    let a5 = a4 + options;
    neither_holds(a4, options, vf);
    let a6 = a5 + video.spec_filter_args();
    neither_holds(a5, video.spec_filter_args(), vf);
    let a7 = a6 + parameters;
    neither_holds(a6, parameters, vf);
    let a8 = a7 + job.audio_codecs();
    neither_holds(a7, job.audio_codecs(), vf);
    let a9 = a8 + job.all_maps();
    neither_holds(a8, job.all_maps(), vf);
    let a10 = a9 + job.audio_bitrates();
    neither_holds(a9, job.audio_bitrates(), vf);
    let a11 = a10 + job.audio_downmixes();
    neither_holds(a10, job.audio_downmixes(), vf);
    let a12 = a11 + job.side_channel_workaround();
    neither_holds(a11, job.side_channel_workaround(), vf);
    let a13 = a12 + copy;
    neither_holds(a12, copy, vf);
    let a14 = a13 + job.mov_text_workaround();
    neither_holds(a13, job.mov_text_workaround(), vf);
    neither_holds(a14, output, vf);
    texts::texts_are_those_of_the_strings(args@);
    let all = strings::texts(args@);
    assert(all == a14 + output);
    assert forall|i: int| 0 <= i < args@.len() implies (#[trigger] args@[i])@ != vf by {
        assert(all[i] == args@[i]@);
    }
}

// ---------------------------------------------------------------------------------------------
// Streams in the whole command
// ---------------------------------------------------------------------------------------------

proof fn pair_in_sum(
    a: Seq<Seq<char>>,
    b: Seq<Seq<char>>,
    option: Seq<char>,
    value: Seq<char>,
)
    requires
        holds_pair(a, option, value) || holds_pair(b, option, value),
    ensures
        holds_pair(a + b, option, value),
{
    if holds_pair(a, option, value) {
        pair_within(seq![], a, b, option, value);
        assert(seq![] + a + b =~= a + b);
    } else {
        pair_within(a, b, seq![], option, value);
        assert(a + b + seq![] =~= a + b);
    }
}

proof fn sections_are_passed_on(job: Job, option: Seq<char>, value: Seq<char>)
    requires
        holds_pair(job.audio_codecs(), option, value) || holds_pair(job.all_maps(), option, value)
            || holds_pair(job.audio_bitrates(), option, value) || holds_pair(
            job.audio_downmixes(),
            option,
            value,
        ) || holds_pair(job.side_channel_workaround(), option, value),
    ensures
        holds_pair(job.encode_args(), option, value),
{
    let video = job.encoding.video;
    let before = seq!["-hide_banner"@] + job.input_seek() + seq![
        "-i"@,
        job.paths.input_file.text@,
    ] + job.duration_limit() + job.subtitle_inputs() + seq![
        "-pix_fmt"@,
        "yuv420p10le"@,
        "-c:v"@,
        "libsvtav1"@,
        "-crf:v"@,
        strings::decimal(video.crf@ as nat),
        "-preset:v"@,
        strings::decimal(video.preset@ as nat),
    ] + video.spec_filter_args() + video.spec_av1_args();
    let with_codecs = before + job.audio_codecs();
    let with_maps = with_codecs + job.all_maps();
    let with_bitrates = with_maps + job.audio_bitrates();
    let with_downmixes = with_bitrates + job.audio_downmixes();
    let with_layouts = with_downmixes + job.side_channel_workaround();
    if holds_pair(job.audio_codecs(), option, value) {
        pair_in_sum(before, job.audio_codecs(), option, value);
    }
    if holds_pair(with_codecs, option, value) || holds_pair(job.all_maps(), option, value) {
        pair_in_sum(with_codecs, job.all_maps(), option, value);
    }
    if holds_pair(with_maps, option, value) || holds_pair(job.audio_bitrates(), option, value) {
        pair_in_sum(with_maps, job.audio_bitrates(), option, value);
    }
    if holds_pair(with_bitrates, option, value) || holds_pair(
        job.audio_downmixes(),
        option,
        value,
    ) {
        pair_in_sum(with_bitrates, job.audio_downmixes(), option, value);
    }
    pair_in_sum(with_downmixes, job.side_channel_workaround(), option, value);
    assert(with_layouts == job.encode_args_before_subtitles());
    let copy = seq!["-c:s"@, "copy"@];
    let output = seq!["-f"@, "matroska"@, "-y"@, job.paths.output_file.text@];
    pair_in_sum(with_layouts, copy, option, value);
    pair_in_sum(with_layouts + copy, job.mov_text_workaround(), option, value);
    pair_in_sum(with_layouts + copy + job.mov_text_workaround(), output, option, value);
}

/// The command maps every audio stream and says how to encode it: with the codec, the bitrate,
/// the number of channels and the layout that its own codec and layout and the settings ask for.
pub proof fn the_command_encodes_every_audio_stream(
    job: Job,
    args: Vec<String>,
    i: int,
    bitrate: OpusBitrate,
)
    requires
        job.input_file_metadata is Some,
        0 <= i < job.input_file_metadata->0.audio_streams@.len(),
        call_ensures(args_for_encoding, (&job,), args),
        call_ensures(
            AudioSettings::bitrate_for_layout,
            (
                &job.encoding.audio,
                &job.input_file_metadata->0.audio_streams@[i].channel_layout,
            ),
            bitrate,
        ),
    ensures
        ({
            let all = strings::texts(args@);
            let stream = job.input_file_metadata->0.audio_streams@[i];
            let number = strings::decimal(stream.index as nat);
            let layout = stream.channel_layout;
            let audio = job.encoding.audio;
            let good = stream.codec@ == "opus"@ || stream.codec@ == "vorbis"@ || stream.codec@
                == "mp3"@;
            &&& holds_pair(all, "-map"@, "0:"@ + number)
            &&& holds_pair(all, "-b:"@ + number, strings::decimal(bitrate@ as nat) + "K"@)
            &&& good && !audio.re_encode_good_audio_codecs ==> holds_pair(
                all,
                "-c:"@ + number,
                "copy"@,
            )
            &&& !good || audio.re_encode_good_audio_codecs ==> holds_pair(
                all,
                "-c:"@ + number,
                "libopus"@,
            )
            &&& layout == AudioChannelLayout::Surround51 && audio.downmix_5_1_to_stereo
                ==> holds_pair(all, "-ac:"@ + number, "2"@)
            &&& layout == AudioChannelLayout::Surround71 && audio.downmix_7_1_to_stereo
                ==> holds_pair(all, "-ac:"@ + number, "2"@)
            &&& layout == AudioChannelLayout::Surround51Side ==> holds_pair(
                all,
                "-filter:"@ + number,
                "aformat=channel_layouts='7.1|5.1|stereo'"@,
            )
        }),
{
    let all = strings::texts(args@);
    let streams = job.input_file_metadata->0.audio_streams@;
    let stream = streams[i];
    let n = streams.len();
    let number = strings::decimal(stream.index as nat);
    input_streams_are_named_by_number(stream.index);

    let codec = |k: int|
        seq![ffmpeg::numbered("-c:"@, streams[k].index as int), job.audio_codec(streams[k])];
    pair_at(codec(i), 0);
    pair_of_part(n, codec, i, "-c:"@ + number, job.audio_codec(stream));
    sections_are_passed_on(job, "-c:"@ + number, job.audio_codec(stream));

    let map = |k: int| seq!["-map"@, ffmpeg::input_stream(streams[k].index)];
    pair_at(map(i), 0);
    pair_of_part(n, map, i, "-map"@, "0:"@ + number);
    pair_in_sum(seq!["-map"@, "v:0"@], job.audio_maps(), "-map"@, "0:"@ + number);
    pair_in_sum(
        seq!["-map"@, "v:0"@] + job.audio_maps(),
        job.internal_subtitle_maps(),
        "-map"@,
        "0:"@ + number,
    );
    pair_in_sum(
        seq!["-map"@, "v:0"@] + job.audio_maps() + job.internal_subtitle_maps(),
        job.external_subtitle_maps(),
        "-map"@,
        "0:"@ + number,
    );
    sections_are_passed_on(job, "-map"@, "0:"@ + number);

    let rate = |k: int|
        seq![
            ffmpeg::numbered("-b:"@, streams[k].index as int),
            strings::decimal(job.encoding.audio.spec_bitrate(streams[k].channel_layout) as nat)
                + "K"@,
        ];
    let value = strings::decimal(bitrate@ as nat) + "K"@;
    pair_at(rate(i), 0);
    pair_of_part(n, rate, i, "-b:"@ + number, value);
    sections_are_passed_on(job, "-b:"@ + number, value);

    let downmix = |k: int|
        if job.is_downmixed(streams[k].channel_layout) {
            seq![ffmpeg::numbered("-ac:"@, streams[k].index as int), "2"@]
        } else {
            Seq::empty()
        };
    if job.is_downmixed(stream.channel_layout) {
        pair_at(downmix(i), 0);
        pair_of_part(n, downmix, i, "-ac:"@ + number, "2"@);
        sections_are_passed_on(job, "-ac:"@ + number, "2"@);
    }

    let side = |k: int|
        if streams[k].channel_layout == AudioChannelLayout::Surround51Side {
            seq![
                ffmpeg::numbered("-filter:"@, streams[k].index as int),
                "aformat=channel_layouts='7.1|5.1|stereo'"@,
            ]
        } else {
            Seq::empty()
        };
    if stream.channel_layout == AudioChannelLayout::Surround51Side {
        pair_at(side(i), 0);
        pair_of_part(
            n,
            side,
            i,
            "-filter:"@ + number,
            "aformat=channel_layouts='7.1|5.1|stereo'"@,
        );
        sections_are_passed_on(
            job,
            "-filter:"@ + number,
            "aformat=channel_layouts='7.1|5.1|stereo'"@,
        );
    }
}

/// The command maps every subtitle stream of the input file.
pub proof fn the_command_maps_every_subtitle_stream(job: Job, args: Vec<String>, i: int)
    requires
        job.input_file_metadata is Some,
        0 <= i < job.input_file_metadata->0.subtitle_streams@.len(),
        call_ensures(args_for_encoding, (&job,), args),
    ensures
        holds_pair(
            strings::texts(args@),
            "-map"@,
            "0:"@ + strings::decimal(
                job.input_file_metadata->0.subtitle_streams@[i].index as nat,
            ),
        ),
        job.input_file_metadata->0.subtitle_streams@[i].format@ == "mov_text"@ ==> holds_pair(
            strings::texts(args@),
            "-c:"@ + strings::decimal(
                job.input_file_metadata->0.subtitle_streams@[i].index as nat,
            ),
            "srt"@,
        ),
{
    let all = strings::texts(args@);
    let streams = job.input_file_metadata->0.subtitle_streams@;
    let stream = streams[i];
    let number = strings::decimal(stream.index as nat);
    input_streams_are_named_by_number(stream.index);
    let map = |k: int| seq!["-map"@, ffmpeg::input_stream(streams[k].index)];
    pair_at(map(i), 0);
    pair_of_part(streams.len(), map, i, "-map"@, "0:"@ + number);
    let other_maps = seq!["-map"@, "v:0"@] + job.audio_maps();
    pair_within(
        other_maps,
        job.internal_subtitle_maps(),
        job.external_subtitle_maps(),
        "-map"@,
        "0:"@ + number,
    );
    assert(job.all_maps() =~= other_maps + job.internal_subtitle_maps()
        + job.external_subtitle_maps());
    sections_are_passed_on(job, "-map"@, "0:"@ + number);

    let format = |k: int|
        if streams[k].format@ == "mov_text"@ {
            seq![ffmpeg::numbered("-c:"@, streams[k].index as int), "srt"@]
        } else {
            Seq::empty()
        };
    if stream.format@ == "mov_text"@ {
        pair_at(format(i), 0);
        pair_of_part(streams.len(), format, i, "-c:"@ + number, "srt"@);
        pair_within(
            job.encode_args_before_subtitles() + seq!["-c:s"@, "copy"@],
            job.mov_text_workaround(),
            seq!["-f"@, "matroska"@, "-y"@, job.paths.output_file.text@],
            "-c:"@ + number,
            "srt"@,
        );
    }
}

/// The command takes every subtitle file for an input, maps it, and labels it with its language
/// where that is known, and as SDH where it is.
pub proof fn the_command_adds_every_subtitle_file(job: Job, args: Vec<String>, i: int)
    requires
        job.input_file_metadata is Some,
        0 <= i < job.subtitle_files@.len(),
        call_ensures(args_for_encoding, (&job,), args),
    ensures
        ({
            let all = strings::texts(args@);
            let file = job.subtitle_files@[i];
            let stream = (job.input_file_metadata->0.highest_stream_index + 1 + i) as nat;
            let label = "-metadata:s:"@ + strings::decimal(stream);
            &&& holds_pair(all, "-i"@, file.path.text@)
            &&& holds_pair(all, "-map"@, strings::decimal((i + 1) as nat))
            &&& file.language matches Some(language) ==> holds_pair(
                all,
                label,
                "language="@ + language@,
            )
            &&& file.kind == SubTitleType::SDH ==> holds_pair(all, label, "title=SDH"@)
        }),
{
    let all = strings::texts(args@);
    let files = job.subtitle_files@;
    let n = files.len();
    let file = files[i];
    let stream = (job.input_file_metadata->0.highest_stream_index + 1 + i) as nat;
    let label = "-metadata:s:"@ + strings::decimal(stream);

    let input = |k: int|
        job.input_seek() + seq!["-i"@, files[k].path.text@] + job.duration_limit();
    let own = seq!["-i"@, file.path.text@];
    pair_at(own, 0);
    pair_within(job.input_seek(), own, job.duration_limit(), "-i"@, file.path.text@);
    pair_of_part(n, input, i, "-i"@, file.path.text@);
    let before = seq!["-hide_banner"@] + job.input_seek() + seq![
        "-i"@,
        job.paths.input_file.text@,
    ] + job.duration_limit();
    let whole = before + job.subtitle_inputs();
    assert(whole.is_prefix_of(all)) by {
        assert(whole =~= all.subrange(0, whole.len() as int));
    }
    let after = all.skip(whole.len() as int);
    pair_within(before, job.subtitle_inputs(), after, "-i"@, file.path.text@);
    assert(all =~= before + job.subtitle_inputs() + after);

    let map = |k: int| job.external_subtitle_map(k);
    let language = match file.language {
        Some(l) => seq![label, "language="@ + l@],
        None => Seq::empty(),
    };
    let title = if file.kind == SubTitleType::SDH {
        seq![label, "title=SDH"@]
    } else {
        Seq::empty()
    };
    let number = seq!["-map"@, strings::decimal((i + 1) as nat)];
    assert(map(i) == number + language + title);
    let other_maps = seq!["-map"@, "v:0"@] + job.audio_maps() + job.internal_subtitle_maps();
    assert(job.all_maps() =~= other_maps + job.external_subtitle_maps() + seq![]);

    pair_at(number, 0);
    pair_within(seq![], number, language + title, number[0], number[1]);
    assert(map(i) =~= seq![] + number + (language + title));
    pair_of_part(n, map, i, number[0], number[1]);
    pair_within(other_maps, job.external_subtitle_maps(), seq![], number[0], number[1]);
    sections_are_passed_on(job, number[0], number[1]);
    if file.language is Some {
        pair_at(language, 0);
        pair_within(number, language, title, language[0], language[1]);
        pair_of_part(n, map, i, language[0], language[1]);
        pair_within(other_maps, job.external_subtitle_maps(), seq![], language[0], language[1]);
        sections_are_passed_on(job, language[0], language[1]);
    }
    if file.kind == SubTitleType::SDH {
        pair_at(title, 0);
        pair_within(number + language, title, seq![], title[0], title[1]);
        assert(map(i) =~= number + language + title + seq![]);
        pair_of_part(n, map, i, title[0], title[1]);
        pair_within(other_maps, job.external_subtitle_maps(), seq![], title[0], title[1]);
        sections_are_passed_on(job, title[0], title[1]);
    }
}

} // verus!
