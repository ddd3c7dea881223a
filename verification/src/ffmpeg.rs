//! The arguments that ffmpeg is called with, and what is made of its answers.

use vstd::prelude::*;

use crate::job::{Job, JobStatus, INPUT_INDEX};
use crate::metadata;
use crate::metadata::{
    AudioStream, FloatBits, InputFileMetadata, StreamInfo, StreamKind, SubtitleStream,
};
use crate::paths;
use crate::settings::{AudioChannelLayout, AudioSettings};
use crate::strings;
use crate::subtitles::SubTitleType;
use crate::time::{Duration, NANOS_PER_SEC};

verus! {

// ---------------------------------------------------------------------------------------------
// Arguments
// ---------------------------------------------------------------------------------------------

/// The parts with the numbers from 0 to below `n`, one behind the other.
pub open spec fn concatenated(n: nat, part: spec_fn(int) -> Seq<Seq<char>>) -> Seq<Seq<char>>
    decreases n,
{
    if n == 0 {
        Seq::empty()
    } else {
        concatenated((n - 1) as nat, part) + part(n - 1)
    }
}

/// In parts of two arguments each, those of part `i` stand at twice that position.
pub proof fn pairs_stand_in_order(n: nat, part: spec_fn(int) -> Seq<Seq<char>>, i: int)
    requires
        0 <= i < n,
        forall|k: int| 0 <= k < n ==> (#[trigger] part(k)).len() == 2,
    ensures
        concatenated(n, part).len() == 2 * n,
        concatenated(n, part)[2 * i] == part(i)[0],
        concatenated(n, part)[2 * i + 1] == part(i)[1],
    decreases n,
{
    pairs_have_twice_the_length((n - 1) as nat, part);
    if i < n - 1 {
        pairs_stand_in_order((n - 1) as nat, part, i);
    }
}

/// The arguments of part `i` stand behind those of the parts before it.
pub proof fn parts_stand_in_order(n: nat, part: spec_fn(int) -> Seq<Seq<char>>, i: int, k: int)
    requires
        0 <= i < n,
        0 <= k < part(i).len(),
    ensures
        concatenated(i as nat, part).len() + k < concatenated(n, part).len(),
        concatenated(n, part)[concatenated(i as nat, part).len() + k] == part(i)[k],
    decreases n,
{
    if i < n - 1 {
        parts_stand_in_order((n - 1) as nat, part, i, k);
    }
}

proof fn pairs_have_twice_the_length(n: nat, part: spec_fn(int) -> Seq<Seq<char>>)
    requires
        forall|k: int| 0 <= k < n ==> (#[trigger] part(k)).len() == 2,
    ensures
        concatenated(n, part).len() == 2 * n,
    decreases n,
{
    if n > 0 {
        pairs_have_twice_the_length((n - 1) as nat, part);
    }
}

/// `prefix` with a number behind it.
pub open spec fn numbered(prefix: Seq<char>, number: int) -> Seq<char> {
    prefix + strings::decimal(number as nat)
}

/// `prefix` with a number behind it.
fn numbered_text(prefix: &str, number: u32) -> (r: String)
    ensures
        r@ == numbered(prefix@, number as int),
{
    let mut r = prefix.to_string();
    r.append(strings::decimal_string(number as u64).as_str());
    r
}

/// The name of a stream of the input file.
pub open spec fn input_stream(index: u32) -> Seq<char> {
    numbered(strings::decimal(INPUT_INDEX as nat) + ":"@, index as int)
}

fn input_stream_text(index: u32) -> (r: String)
    ensures
        r@ == input_stream(index),
{
    let mut prefix = strings::decimal_string(INPUT_INDEX as u64);
    prefix.append(":");
    numbered_text(prefix.as_str(), index)
}

impl Job {
    /// The arguments that map all audio streams.
    pub open spec fn audio_maps(self) -> Seq<Seq<char>> {
        let streams = self.input_file_metadata->0.audio_streams@;
        concatenated(streams.len(), |i: int| seq!["-map"@, input_stream(streams[i].index)])
    }

    /// The codec of an audio stream: opus, or that which it has.
    pub open spec fn audio_codec(self, stream: AudioStream) -> Seq<char> {
        if self.encoding.audio.re_encode_good_audio_codecs
            || !AudioSettings::is_good_codec(stream.codec@) {
            "libopus"@
        } else {
            "copy"@
        }
    }

    /// The arguments that select the codecs of the audio streams.
    pub open spec fn audio_codecs(self) -> Seq<Seq<char>> {
        let streams = self.input_file_metadata->0.audio_streams@;
        concatenated(
            streams.len(),
            |i: int|
                seq![numbered("-c:"@, streams[i].index as int), self.audio_codec(streams[i])],
        )
    }

    /// The arguments that map all subtitle streams of the input file.
    pub open spec fn internal_subtitle_maps(self) -> Seq<Seq<char>> {
        let streams = self.input_file_metadata->0.subtitle_streams@;
        concatenated(streams.len(), |i: int| seq!["-map"@, input_stream(streams[i].index)])
    }

    /// The index that the stream of external subtitle file `i` gets in the output.
    pub open spec fn external_stream_index(self, i: int) -> int {
        self.input_file_metadata->0.highest_stream_index + 1 + i
    }

    /// The arguments for external subtitle file `i`, whose input comes behind those of the input
    /// file and of the subtitle files before it.
    pub open spec fn external_subtitle_map(self, i: int) -> Seq<Seq<char>> {
        let file = self.subtitle_files@[i];
        let stream = numbered("-metadata:s:"@, self.external_stream_index(i));
        let language = match file.language {
            Some(l) => seq![stream, "language="@ + l@],
            None => Seq::empty(),
        };
        let title = if file.kind == SubTitleType::SDH {
            seq![stream, "title=SDH"@]
        } else {
            Seq::empty()
        };
        seq!["-map"@, strings::decimal((INPUT_INDEX + 1 + i) as nat)] + language + title
    }

    /// The arguments that map all external subtitle files.
    pub open spec fn external_subtitle_maps(self) -> Seq<Seq<char>> {
        concatenated(self.subtitle_files@.len(), |i: int| self.external_subtitle_map(i))
    }

    /// Whether the external subtitle files can be numbered.
    pub open spec fn can_number_subtitles(self) -> bool {
        &&& self.input_file_metadata->0.highest_stream_index + 1 + self.subtitle_files@.len()
            <= u32::MAX
        &&& self.subtitle_files@.len() < i32::MAX
    }

    /// The arguments that change the format of subtitles that the output can not hold.
    pub open spec fn mov_text_workaround(self) -> Seq<Seq<char>> {
        let streams = self.input_file_metadata->0.subtitle_streams@;
        concatenated(
            streams.len(),
            |i: int|
                if streams[i].format@ == "mov_text"@ {
                    seq![numbered("-c:"@, streams[i].index as int), "srt"@]
                } else {
                    Seq::empty()
                },
        )
    }

    /// The arguments that map all streams.
    pub open spec fn all_maps(self) -> Seq<Seq<char>> {
        seq!["-map"@, "v:0"@] + self.audio_maps() + self.internal_subtitle_maps()
            + self.external_subtitle_maps()
    }

    /// The arguments that set the bitrates of the audio streams.
    pub open spec fn audio_bitrates(self) -> Seq<Seq<char>> {
        let streams = self.input_file_metadata->0.audio_streams@;
        concatenated(
            streams.len(),
            |i: int|
                seq![
                    numbered("-b:"@, streams[i].index as int),
                    strings::decimal(
                        self.encoding.audio.spec_bitrate(streams[i].channel_layout) as nat,
                    ) + "K"@,
                ],
        )
    }

    /// Whether an audio stream is to be mixed down.
    pub open spec fn is_downmixed(self, layout: AudioChannelLayout) -> bool {
        ||| self.encoding.audio.downmix_5_1_to_stereo && layout == AudioChannelLayout::Surround51
        ||| self.encoding.audio.downmix_7_1_to_stereo && layout == AudioChannelLayout::Surround71
    }

    /// The arguments that mix audio streams down to two channels.
    pub open spec fn audio_downmixes(self) -> Seq<Seq<char>> {
        let streams = self.input_file_metadata->0.audio_streams@;
        concatenated(
            streams.len(),
            |i: int|
                if self.is_downmixed(streams[i].channel_layout) {
                    seq![numbered("-ac:"@, streams[i].index as int), "2"@]
                } else {
                    Seq::empty()
                },
        )
    }

    /// The arguments that change the layout of audio streams that opus does not support.
    pub open spec fn side_channel_workaround(self) -> Seq<Seq<char>> {
        let streams = self.input_file_metadata->0.audio_streams@;
        concatenated(
            streams.len(),
            |i: int|
                if streams[i].channel_layout == AudioChannelLayout::Surround51Side {
                    seq![
                        numbered("-filter:"@, streams[i].index as int),
                        "aformat=channel_layouts='7.1|5.1|stereo'"@,
                    ]
                } else {
                    Seq::empty()
                },
        )
    }

    /// The arguments that seek in an input.
    pub open spec fn input_seek(self) -> Seq<Seq<char>> {
        match self.run.start@ {
            Some(time) if self.run.only_encode_segment => seq!["-ss"@, time],
            _ => Seq::empty(),
        }
    }

    /// The arguments that limit how long to encode.
    pub open spec fn duration_limit(self) -> Seq<Seq<char>> {
        match self.run.only_encode_for {
            Some(length) if self.run.only_encode_segment => {
                seq!["-t"@, strings::decimal(length.seconds())]
            },
            _ => Seq::empty(),
        }
    }

    /// The arguments that name the external subtitle files, each of them with what is encoded of
    /// it.
    pub open spec fn subtitle_inputs(self) -> Seq<Seq<char>> {
        concatenated(
            self.subtitle_files@.len(),
            |i: int|
                self.input_seek() + seq!["-i"@, self.subtitle_files@[i].path.text@]
                    + self.duration_limit(),
        )
    }
}

/// Maps the first video stream.
///
/// Without explicit maps, ffmpeg only forwards one stream of each kind from the input file to the
/// output file.
pub fn args_for_video_maps() -> (r: Vec<String>)
    ensures
        strings::texts(r@) == seq!["-map"@, "v:0"@],
{
    broadcast use strings::group_texts;

    let mut args: Vec<String> = Vec::new();
    args.push("-map".to_string());
    args.push("v:0".to_string());
    assert(strings::texts(args@) =~= seq!["-map"@, "v:0"@]);
    args
}

/// Maps all audio streams.
pub fn args_for_audio_maps(job: &Job) -> (r: Vec<String>)
    requires
        job.input_file_metadata is Some,
    ensures
        strings::texts(r@) == job.audio_maps(),
{
    broadcast use strings::group_texts;

    let mut args: Vec<String> = Vec::new();
    if let Some(metadata) = &job.input_file_metadata {
        let streams = &metadata.audio_streams;
        let ghost part = |i: int| seq!["-map"@, input_stream(streams@[i].index)];
        let mut i: usize = 0;
        while i < streams.len()
            invariant
                i <= streams.len(),
                part == (|i: int| seq!["-map"@, input_stream(streams@[i].index)]),
                strings::texts(args@) == concatenated(i as nat, part),
            decreases streams.len() - i,
        {
            args.push("-map".to_string());
            args.push(input_stream_text(streams[i].index));
            i += 1;
            assert(strings::texts(args@) =~= concatenated(i as nat, part));
        }
    }
    args
}

/// Selects the codec of each audio stream, which is either encoded to opus or left unchanged.
pub fn args_for_audio_codecs(job: &Job) -> (r: Vec<String>)
    requires
        job.input_file_metadata is Some,
    ensures
        strings::texts(r@) == job.audio_codecs(),
{
    broadcast use strings::group_texts;

    let mut args: Vec<String> = Vec::new();
    if let Some(metadata) = &job.input_file_metadata {
        let streams = &metadata.audio_streams;
        let ghost part = |i: int|
            seq![numbered("-c:"@, streams@[i].index as int), job.audio_codec(streams@[i])];
        let mut i: usize = 0;
        while i < streams.len()
            invariant
                i <= streams.len(),
                part == (|i: int|
                    seq![numbered("-c:"@, streams@[i].index as int), job.audio_codec(streams@[i])]),
                strings::texts(args@) == concatenated(i as nat, part),
            decreases streams.len() - i,
        {
            args.push(numbered_text("-c:", streams[i].index));
            if job.encoding.audio.should_re_encode(streams[i].codec.as_str()) {
                args.push("libopus".to_string());
            } else {
                args.push("copy".to_string());
            }
            i += 1;
            assert(strings::texts(args@) =~= concatenated(i as nat, part));
        }
    }
    args
}

/// Maps all subtitle streams of the input file.
pub fn args_for_internal_subtitles_maps(job: &Job) -> (r: Vec<String>)
    requires
        job.input_file_metadata is Some,
    ensures
        strings::texts(r@) == job.internal_subtitle_maps(),
{
    broadcast use strings::group_texts;

    let mut args: Vec<String> = Vec::new();
    if let Some(metadata) = &job.input_file_metadata {
        let streams = &metadata.subtitle_streams;
        let ghost part = |i: int|
            seq!["-map"@, input_stream(streams@[i].index)];
        let mut i: usize = 0;
        while i < streams.len()
            invariant
                i <= streams.len(),
                part == (|i: int|
                    seq!["-map"@, input_stream(streams@[i].index)]),
                strings::texts(args@) == concatenated(i as nat, part),
            decreases streams.len() - i,
        {
            args.push("-map".to_string());
            args.push(input_stream_text(streams[i].index));
            i += 1;
            assert(strings::texts(args@) =~= concatenated(i as nat, part));
        }
    }
    args
}

/// Maps all external subtitle files, and says what language they are in and for whom they are.
///
/// The arguments look like `-map 3 -metadata:s:3 language=eng -metadata:s:3 title=SDH`.
pub fn args_for_external_subtitles_maps(job: &Job) -> (r: Vec<String>)
    requires
        job.input_file_metadata is Some,
        job.can_number_subtitles(),
    ensures
        strings::texts(r@) == job.external_subtitle_maps(),
{
    broadcast use strings::group_texts;

    let mut args: Vec<String> = Vec::new();
    if let Some(metadata) = &job.input_file_metadata {
        let files = &job.subtitle_files;
        let ghost part = |i: int| job.external_subtitle_map(i);
        let mut next_free_stream_index: u32 = metadata.highest_stream_index + 1;
        // The only input file has index 0, so the first subtitle file is the input with index 1.
        let mut next_input_index: u32 = INPUT_INDEX + 1;
        let mut i: usize = 0;
        while i < files.len()
            invariant
                i <= files.len(),
                files == job.subtitle_files,
                job.input_file_metadata == Some(*metadata),
                job.can_number_subtitles(),
                next_free_stream_index == job.external_stream_index(i as int),
                next_input_index == INPUT_INDEX + 1 + i,
                part == (|i: int| job.external_subtitle_map(i)),
                strings::texts(args@) == concatenated(i as nat, part),
            decreases files.len() - i,
        {
            args.push("-map".to_string());
            args.push(strings::decimal_string(next_input_index as u64));
            if let Some(language) = &files[i].language {
                args.push(numbered_text("-metadata:s:", next_free_stream_index));
                let mut value = "language=".to_string();
                value.append(language.to_639_3());
                args.push(value);
            }
            if files[i].kind == SubTitleType::SDH {
                args.push(numbered_text("-metadata:s:", next_free_stream_index));
                args.push("title=SDH".to_string());
            }
            assert(part(i as int) == job.external_subtitle_map(i as int));
            assert(strings::texts(args@) =~= concatenated((i + 1) as nat, part));
            next_free_stream_index += 1;
            next_input_index += 1;
            i += 1;
        }
    }
    args
}

/// Converts subtitles in the format mov_text, which the output can not hold, to srt.
pub fn args_for_mov_text_subtitle_workaround(job: &Job) -> (r: Vec<String>)
    requires
        job.input_file_metadata is Some,
    ensures
        strings::texts(r@) == job.mov_text_workaround(),
{
    broadcast use strings::group_texts;

    let mut args: Vec<String> = Vec::new();
    if let Some(metadata) = &job.input_file_metadata {
        let streams = &metadata.subtitle_streams;
        let ghost part = |i: int|
            if streams@[i].format@ == "mov_text"@ {
                seq![numbered("-c:"@, streams@[i].index as int), "srt"@]
            } else {
                Seq::empty()
            };
        let mut i: usize = 0;
        while i < streams.len()
            invariant
                i <= streams.len(),
                part == (|i: int|
                    if streams@[i].format@ == "mov_text"@ {
                seq![numbered("-c:"@, streams@[i].index as int), "srt"@]
            } else {
                Seq::empty()
            }),
                strings::texts(args@) == concatenated(i as nat, part),
            decreases streams.len() - i,
        {
            if strings::same_text(streams[i].format.as_str(), "mov_text") {
                args.push(numbered_text("-c:", streams[i].index));
                args.push("srt".to_string());
            }
            i += 1;
            assert(strings::texts(args@) =~= concatenated(i as nat, part));
        }
    }
    args
}

/// Maps all streams of all kinds.
pub fn args_for_all_maps(job: &Job) -> (r: Vec<String>)
    requires
        job.input_file_metadata is Some,
        job.can_number_subtitles(),
    ensures
        strings::texts(r@) == job.all_maps(),
{
    broadcast use strings::group_texts;

    let mut args = args_for_video_maps();
    args.append(&mut args_for_audio_maps(job));
    args.append(&mut args_for_internal_subtitles_maps(job));
    args.append(&mut args_for_external_subtitles_maps(job));
    args
}

/// Sets the bitrate of each audio stream, which depends on its channel layout.
pub fn args_for_audio_bitrate(job: &Job) -> (r: Vec<String>)
    requires
        job.input_file_metadata is Some,
    ensures
        strings::texts(r@) == job.audio_bitrates(),
{
    broadcast use strings::group_texts;

    let mut args: Vec<String> = Vec::new();
    if let Some(metadata) = &job.input_file_metadata {
        let streams = &metadata.audio_streams;
        let ghost part = |i: int|
            seq![
                numbered("-b:"@, streams@[i].index as int),
                strings::decimal(
                    job.encoding.audio.spec_bitrate(streams@[i].channel_layout) as nat,
                ) + "K"@,
            ];
        let mut i: usize = 0;
        while i < streams.len()
            invariant
                i <= streams.len(),
                part == (|i: int|
                    seq![
                numbered("-b:"@, streams@[i].index as int),
                strings::decimal(
                    job.encoding.audio.spec_bitrate(streams@[i].channel_layout) as nat,
                ) + "K"@,
            ]),
                strings::texts(args@) == concatenated(i as nat, part),
            decreases streams.len() - i,
        {
            args.push(numbered_text("-b:", streams[i].index));
            let bitrate = job.encoding.audio.bitrate_for_layout(&streams[i].channel_layout);
            let mut value = strings::decimal_string(bitrate.value() as u64);
            value.append("K");
            args.push(value);
            i += 1;
            assert(strings::texts(args@) =~= concatenated(i as nat, part));
        }
    }
    args
}

/// Mixes audio streams down to two channels, as the audio settings say.
pub fn args_for_audio_downmix(job: &Job) -> (r: Vec<String>)
    requires
        job.input_file_metadata is Some,
    ensures
        strings::texts(r@) == job.audio_downmixes(),
{
    broadcast use strings::group_texts;

    let mut args: Vec<String> = Vec::new();
    if let Some(metadata) = &job.input_file_metadata {
        let streams = &metadata.audio_streams;
        let ghost part = |i: int|
            if job.is_downmixed(streams@[i].channel_layout) {
                seq![numbered("-ac:"@, streams@[i].index as int), "2"@]
            } else {
                Seq::empty()
            };
        let mut i: usize = 0;
        while i < streams.len()
            invariant
                i <= streams.len(),
                part == (|i: int|
                    if job.is_downmixed(streams@[i].channel_layout) {
                seq![numbered("-ac:"@, streams@[i].index as int), "2"@]
            } else {
                Seq::empty()
            }),
                strings::texts(args@) == concatenated(i as nat, part),
            decreases streams.len() - i,
        {
            if job.encoding.audio.downmix_5_1_to_stereo && streams[i].channel_layout
                == AudioChannelLayout::Surround51 {
                args.push(numbered_text("-ac:", streams[i].index));
                args.push("2".to_string());
            }
            if job.encoding.audio.downmix_7_1_to_stereo && streams[i].channel_layout
                == AudioChannelLayout::Surround71 {
                args.push(numbered_text("-ac:", streams[i].index));
                args.push("2".to_string());
            }
            i += 1;
            assert(strings::texts(args@) =~= concatenated(i as nat, part));
        }
    }
    args
}

/// Changes the layout of streams with 5.1 side channels, which libopus does not properly support.
/// See https://trac.ffmpeg.org/ticket/5718
pub fn args_for_audio_5_1_side_workaround(job: &Job) -> (r: Vec<String>)
    requires
        job.input_file_metadata is Some,
    ensures
        strings::texts(r@) == job.side_channel_workaround(),
{
    broadcast use strings::group_texts;

    let mut args: Vec<String> = Vec::new();
    if let Some(metadata) = &job.input_file_metadata {
        let streams = &metadata.audio_streams;
        let ghost part = |i: int|
            if streams@[i].channel_layout == AudioChannelLayout::Surround51Side {
                seq![
                    numbered("-filter:"@, streams@[i].index as int),
                    "aformat=channel_layouts='7.1|5.1|stereo'"@,
                ]
            } else {
                Seq::empty()
            };
        let mut i: usize = 0;
        while i < streams.len()
            invariant
                i <= streams.len(),
                part == (|i: int|
                    if streams@[i].channel_layout == AudioChannelLayout::Surround51Side {
                seq![
                    numbered("-filter:"@, streams@[i].index as int),
                    "aformat=channel_layouts='7.1|5.1|stereo'"@,
                ]
            } else {
                Seq::empty()
            }),
                strings::texts(args@) == concatenated(i as nat, part),
            decreases streams.len() - i,
        {
            if streams[i].channel_layout == AudioChannelLayout::Surround51Side {
                args.push(numbered_text("-filter:", streams[i].index));
                args.push("aformat=channel_layouts='7.1|5.1|stereo'".to_string());
            }
            i += 1;
            assert(strings::texts(args@) =~= concatenated(i as nat, part));
        }
    }
    args
}

/// Seeks in an input for partial encoding, as in `-ss 01:10:00` to start at 70 minutes.
pub fn args_for_input_seek(job: &Job) -> (r: Vec<String>)
    ensures
        strings::texts(r@) == job.input_seek(),
{
    broadcast use strings::group_texts;

    let mut args: Vec<String> = Vec::new();
    if job.run.only_encode_segment {
        if let Some(only_encode_from) = job.run.only_encode_from() {
            args.push("-ss".to_string());
            args.push(only_encode_from.clone());
        }
    }
    assert(strings::texts(args@) =~= job.input_seek());
    args
}

/// Limits how long to encode, as in `-t 100` to stop after 100 seconds.
pub fn args_for_input_encoding_duration_limit(job: &Job) -> (r: Vec<String>)
    ensures
        strings::texts(r@) == job.duration_limit(),
{
    broadcast use strings::group_texts;

    let mut args: Vec<String> = Vec::new();
    if job.run.only_encode_segment {
        if let Some(only_encode_for) = &job.run.only_encode_for {
            args.push("-t".to_string());
            args.push(strings::decimal_string(only_encode_for.as_secs()));
        }
    }
    assert(strings::texts(args@) =~= job.duration_limit());
    args
}

/// Names the external subtitle files as inputs, as in `-i Movie.eng.srt -i Movie.ger.srt`.
///
/// Where only a segment is encoded, `-ss` has to come before and `-t` behind each of them.
pub fn args_for_subtitle_file_inputs(job: &Job) -> (r: Vec<String>)
    ensures
        strings::texts(r@) == job.subtitle_inputs(),
{
    broadcast use strings::group_texts;

    let mut args: Vec<String> = Vec::new();
    let files = &job.subtitle_files;
    let ghost part = |i: int|
        job.input_seek() + seq!["-i"@, files@[i].path.text@] + job.duration_limit();
    let mut i: usize = 0;
    while i < files.len()
        invariant
            i <= files.len(),
            part == (|i: int|
                job.input_seek() + seq!["-i"@, files@[i].path.text@] + job.duration_limit()),
            strings::texts(args@) == concatenated(i as nat, part),
        decreases files.len() - i,
    {
        args.append(&mut args_for_input_seek(job));
        args.push("-i".to_string());
        args.push(files[i].path.text.clone());
        args.append(&mut args_for_input_encoding_duration_limit(job));
        i += 1;
        assert(strings::texts(args@) =~= concatenated(i as nat, part));
    }
    args
}

impl Job {
    /// The arguments that encode this job, down to the audio streams.
    pub open spec fn encode_args_before_subtitles(self) -> Seq<Seq<char>> {
        seq!["-hide_banner"@] + self.input_seek() + seq!["-i"@, self.paths.input_file.text@]
            + self.duration_limit() + self.subtitle_inputs() + seq![
            "-pix_fmt"@,
            "yuv420p10le"@,
            "-c:v"@,
            "libsvtav1"@,
            "-crf:v"@,
            strings::decimal(self.encoding.video.crf@ as nat),
            "-preset:v"@,
            strings::decimal(self.encoding.video.preset@ as nat),
        ] + self.encoding.video.spec_filter_args() + self.encoding.video.spec_av1_args()
            + self.audio_codecs() + self.all_maps() + self.audio_bitrates()
            + self.audio_downmixes() + self.side_channel_workaround()
    }

    /// The arguments that encode this job. All subtitles are copied but for those whose format
    /// is changed.
    pub open spec fn encode_args(self) -> Seq<Seq<char>> {
        self.encode_args_before_subtitles() + seq!["-c:s"@, "copy"@] + self.mov_text_workaround()
            + seq!["-f"@, "matroska"@, "-y"@, self.paths.output_file.text@]
    }
}

/// All arguments that ffmpeg encodes a job with.
pub fn args_for_encoding(job: &Job) -> (r: Vec<String>)
    requires
        job.input_file_metadata is Some,
        job.can_number_subtitles(),
    ensures
        strings::texts(r@) == job.encode_args(),
{
    broadcast use strings::group_texts;

    let video = &job.encoding.video;
    let mut args: Vec<String> = Vec::new();
    args.push("-hide_banner".to_string());
    args.append(&mut args_for_input_seek(job));
    args.push("-i".to_string());
    args.push(job.paths.input_file.text.clone());
    args.append(&mut args_for_input_encoding_duration_limit(job));
    args.append(&mut args_for_subtitle_file_inputs(job));
    let ghost inputs = strings::texts(args@);
    assert(inputs =~= seq!["-hide_banner"@] + job.input_seek() + seq![
        "-i"@,
        job.paths.input_file.text@,
    ] + job.duration_limit() + job.subtitle_inputs());
    args.push("-pix_fmt".to_string());
    args.push("yuv420p10le".to_string());
    args.push("-c:v".to_string());
    args.push("libsvtav1".to_string());
    args.push("-crf:v".to_string());
    args.push(strings::decimal_string(video.crf.value() as u64));
    args.push("-preset:v".to_string());
    args.push(strings::decimal_string(video.preset.value() as u64));
    assert(strings::texts(args@) =~= inputs + seq![
        "-pix_fmt"@,
        "yuv420p10le"@,
        "-c:v"@,
        "libsvtav1"@,
        "-crf:v"@,
        strings::decimal(job.encoding.video.crf@ as nat),
        "-preset:v"@,
        strings::decimal(job.encoding.video.preset@ as nat),
    ]);
    args.append(&mut video.filter_args());
    args.append(&mut video.av1_args());
    args.append(&mut args_for_audio_codecs(job));
    args.append(&mut args_for_all_maps(job));
    args.append(&mut args_for_audio_bitrate(job));
    args.append(&mut args_for_audio_downmix(job));
    args.append(&mut args_for_audio_5_1_side_workaround(job));
    assert(strings::texts(args@) == job.encode_args_before_subtitles());
    args.push("-c:s".to_string());
    args.push("copy".to_string());
    // What comes last counts, so the exceptions come behind the rule.
    args.append(&mut args_for_mov_text_subtitle_workaround(job));
    args.push("-f".to_string());
    args.push("matroska".to_string());
    args.push("-y".to_string());
    args.push(job.paths.output_file.text.clone());
    assert(strings::texts(args@) =~= job.encode_args());
    args
}

/// Audio streams are encoded to opus or copied, one codec for each stream.
pub proof fn audio_is_encoded_to_opus_or_copied(job: Job, i: int)
    requires
        job.input_file_metadata is Some,
        0 <= i < job.input_file_metadata->0.audio_streams@.len(),
    ensures
        job.audio_codecs().len() == 2 * job.input_file_metadata->0.audio_streams@.len(),
        job.audio_codecs()[2 * i] == numbered(
            "-c:"@,
            job.input_file_metadata->0.audio_streams@[i].index as int,
        ),
        job.audio_codecs()[2 * i + 1] == "libopus"@ || job.audio_codecs()[2 * i + 1] == "copy"@,
{
    let streams = job.input_file_metadata->0.audio_streams@;
    let part = |k: int|
        seq![numbered("-c:"@, streams[k].index as int), job.audio_codec(streams[k])];
    pairs_stand_in_order(streams.len(), part, i);
}

/// Whether the arguments at position `at` map the stream of the input file with the given index.
pub open spec fn maps_stream_at(args: Seq<Seq<char>>, at: int, index: u32) -> bool {
    args[at] == "-map"@ && args[at + 1] == input_stream(index)
}

/// The first video stream is encoded to AV1.
pub proof fn the_video_is_encoded_to_av1(job: Job)
    ensures
        exists|i: int|
            0 <= i < job.encode_args().len() - 1 && #[trigger] job.encode_args()[i] == "-c:v"@
                && job.encode_args()[i + 1] == "libsvtav1"@,
{
    let inputs = seq!["-hide_banner"@] + job.input_seek() + seq![
        "-i"@,
        job.paths.input_file.text@,
    ] + job.duration_limit() + job.subtitle_inputs();
    let i = inputs.len() as int + 2;
    assert(job.encode_args()[i] == "-c:v"@);
    assert(job.encode_args()[i + 1] == "libsvtav1"@);
}

/// Every audio stream and every subtitle stream of the input file is mapped, in the order of the
/// streams.
pub proof fn all_streams_are_mapped(job: Job)
    requires
        job.input_file_metadata is Some,
    ensures
        ({
            let audio = job.input_file_metadata->0.audio_streams@;
            let subtitles = job.input_file_metadata->0.subtitle_streams@;
            let maps = job.all_maps();
            &&& maps.len() >= 2 + 2 * audio.len() + 2 * subtitles.len()
            &&& maps[0] == "-map"@ && maps[1] == "v:0"@
            &&& forall|i: int|
                0 <= i < audio.len() ==> maps_stream_at(maps, 2 + 2 * i, #[trigger] audio[i].index)
            &&& forall|i: int|
                0 <= i < subtitles.len() ==> maps_stream_at(
                    maps,
                    2 + 2 * audio.len() + 2 * i,
                    #[trigger] subtitles[i].index,
                )
        }),
{
    let audio = job.input_file_metadata->0.audio_streams@;
    let subtitles = job.input_file_metadata->0.subtitle_streams@;
    let maps = job.all_maps();
    let audio_part = |k: int| seq!["-map"@, input_stream(audio[k].index)];
    let subtitle_part = |k: int| seq!["-map"@, input_stream(subtitles[k].index)];
    pairs_have_twice_the_length(audio.len(), audio_part);
    pairs_have_twice_the_length(subtitles.len(), subtitle_part);
    assert(job.audio_maps() == concatenated(audio.len(), audio_part));
    assert(job.internal_subtitle_maps() == concatenated(subtitles.len(), subtitle_part));
    assert forall|i: int| 0 <= i < audio.len() implies maps_stream_at(
        maps,
        2 + 2 * i,
        #[trigger] audio[i].index,
    ) by {
        pairs_stand_in_order(audio.len(), audio_part, i);
        assert(maps[2 + 2 * i] == job.audio_maps()[2 * i]);
        assert(maps[2 + 2 * i + 1] == job.audio_maps()[2 * i + 1]);
    }
    assert forall|i: int| 0 <= i < subtitles.len() implies maps_stream_at(
        maps,
        2 + 2 * audio.len() + 2 * i,
        #[trigger] subtitles[i].index,
    ) by {
        pairs_stand_in_order(subtitles.len(), subtitle_part, i);
        let at = 2 + 2 * audio.len() + 2 * i;
        assert(maps[at] == job.internal_subtitle_maps()[2 * i]);
        assert(maps[at + 1] == job.internal_subtitle_maps()[2 * i + 1]);
    }
}

/// Every subtitle file of a job becomes an input, and that input is mapped.
pub proof fn every_subtitle_file_is_added(job: Job, i: int)
    requires
        0 <= i < job.subtitle_files@.len(),
    ensures
        exists|p: int|
            0 <= p < job.subtitle_inputs().len() - 1 && #[trigger] job.subtitle_inputs()[p]
                == "-i"@ && job.subtitle_inputs()[p + 1] == job.subtitle_files@[i].path.text@,
        exists|p: int|
            0 <= p < job.external_subtitle_maps().len() - 1
                && #[trigger] job.external_subtitle_maps()[p] == "-map"@
                && job.external_subtitle_maps()[p + 1] == strings::decimal(
                (INPUT_INDEX + 1 + i) as nat,
            ),
{
    let n = job.subtitle_files@.len();
    let input = |k: int|
        job.input_seek() + seq!["-i"@, job.subtitle_files@[k].path.text@] + job.duration_limit();
    let seek = job.input_seek().len() as int;
    parts_stand_in_order(n, input, i, seek);
    parts_stand_in_order(n, input, i, seek + 1);
    let at = concatenated(i as nat, input).len() + seek;
    assert(job.subtitle_inputs()[at] == "-i"@);
    assert(job.subtitle_inputs()[at + 1] == job.subtitle_files@[i].path.text@);
    let map = |k: int| job.external_subtitle_map(k);
    parts_stand_in_order(n, map, i, 0);
    parts_stand_in_order(n, map, i, 1);
    let at = concatenated(i as nat, map).len() as int;
    assert(job.external_subtitle_maps()[at] == "-map"@);
    assert(job.external_subtitle_maps()[at + 1] == strings::decimal((INPUT_INDEX + 1 + i) as nat));
}

/// The format of mov_text subtitles is changed behind the argument that copies all subtitles, and
/// so in spite of it.
pub proof fn format_changes_override_the_copy(job: Job, i: int)
    requires
        job.input_file_metadata is Some,
        0 <= i < job.input_file_metadata->0.subtitle_streams@.len(),
        job.input_file_metadata->0.subtitle_streams@[i].format@ == "mov_text"@,
    ensures
        exists|p: int, q: int|
            0 <= p < q < job.encode_args().len() - 1 && #[trigger] job.encode_args()[p] == "-c:s"@
                && job.encode_args()[p + 1] == "copy"@ && #[trigger] job.encode_args()[q]
                == numbered(
                "-c:"@,
                job.input_file_metadata->0.subtitle_streams@[i].index as int,
            ) && job.encode_args()[q + 1] == "srt"@,
{
    let streams = job.input_file_metadata->0.subtitle_streams@;
    let part = |k: int|
        if streams[k].format@ == "mov_text"@ {
            seq![numbered("-c:"@, streams[k].index as int), "srt"@]
        } else {
            Seq::empty()
        };
    parts_stand_in_order(streams.len(), part, i, 0);
    parts_stand_in_order(streams.len(), part, i, 1);
    assert(job.mov_text_workaround() == concatenated(streams.len(), part));
    let p = job.encode_args_before_subtitles().len() as int;
    let q = p + 2 + concatenated(i as nat, part).len();
    let args = job.encode_args();
    assert(args[p] == "-c:s"@ && args[p + 1] == "copy"@);
    assert(args[q] == job.mov_text_workaround()[q - p - 2]);
    assert(args[q + 1] == job.mov_text_workaround()[q - p - 1]);
}

/// Where not only a segment is encoded, nothing of the inputs is left out.
pub proof fn whole_inputs_are_encoded_without_a_segment(job: Job)
    requires
        !job.run.only_encode_segment,
    ensures
        job.input_seek().len() == 0,
        job.duration_limit().len() == 0,
        job.subtitle_inputs().len() == 2 * job.subtitle_files@.len(),
        forall|i: int|
            0 <= i < job.subtitle_files@.len() ==> job.subtitle_inputs()[2 * i] == "-i"@
                && job.subtitle_inputs()[2 * i + 1]
                == (#[trigger] job.subtitle_files@[i]).path.text@,
{
    let files = job.subtitle_files@;
    let part = |k: int|
        job.input_seek() + seq!["-i"@, files[k].path.text@] + job.duration_limit();
    assert forall|k: int| 0 <= k < files.len() implies (#[trigger] part(k)) == seq![
        "-i"@,
        files[k].path.text@,
    ] by {
        assert(part(k) =~= seq!["-i"@, files[k].path.text@]);
    }
    pairs_have_twice_the_length(files.len(), part);
    assert(job.subtitle_inputs() == concatenated(files.len(), part));
    assert forall|i: int| 0 <= i < files.len() implies job.subtitle_inputs()[2 * i] == "-i"@
        && job.subtitle_inputs()[2 * i + 1] == (#[trigger] files[i]).path.text@ by {
        pairs_stand_in_order(files.len(), part, i);
    }
}

// ---------------------------------------------------------------------------------------------
// Encoding
// ---------------------------------------------------------------------------------------------

/// What ffmpeg tells while it encodes.
#[derive(Debug, PartialEq)]
pub enum EncodeEvent {
    Error(String),
    Progress { frame: u32, fps: FloatBits },
    /// Ffmpeg or what listens to it has a problem that is likely benign.
    Problem(String),
    Other,
}

/// What is to be done when ffmpeg tells something.
#[derive(Debug, PartialEq)]
pub enum EncodeAction {
    /// Ends ffmpeg, and the work with it.
    Quit,
    /// Tells that the job has come to this end.
    Stop(JobStatus, String),
    /// Tells that ffmpeg has come to this frame.
    Progress { frame: i32, fps: FloatBits },
    /// Writes a warning to the log.
    Warn(String),
    Nothing,
}

impl EncodeAction {
    /// Whether the work with ffmpeg ends with this action. It goes on after an error, which
    /// ffmpeg may tell more of, until its events end.
    pub open spec fn is_end(self) -> bool {
        match self {
            EncodeAction::Quit => true,
            EncodeAction::Stop(status, _) => status == JobStatus::Finished,
            _ => false,
        }
    }

    /// Whether the work with ffmpeg ends with this action.
    pub fn ends_encoding(&self) -> (b: bool)
        ensures
            b == self.is_end(),
    {
        match self {
            EncodeAction::Quit => true,
            EncodeAction::Stop(status, _) => *status == JobStatus::Finished,
            _ => false,
        }
    }
}

/// A frame number as a signed number of 32 bits, which it wraps around in.
pub open spec fn wrapped_frame(frame: u32) -> int {
    if frame <= i32::MAX {
        frame as int
    } else {
        frame - 0x1_0000_0000
    }
}

/// What is to be done about an event of ffmpeg, or about the end of its events. A request to quit
/// is met when the next event comes.
pub fn encode_step(quit_requested: bool, event: Option<EncodeEvent>) -> (r: EncodeAction)
    ensures
        r.is_end() <==> event is None || quit_requested,
        match event {
            None => r matches EncodeAction::Stop(status, message) && status == JobStatus::Finished
                && message@.len() == 0,
            Some(e) => if quit_requested {
                r == EncodeAction::Quit
            } else {
                match e {
                    EncodeEvent::Error(m) => r == EncodeAction::Stop(JobStatus::Failed, m),
                    EncodeEvent::Progress { frame, fps } => {
                        &&& r matches EncodeAction::Progress { frame: shown, fps: rate }
                        &&& shown == wrapped_frame(frame)
                        &&& rate == fps
                    },
                    EncodeEvent::Problem(m) => r == EncodeAction::Warn(m),
                    EncodeEvent::Other => r == EncodeAction::Nothing,
                }
            },
        },
{
    match event {
        None => EncodeAction::Stop(JobStatus::Finished, String::new()),
        Some(event) => {
            if quit_requested {
                return EncodeAction::Quit;
            }
            match event {
                EncodeEvent::Error(message) => EncodeAction::Stop(JobStatus::Failed, message),
                EncodeEvent::Progress { frame, fps } => {
                    assert(frame <= 0x7fff_ffff ==> #[verifier::truncate] (frame as i32) == frame)
                        by (bit_vector);
                    assert(frame > 0x7fff_ffff ==> #[verifier::truncate] (frame as i32) == frame
                        - 0x1_0000_0000) by (bit_vector);
                    EncodeAction::Progress { frame: #[verifier::truncate] (frame as i32), fps }
                },
                EncodeEvent::Problem(message) => EncodeAction::Warn(message),
                EncodeEvent::Other => EncodeAction::Nothing,
            }
        },
    }
}

// ---------------------------------------------------------------------------------------------
// Metadata
// ---------------------------------------------------------------------------------------------

/// What ffmpeg tells of an input file.
#[derive(Debug, PartialEq)]
pub enum ProbeEvent {
    /// The length of the file in whole seconds.
    Duration(u64),
    Stream(StreamInfo),
}

/// The frame rate, the width and the height of the first video stream, which is the only one that
/// is encoded.
pub open spec fn first_video(events: Seq<ProbeEvent>) -> Option<(FloatBits, u32, u32)>
    decreases events.len(),
{
    if events.len() == 0 {
        None
    } else {
        match (first_video(events.drop_last()), events.last()) {
            (Some(video), _) => Some(video),
            (
                None,
                ProbeEvent::Stream(
                    StreamInfo { kind: StreamKind::Video { fps, width, height }, .. },
                ),
            ) => Some((fps, width, height)),
            _ => None,
        }
    }
}

/// The last length.
pub open spec fn last_duration(events: Seq<ProbeEvent>) -> Option<u64>
    decreases events.len(),
{
    if events.len() == 0 {
        None
    } else {
        match events.last() {
            ProbeEvent::Duration(seconds) => Some(seconds),
            _ => last_duration(events.drop_last()),
        }
    }
}

/// The audio streams with a known channel layout.
pub open spec fn audio_streams(events: Seq<ProbeEvent>) -> Seq<metadata::AudioStreamView>
    decreases events.len(),
{
    if events.len() == 0 {
        Seq::empty()
    } else {
        let before = audio_streams(events.drop_last());
        match events.last() {
            ProbeEvent::Stream(stream) => match AudioStream::of_stream(stream) {
                Some(audio) => before.push(audio),
                None => before,
            },
            _ => before,
        }
    }
}

/// The subtitle streams.
pub open spec fn subtitle_streams(events: Seq<ProbeEvent>) -> Seq<metadata::SubtitleStreamView>
    decreases events.len(),
{
    if events.len() == 0 {
        Seq::empty()
    } else {
        let before = subtitle_streams(events.drop_last());
        match events.last() {
            ProbeEvent::Stream(stream) if stream.kind is Subtitle => before.push(
                (stream.index, stream.format@),
            ),
            _ => before,
        }
    }
}

/// The highest index of a video, audio or subtitle stream, or 0 if there is none.
pub open spec fn highest_index(events: Seq<ProbeEvent>) -> u32
    decreases events.len(),
{
    if events.len() == 0 {
        0
    } else {
        let before = highest_index(events.drop_last());
        match events.last() {
            ProbeEvent::Stream(stream) if !(stream.kind is Other) && stream.index > before => {
                stream.index
            },
            _ => before,
        }
    }
}

/// Makes the metadata of a file of what ffmpeg tells of it, if that is enough.
pub fn extract_metadata(events: &Vec<ProbeEvent>) -> (r: Option<InputFileMetadata>)
    ensures
        r is Some <==> first_video(events@) is Some && last_duration(events@) is Some,
        r matches Some(m) ==> {
            &&& first_video(events@) == Some((m.fps, m.width, m.height))
            &&& last_duration(events@) matches Some(seconds) && m.duration@ == seconds
                * NANOS_PER_SEC
            &&& metadata::audio_views(m.audio_streams@) == audio_streams(events@)
            &&& metadata::subtitle_views(m.subtitle_streams@) == subtitle_streams(events@)
            &&& m.highest_stream_index == highest_index(events@)
        },
{
    let mut video: Option<(FloatBits, u32, u32)> = None;
    let mut seconds: Option<u64> = None;
    let mut audio: Vec<AudioStream> = Vec::new();
    let mut subtitles: Vec<SubtitleStream> = Vec::new();
    let mut highest_stream_index: u32 = 0;
    let mut i: usize = 0;
    assert(metadata::audio_views(audio@) =~= Seq::empty());
    assert(metadata::subtitle_views(subtitles@) =~= Seq::empty());
    while i < events.len()
        invariant
            i <= events.len(),
            video == first_video(events@.take(i as int)),
            seconds == last_duration(events@.take(i as int)),
            metadata::audio_views(audio@) == audio_streams(events@.take(i as int)),
            metadata::subtitle_views(subtitles@) == subtitle_streams(events@.take(i as int)),
            highest_stream_index == highest_index(events@.take(i as int)),
        decreases events.len() - i,
    {
        let ghost seen = events@.take(i + 1);
        assert(seen.drop_last() =~= events@.take(i as int));
        assert(seen.last() == events@[i as int]);
        match &events[i] {
            ProbeEvent::Duration(length) => {
                seconds = Some(*length);
            },
            ProbeEvent::Stream(stream) => {
                match &stream.kind {
                    StreamKind::Video { fps, width, height } => {
                        if video.is_none() {
                            video = Some((*fps, *width, *height));
                        }
                        if stream.index > highest_stream_index {
                            highest_stream_index = stream.index;
                        }
                    },
                    StreamKind::Audio { .. } => {
                        if stream.index > highest_stream_index {
                            highest_stream_index = stream.index;
                        }
                        if let Ok(audio_stream) = AudioStream::try_from(stream) {
                            audio.push(audio_stream);
                            assert(metadata::audio_views(audio@) =~= audio_streams(seen));
                        }
                    },
                    StreamKind::Subtitle => {
                        if stream.index > highest_stream_index {
                            highest_stream_index = stream.index;
                        }
                        subtitles.push(SubtitleStream::from(stream));
                        assert(metadata::subtitle_views(subtitles@) =~= subtitle_streams(seen));
                    },
                    StreamKind::Other => {},
                }
            },
        }
        i += 1;
    }
    assert(events@.take(i as int) =~= events@);
    match (video, seconds) {
        (Some((fps, width, height)), Some(length)) => Some(
            InputFileMetadata {
                fps,
                duration: Duration::from_secs(length),
                width,
                height,
                audio_streams: audio,
                subtitle_streams: subtitles,
                highest_stream_index,
            },
        ),
        _ => None,
    }
}

/// No audio or subtitle stream has an index behind the highest one, so that those are free.
pub proof fn indices_behind_the_highest_are_free(events: Seq<ProbeEvent>)
    ensures
        forall|i: int|
            0 <= i < audio_streams(events).len() ==> (#[trigger] audio_streams(events)[i]).0
                <= highest_index(events),
        forall|i: int|
            0 <= i < subtitle_streams(events).len() ==> (#[trigger] subtitle_streams(events)[i]).0
                <= highest_index(events),
    decreases events.len(),
{
    if events.len() > 0 {
        indices_behind_the_highest_are_free(events.drop_last());
        assert(highest_index(events.drop_last()) <= highest_index(events));
        let audio = audio_streams(events);
        let audio_before = audio_streams(events.drop_last());
        assert forall|i: int| 0 <= i < audio.len() implies (#[trigger] audio[i]).0
            <= highest_index(events) by {
            if i < audio_before.len() {
                assert(audio[i] == audio_before[i]);
            }
        }
        let subtitles = subtitle_streams(events);
        let subtitles_before = subtitle_streams(events.drop_last());
        assert forall|i: int| 0 <= i < subtitles.len() implies (#[trigger] subtitles[i]).0
            <= highest_index(events) by {
            if i < subtitles_before.len() {
                assert(subtitles[i] == subtitles_before[i]);
            }
        }
    }
}

/// External subtitles get indices that no stream of the input file has, each a different one.
pub proof fn external_subtitles_get_free_indices(
    events: Seq<ProbeEvent>,
    job: Job,
    i: int,
    j: int,
)
    requires
        job.input_file_metadata is Some,
        job.input_file_metadata->0.highest_stream_index == highest_index(events),
        0 <= i < j,
    ensures
        job.external_stream_index(i) < job.external_stream_index(j),
        forall|k: int|
            0 <= k < audio_streams(events).len() ==> (#[trigger] audio_streams(events)[k]).0
                < job.external_stream_index(i),
        forall|k: int|
            0 <= k < subtitle_streams(events).len() ==> (#[trigger] subtitle_streams(events)[k]).0
                < job.external_stream_index(i),
{
    indices_behind_the_highest_are_free(events);
}

// ---------------------------------------------------------------------------------------------
// Cropping
// ---------------------------------------------------------------------------------------------

/// The width, the height, the x-offset and the y-offset of what is left of an image.
pub type CropRegion = (u32, u32, u32, u32);

/// What ffmpeg writes where it has found a region.
pub const CROP_DETECT_PATTERN: &'static str = "crop=(\\d+):(\\d+):(\\d+):(\\d+)";

/// How many points in time are looked at to detect how to crop.
pub const CROP_DETECT_NUMBER_OF_TIME_POINTS: u32 = 12;

/// For how many seconds to look at each point in time.
pub const CROP_DETECT_DURATION_AT_TIME_POINT: &'static str = "0.2";

/// What a regular expression matches first in a text: the whole match, and behind it what each
/// group of the expression matches.
pub uninterp spec fn regex_groups(pattern: Seq<char>, text: Seq<char>) -> Option<
    Seq<Option<Seq<char>>>,
>;

/// The characters of groups.
pub open spec fn group_texts(groups: Option<Vec<Option<String>>>) -> Option<
    Seq<Option<Seq<char>>>,
> {
    match groups {
        Some(g) => Some(g@.map_values(|t: Option<String>| paths::optional_text(t))),
        None => None,
    }
}

/// `regex::Regex::captures`, of the expression that `regex::Regex::new` makes of `pattern`: what it
/// and its groups match first in `text`. There is nothing where `pattern` is no regular
/// expression. What is matched is left unsaid, but for the whole match, which is always there.
#[verifier::external_body]
fn find_groups(pattern: &str, text: &str) -> (r: Option<Vec<Option<String>>>)
    ensures
        group_texts(r) == regex_groups(pattern@, text@),
        r matches Some(g) ==> g@.len() > 0 && g@[0] is Some,
{
    let groups = regex::Regex::new(pattern).ok()?.captures(text)?;
    Some(groups.iter().map(|g| g.map(|m| m.as_str().to_string())).collect())
}

/// The number in a group.
pub open spec fn group_number(groups: Seq<Option<Seq<char>>>, i: int) -> Option<nat> {
    if i < groups.len() && groups[i] is Some {
        strings::parsed(groups[i]->0, u32::MAX as nat)
    } else {
        None
    }
}

/// Whether there are no groups, or the groups from 1 to 4 are numbers.
pub open spec fn are_crop_groups(groups: Option<Seq<Option<Seq<char>>>>) -> bool {
    groups matches Some(g) ==> group_number(g, 1) is Some && group_number(g, 2) is Some
        && group_number(g, 3) is Some && group_number(g, 4) is Some
}

/// Whether `r` is the region that the groups from 1 to 4 stand for.
pub open spec fn is_crop_of_groups(
    r: Option<CropRegion>,
    groups: Option<Seq<Option<Seq<char>>>>,
) -> bool {
    match groups {
        None => r is None,
        Some(g) => {
            &&& r matches Some((width, height, x_offset, y_offset))
            &&& group_number(g, 1) == Some(width as nat)
            &&& group_number(g, 2) == Some(height as nat)
            &&& group_number(g, 3) == Some(x_offset as nat)
            &&& group_number(g, 4) == Some(y_offset as nat)
        },
    }
}

/// The number in a group.
fn parse_group(groups: &Vec<Option<String>>, i: usize) -> (r: Option<u32>)
    ensures
        match r {
            Some(n) => group_number(group_texts(Some(*groups))->0, i as int) == Some(n as nat),
            None => group_number(group_texts(Some(*groups))->0, i as int) is None,
        },
{
    if i >= groups.len() {
        return None;
    }
    match &groups[i] {
        Some(text) => strings::parse_u32(text.as_str()),
        None => None,
    }
}

/// The region that the groups of a match stand for, if they all are numbers.
pub fn parse_crop_groups(groups: &Option<Vec<Option<String>>>) -> (r: Result<
    Option<CropRegion>,
    UnreadableCrop,
>)
    ensures
        r is Ok <==> are_crop_groups(group_texts(*groups)),
        r matches Ok(region) ==> is_crop_of_groups(region, group_texts(*groups)),
{
    match groups {
        None => Ok(None),
        Some(groups) => match (
            parse_group(groups, 1),
            parse_group(groups, 2),
            parse_group(groups, 3),
            parse_group(groups, 4),
        ) {
            (Some(width), Some(height), Some(x_offset), Some(y_offset)) => Ok(
                Some((width, height, x_offset, y_offset)),
            ),
            _ => Err(UnreadableCrop),
        },
    }
}

/// A region has a number that is too large.
#[derive(Debug, Clone, Copy, PartialEq, Eq, Structural)]
pub struct UnreadableCrop;

/// The region in a line that ffmpeg writes, if there is one. All of its numbers fit in 32 bits.
pub fn extract_crop_parameters(string: &str) -> (r: Option<CropRegion>)
    requires
        are_crop_groups(regex_groups(CROP_DETECT_PATTERN@, string@)),
    ensures
        is_crop_of_groups(r, regex_groups(CROP_DETECT_PATTERN@, string@)),
{
    match parse_crop_groups(&find_groups(CROP_DETECT_PATTERN, string)) {
        Ok(region) => region,
        Err(_) => None,
    }
}

/// The region in a line that ffmpeg writes, if there is one, or the error that its numbers can not
/// be read.
pub fn try_extract_crop_parameters(string: &str) -> (r: Result<Option<CropRegion>, UnreadableCrop>)
    ensures
        r is Ok <==> are_crop_groups(regex_groups(CROP_DETECT_PATTERN@, string@)),
        r matches Ok(region) ==> is_crop_of_groups(
            region,
            regex_groups(CROP_DETECT_PATTERN@, string@),
        ),
{
    match parse_crop_groups(&find_groups(CROP_DETECT_PATTERN, string)) {
        Ok(_) => Ok(extract_crop_parameters(string)),
        Err(e) => Err(e),
    }
}

/// Whether `extent` is the largest of the extents, and `offset` that of the first region that has
/// it. The offset is 0 where all extents are.
pub open spec fn is_largest(
    extents: Seq<u32>,
    offsets: Seq<u32>,
    extent: u32,
    offset: u32,
) -> bool {
    &&& forall|i: int| 0 <= i < extents.len() ==> #[trigger] extents[i] <= extent
    &&& if extent == 0 {
        offset == 0
    } else {
        exists|i: int|
            0 <= i < extents.len() && #[trigger] extents[i] == extent && offsets[i] == offset
                && forall|j: int| 0 <= j < i ==> #[trigger] extents[j] < extent
    }
}

/// The widths of regions.
pub open spec fn widths(regions: Seq<CropRegion>) -> Seq<u32> {
    regions.map_values(|r: CropRegion| r.0)
}

/// The heights of regions.
pub open spec fn heights(regions: Seq<CropRegion>) -> Seq<u32> {
    regions.map_values(|r: CropRegion| r.1)
}

/// The x-offsets of regions.
pub open spec fn x_offsets(regions: Seq<CropRegion>) -> Seq<u32> {
    regions.map_values(|r: CropRegion| r.2)
}

/// The y-offsets of regions.
pub open spec fn y_offsets(regions: Seq<CropRegion>) -> Seq<u32> {
    regions.map_values(|r: CropRegion| r.3)
}

/// Selects what crops an image the least: the largest width and the largest height. Some movies
/// have segments with open matte, which would otherwise be cut off.
pub fn select_least_cropped_parameters(crop_parameters: &Vec<CropRegion>) -> (r: Option<CropRegion>)
    ensures
        r is Some <==> crop_parameters@.len() > 0,
        r matches Some((width, height, x_offset, y_offset)) ==> {
            &&& is_largest(
                widths(crop_parameters@),
                x_offsets(crop_parameters@),
                width,
                x_offset,
            )
            &&& is_largest(
                heights(crop_parameters@),
                y_offsets(crop_parameters@),
                height,
                y_offset,
            )
        },
{
    if crop_parameters.len() == 0 {
        return None;
    }
    let ghost all = crop_parameters@;
    let mut max_width: u32 = 0;
    let mut max_height: u32 = 0;
    let mut x_offset: u32 = 0;
    let mut y_offset: u32 = 0;
    let mut i: usize = 0;
    while i < crop_parameters.len()
        invariant
            i <= crop_parameters.len(),
            all == crop_parameters@,
            is_largest(
                widths(all.take(i as int)),
                x_offsets(all.take(i as int)),
                max_width,
                x_offset,
            ),
            is_largest(
                heights(all.take(i as int)),
                y_offsets(all.take(i as int)),
                max_height,
                y_offset,
            ),
        decreases crop_parameters.len() - i,
    {
        let (width, height, x_off, y_off) = crop_parameters[i];
        let ghost seen = all.take(i as int);
        let ghost more = all.take(i + 1);
        proof {
            assert(more =~= seen.push(all[i as int]));
            assert(widths(more) =~= widths(seen).push(width));
            assert(heights(more) =~= heights(seen).push(height));
            assert(x_offsets(more) =~= x_offsets(seen).push(x_off));
            assert(y_offsets(more) =~= y_offsets(seen).push(y_off));
            largest_of_one_more(widths(seen), x_offsets(seen), max_width, x_offset, width, x_off);
            largest_of_one_more(
                heights(seen),
                y_offsets(seen),
                max_height,
                y_offset,
                height,
                y_off,
            );
        }
        if width > max_width {
            max_width = width;
            x_offset = x_off;
        }
        if height > max_height {
            max_height = height;
            y_offset = y_off;
        }
        i += 1;
    }
    assert(all.take(i as int) =~= all);
    Some((max_width, max_height, x_offset, y_offset))
}

proof fn largest_of_one_more(
    extents: Seq<u32>,
    offsets: Seq<u32>,
    extent: u32,
    offset: u32,
    next_extent: u32,
    next_offset: u32,
)
    requires
        extents.len() == offsets.len(),
        is_largest(extents, offsets, extent, offset),
    ensures
        next_extent > extent ==> is_largest(
            extents.push(next_extent),
            offsets.push(next_offset),
            next_extent,
            next_offset,
        ),
        next_extent <= extent ==> is_largest(
            extents.push(next_extent),
            offsets.push(next_offset),
            extent,
            offset,
        ),
{
    let more = extents.push(next_extent);
    let more_offsets = offsets.push(next_offset);
    let larger = if next_extent > extent {
        next_extent
    } else {
        extent
    };
    assert forall|i: int| 0 <= i < more.len() implies #[trigger] more[i] <= larger by {
        if i < extents.len() {
            assert(more[i] == extents[i]);
        }
    }
    if next_extent > extent {
        assert(more[extents.len() as int] == next_extent);
        assert(more_offsets[extents.len() as int] == next_offset);
        assert forall|j: int| 0 <= j < extents.len() implies #[trigger] more[j] < next_extent by {
            assert(more[j] == extents[j]);
        }
    } else if extent > 0 {
        let i = choose|i: int|
            0 <= i < extents.len() && #[trigger] extents[i] == extent && offsets[i] == offset
                && forall|j: int| 0 <= j < i ==> #[trigger] extents[j] < extent;
        assert(more[i] == extent && more_offsets[i] == offset);
        assert forall|j: int| 0 <= j < i implies #[trigger] more[j] < extent by {
            assert(more[j] == extents[j]);
        }
    }
}

/// The selected region is at least as wide and as high as each of the regions.
pub proof fn the_least_crop_cuts_nothing_else_off(
    regions: Seq<CropRegion>,
    least: CropRegion,
    i: int,
)
    requires
        is_largest(widths(regions), x_offsets(regions), least.0, least.2),
        is_largest(heights(regions), y_offsets(regions), least.1, least.3),
        0 <= i < regions.len(),
    ensures
        regions[i].0 <= least.0,
        regions[i].1 <= least.1,
{
    assert(widths(regions)[i] == regions[i].0);
    assert(heights(regions)[i] == regions[i].1);
}

/// Whether `found` are the regions in the lines that ffmpeg writes, in the order of the lines.
pub open spec fn are_crops_of_lines(found: Seq<CropRegion>, lines: Seq<Seq<char>>) -> bool
    decreases lines.len(),
{
    if lines.len() == 0 {
        found.len() == 0
    } else {
        match regex_groups(CROP_DETECT_PATTERN@, lines.last()) {
            None => are_crops_of_lines(found, lines.drop_last()),
            Some(groups) => {
                &&& found.len() > 0
                &&& is_crop_of_groups(Some(found.last()), Some(groups))
                &&& are_crops_of_lines(found.drop_last(), lines.drop_last())
            },
        }
    }
}

/// The regions in the lines that ffmpeg writes, or the error that the numbers of one of them can
/// not be read.
pub fn extract_all_crop_parameters(lines: &Vec<String>) -> (r: Result<
    Vec<CropRegion>,
    UnreadableCrop,
>)
    ensures
        r is Ok <==> forall|i: int|
            0 <= i < lines@.len() ==> are_crop_groups(
                regex_groups(CROP_DETECT_PATTERN@, (#[trigger] lines@[i])@),
            ),
        r matches Ok(regions) ==> are_crops_of_lines(regions@, strings::texts(lines@)),
{
    let ghost all = strings::texts(lines@);
    let mut regions: Vec<CropRegion> = Vec::new();
    let mut i: usize = 0;
    while i < lines.len()
        invariant
            i <= lines.len(),
            all == strings::texts(lines@),
            forall|j: int|
                0 <= j < i ==> are_crop_groups(
                    regex_groups(CROP_DETECT_PATTERN@, (#[trigger] lines@[j])@),
                ),
            are_crops_of_lines(regions@, all.take(i as int)),
        decreases lines.len() - i,
    {
        assert(all.take(i + 1).drop_last() =~= all.take(i as int));
        assert(all.take(i + 1).last() == lines@[i as int]@);
        match try_extract_crop_parameters(lines[i].as_str()) {
            Ok(Some(region)) => {
                let ghost before = regions@;
                regions.push(region);
                assert(regions@.drop_last() =~= before);
            },
            Ok(None) => {},
            Err(e) => return Err(e),
        }
        i += 1;
    }
    assert(all.take(i as int) =~= all);
    Ok(regions)
}

proof fn regions_come_of_matches(found: Seq<CropRegion>, lines: Seq<Seq<char>>)
    requires
        are_crops_of_lines(found, lines),
    ensures
        found.len() == 0 <==> forall|i: int|
            0 <= i < lines.len() ==> regex_groups(
                CROP_DETECT_PATTERN@,
                #[trigger] lines[i],
            ) is None,
    decreases lines.len(),
{
    if lines.len() > 0 {
        let before = lines.drop_last();
        if regex_groups(CROP_DETECT_PATTERN@, lines.last()) is None {
            regions_come_of_matches(found, before);
            if found.len() == 0 {
                assert forall|i: int| 0 <= i < lines.len() implies regex_groups(
                    CROP_DETECT_PATTERN@,
                    #[trigger] lines[i],
                ) is None by {
                    if i < lines.len() - 1 {
                        assert(before[i] == lines[i]);
                    }
                }
            } else {
                let i = choose|i: int|
                    0 <= i < before.len() && !(regex_groups(
                        CROP_DETECT_PATTERN@,
                        #[trigger] before[i],
                    ) is None);
                assert(lines[i] == before[i]);
            }
        } else {
            assert(lines[lines.len() - 1] == lines.last());
        }
    }
}

/// Why no region was detected.
#[derive(Debug, Clone, Copy, PartialEq, Eq, Structural)]
pub enum CropError {
    /// A region has a number that is too large.
    Unreadable,
    NothingFound,
}

impl CropError {
    /// The message that describes this error.
    pub open spec fn spec_message(self) -> Seq<char> {
        match self {
            CropError::Unreadable => "A number of a region is too large."@,
            CropError::NothingFound => "Could not select least cropped parameters."@,
        }
    }

    /// The message that describes this error.
    pub fn message(&self) -> (r: String)
        ensures
            r@ == self.spec_message(),
    {
        match self {
            CropError::Unreadable => "A number of a region is too large.".to_string(),
            CropError::NothingFound => "Could not select least cropped parameters.".to_string(),
        }
    }
}

/// Whether `least` crops an image the least of all regions in the lines that ffmpeg writes.
pub open spec fn is_least_crop_of_lines(least: CropRegion, lines: Seq<Seq<char>>) -> bool {
    exists|regions: Seq<CropRegion>| #[trigger]
        are_crops_of_lines(regions, lines) && regions.len() > 0 && is_largest(
            widths(regions),
            x_offsets(regions),
            least.0,
            least.2,
        ) && is_largest(heights(regions), y_offsets(regions), least.1, least.3)
}

/// Detects how to crop a file, from the lines that ffmpeg writes about it: the least that any of
/// them says.
pub fn autodetect_crop_parameters(lines: &Vec<String>) -> (r: Result<CropRegion, CropError>)
    ensures
        r == Err::<CropRegion, CropError>(CropError::Unreadable) <==> exists|i: int|
            0 <= i < lines@.len() && !are_crop_groups(
                regex_groups(CROP_DETECT_PATTERN@, (#[trigger] lines@[i])@),
            ),
        r == Err::<CropRegion, CropError>(CropError::NothingFound) <==> forall|i: int|
            0 <= i < lines@.len() ==> regex_groups(
                CROP_DETECT_PATTERN@,
                (#[trigger] lines@[i])@,
            ) is None,
        r matches Ok(least) ==> is_least_crop_of_lines(least, strings::texts(lines@)),
{
    match extract_all_crop_parameters(lines) {
        Err(_) => Err(CropError::Unreadable),
        Ok(regions) => {
            proof {
                let all = strings::texts(lines@);
                regions_come_of_matches(regions@, all);
                assert forall|i: int| 0 <= i < lines@.len() implies (#[trigger] lines@[i])@
                    == all[i] by {}
            }
            match select_least_cropped_parameters(&regions) {
                Some(least) => Ok(least),
                None => Err(CropError::NothingFound),
            }
        },
    }
}

/// The arguments that ffmpeg detects with how to crop a file at a point in time. The seek comes
/// before the input, or else it would have no effect.
pub open spec fn crop_detection_args(file_path: Seq<char>, seconds: nat) -> Seq<Seq<char>> {
    seq![
        "-ss"@,
        metadata::clock_text(seconds),
        "-t"@,
        CROP_DETECT_DURATION_AT_TIME_POINT@,
        "-i"@,
        file_path,
        "-vf"@,
        "cropdetect=round=2:limit=0.1,metadata=mode=print"@,
        "-f"@,
        "null"@,
        "-"@,
    ]
}

/// The arguments that ffmpeg detects with how to crop a file at a point in time.
pub fn args_for_crop_detection(file_path: &str, time_code: &Duration) -> (r: Vec<String>)
    ensures
        strings::texts(r@) == crop_detection_args(file_path@, time_code.seconds()),
{
    broadcast use strings::group_texts;

    let mut args: Vec<String> = Vec::new();
    args.push("-ss".to_string());
    args.push(metadata::duration_to_string(time_code));
    args.push("-t".to_string());
    args.push(CROP_DETECT_DURATION_AT_TIME_POINT.to_string());
    args.push("-i".to_string());
    args.push(file_path.to_string());
    args.push("-vf".to_string());
    args.push("cropdetect=round=2:limit=0.1,metadata=mode=print".to_string());
    args.push("-f".to_string());
    args.push("null".to_string());
    args.push("-".to_string());
    assert(strings::texts(args@) =~= crop_detection_args(file_path@, time_code.seconds()));
    args
}

/// `rand::Rng::random_range`, with the generator `rand::rng` and from zero: a span of time that is
/// shorter than the given one. Which one it is depends on chance.
#[verifier::external_body]
fn random_span(secs: u64, nanos: u32) -> (r: (u64, u32))
    requires
        nanos < NANOS_PER_SEC,
        secs > 0 || nanos > 0,
    ensures
        r.0 < secs || (r.0 == secs && r.1 < nanos),
        r.1 < NANOS_PER_SEC,
{
    let limit = std::time::Duration::new(secs, nanos);
    let span = rand::Rng::random_range(&mut rand::rng(), std::time::Duration::ZERO..limit);
    (span.as_secs(), span.subsec_nanos())
}

/// How many points in time are looked at in a file: not more than it has seconds.
pub open spec fn time_code_count(seconds: nat, n: u32) -> nat {
    let limit = seconds % 0x1_0000_0000;
    if n <= limit {
        n as nat
    } else {
        limit
    }
}

/// The points in time with the given numbers of seconds.
pub fn whole_second_time_codes(seconds: &Vec<u64>) -> (r: Vec<Duration>)
    ensures
        r@.len() == seconds@.len(),
        forall|i: int|
            0 <= i < r@.len() ==> (#[trigger] r@[i])@ == seconds@[i] * NANOS_PER_SEC,
{
    let mut r: Vec<Duration> = Vec::new();
    let mut i: usize = 0;
    while i < seconds.len()
        invariant
            i <= seconds.len(),
            r@.len() == i,
            forall|j: int|
                0 <= j < i ==> (#[trigger] r@[j])@ == seconds@[j] * NANOS_PER_SEC,
        decreases seconds.len() - i,
    {
        r.push(Duration::from_secs(seconds[i]));
        i += 1;
    }
    r
}

/// Random points in time before the given one, in whole seconds. There are not more of them than
/// there are seconds before it.
///
/// With 00:10:00 and 4 these could be 00:01:20, 00:01:59, 00:06:11 and 00:08:02. With 00:00:04 and
/// 6 there would only be 4 of them.
pub fn random_time_codes_within_range(time_code: Duration, n: u32) -> (r: Vec<Duration>)
    ensures
        r@.len() == time_code_count(time_code.seconds(), n),
        r@.len() <= time_code.seconds(),
        forall|i: int|
            0 <= i < r@.len() ==> (#[trigger] r@[i])@ < time_code@ && r@[i]@
                % NANOS_PER_SEC as nat == 0,
{
    let secs: u64 = time_code.as_secs();
    let nanos: u32 = time_code.subsec_nanos();
    let max_number_of_time_codes: u32 = #[verifier::truncate] (secs as u32);
    assert(#[verifier::truncate] (secs as u32) == secs % 0x1_0000_0000) by (bit_vector);
    let count: u32 = if n <= max_number_of_time_codes {
        n
    } else {
        max_number_of_time_codes
    };
    let mut seconds: Vec<u64> = Vec::new();
    let mut i: u32 = 0;
    while i < count
        invariant
            i <= count,
            count <= secs,
            nanos < NANOS_PER_SEC,
            seconds@.len() == i,
            forall|j: int|
                0 <= j < i ==> #[trigger] seconds@[j] < secs || (seconds@[j] == secs && nanos > 0),
        decreases count - i,
    {
        let (random_seconds, _) = random_span(secs, nanos);
        seconds.push(random_seconds);
        i += 1;
    }
    whole_second_time_codes(&seconds)
}

} // verus!
