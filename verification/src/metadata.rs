//! What is known of a video file: its length, its frame rate and its streams.

use vstd::prelude::*;

use crate::settings;
use crate::settings::AudioChannelLayout;
use crate::strings;
use crate::time::Duration;

verus! {

/// A floating point number of 32 bits, kept as its bit pattern. It is carried along, and never
/// calculated with here.
#[derive(Debug, Clone, Copy, PartialEq, Eq, Structural)]
pub struct FloatBits {
    pub bits: u32,
}

/// A stream of a video file.
#[derive(Debug, PartialEq)]
pub struct StreamInfo {
    pub index: u32,
    pub format: String,
    pub kind: StreamKind,
}

/// What a stream holds.
#[derive(Debug, PartialEq)]
pub enum StreamKind {
    Video { fps: FloatBits, width: u32, height: u32 },
    Audio { channels: String },
    Subtitle,
    Other,
}

/// Why a stream is no audio stream that can be encoded.
#[derive(Debug, PartialEq)]
pub enum StreamError {
    NotAudio,
    UnsupportedLayout(String),
}

impl StreamError {
    /// The message that is written to the log.
    pub open spec fn spec_message(self) -> Seq<char> {
        match self {
            StreamError::NotAudio => "Stream does not contain audio data"@,
            StreamError::UnsupportedLayout(channels) => {
                "Unsupported channel layout detected: "@ + channels@
            },
        }
    }

    /// The message that is written to the log.
    pub fn message(&self) -> (r: String)
        ensures
            r@ == self.spec_message(),
    {
        match self {
            StreamError::NotAudio => "Stream does not contain audio data".to_string(),
            StreamError::UnsupportedLayout(channels) => {
                let mut r = "Unsupported channel layout detected: ".to_string();
                r.append(channels.as_str());
                r
            },
        }
    }
}

/// The channel layout that ffmpeg calls `channels`.
pub open spec fn layout_named(channels: Seq<char>) -> Option<AudioChannelLayout> {
    if channels == "mono"@ {
        Some(AudioChannelLayout::Mono)
    } else if channels == "stereo"@ {
        Some(AudioChannelLayout::Stereo20)
    } else if channels == "5.1"@ {
        Some(AudioChannelLayout::Surround51)
    } else if channels == "5.1(side)"@ {
        Some(AudioChannelLayout::Surround51Side)
    } else if channels == "7.1"@ {
        Some(AudioChannelLayout::Surround71)
    } else {
        None
    }
}

/// An audio stream in plain values: its index, its layout and its codec.
pub type AudioStreamView = (u32, AudioChannelLayout, Seq<char>);

/// A subtitle stream in plain values: its index and its format.
pub type SubtitleStreamView = (u32, Seq<char>);

#[derive(Debug, PartialEq)]
pub struct AudioStream {
    pub index: u32,
    pub channel_layout: AudioChannelLayout,
    pub codec: String,
}

impl View for AudioStream {
    type V = AudioStreamView;

    open spec fn view(&self) -> AudioStreamView {
        (self.index, self.channel_layout, self.codec@)
    }
}

impl Clone for AudioStream {
    fn clone(&self) -> (r: Self)
        ensures
            r == *self,
    {
        AudioStream {
            index: self.index,
            channel_layout: self.channel_layout,
            codec: self.codec.clone(),
        }
    }
}

/// The layout that ffmpeg calls `channels`.
pub fn find_layout(channels: &str) -> (r: Option<AudioChannelLayout>)
    ensures
        r == layout_named(channels@),
{
    if strings::same_text(channels, "mono") {
        Some(AudioChannelLayout::Mono)
    } else if strings::same_text(channels, "stereo") {
        Some(AudioChannelLayout::Stereo20)
    } else if strings::same_text(channels, "5.1") {
        Some(AudioChannelLayout::Surround51)
    } else if strings::same_text(channels, "5.1(side)") {
        Some(AudioChannelLayout::Surround51Side)
    } else if strings::same_text(channels, "7.1") {
        Some(AudioChannelLayout::Surround71)
    } else {
        None
    }
}

impl AudioStream {
    /// The audio stream that `stream` is, if it holds audio in a known layout.
    pub open spec fn of_stream(stream: StreamInfo) -> Option<AudioStreamView> {
        match stream.kind {
            StreamKind::Audio { channels } => match layout_named(channels@) {
                Some(layout) => Some((stream.index, layout, stream.format@)),
                None => None,
            },
            _ => None,
        }
    }

    /// Takes `stream` for an audio stream.
    pub fn try_from(stream: &StreamInfo) -> (r: Result<Self, StreamError>)
        ensures
            r is Ok <==> Self::of_stream(*stream) is Some,
            r matches Ok(a) ==> Self::of_stream(*stream) == Some(a@),
            r matches Err(StreamError::NotAudio) ==> !(stream.kind is Audio),
            r matches Err(StreamError::UnsupportedLayout(c)) ==> stream.kind is Audio && c@
                == stream.kind->channels@,
    {
        match &stream.kind {
            StreamKind::Audio { channels } => match find_layout(channels.as_str()) {
                Some(channel_layout) => Ok(
                    AudioStream {
                        index: stream.index,
                        channel_layout,
                        codec: stream.format.clone(),
                    },
                ),
                None => Err(StreamError::UnsupportedLayout(channels.clone())),
            },
            _ => Err(StreamError::NotAudio),
        }
    }
}

#[derive(Debug, PartialEq)]
pub struct SubtitleStream {
    pub index: u32,
    pub format: String,
}

impl View for SubtitleStream {
    type V = SubtitleStreamView;

    open spec fn view(&self) -> SubtitleStreamView {
        (self.index, self.format@)
    }
}

impl Clone for SubtitleStream {
    fn clone(&self) -> (r: Self)
        ensures
            r == *self,
    {
        SubtitleStream { index: self.index, format: self.format.clone() }
    }
}

impl SubtitleStream {
    /// Takes `stream` for the subtitle stream that it is.
    pub fn from(stream: &StreamInfo) -> (r: Self)
        requires
            stream.kind is Subtitle,
        ensures
            r@ == (stream.index, stream.format@),
    {
        SubtitleStream { index: stream.index, format: stream.format.clone() }
    }
}

#[derive(Debug, Clone, PartialEq)]
pub struct InputFileMetadata {
    pub fps: FloatBits,
    pub duration: Duration,
    pub width: u32,
    pub height: u32,
    pub audio_streams: Vec<AudioStream>,
    pub subtitle_streams: Vec<SubtitleStream>,
    pub highest_stream_index: u32,
}

/// The plain values of audio streams.
pub open spec fn audio_views(streams: Seq<AudioStream>) -> Seq<AudioStreamView> {
    streams.map_values(|a: AudioStream| a@)
}

/// The plain values of subtitle streams.
pub open spec fn subtitle_views(streams: Seq<SubtitleStream>) -> Seq<SubtitleStreamView> {
    streams.map_values(|t: SubtitleStream| t@)
}

/// A number of seconds as hours, minutes and seconds, of at least two digits each.
pub open spec fn clock_text(seconds: nat) -> Seq<char> {
    strings::two_digits(seconds / 3600) + ":"@ + strings::two_digits(seconds % 3600 / 60) + ":"@
        + strings::two_digits(seconds % 60)
}

/// A span of time as hours, minutes and seconds.
pub fn duration_to_string(duration: &Duration) -> (r: String)
    ensures
        r@ == clock_text(duration.seconds()),
{
    let total_seconds: u64 = duration.as_secs();
    let mut r = strings::two_digit_string(total_seconds / 3600);
    r.append(":");
    r.append(strings::two_digit_string(total_seconds % 3600 / 60).as_str());
    r.append(":");
    r.append(strings::two_digit_string(total_seconds % 60).as_str());
    r
}

/// A span of time in this notation is a time that encoding can start at, unless its hours do
/// not fit in 32 bits.
pub proof fn clock_texts_are_times(seconds: nat)
    requires
        seconds / 3600 <= u32::MAX,
    ensures
        settings::is_time(clock_text(seconds)),
{
    let h = strings::two_digits(seconds / 3600);
    let m = strings::two_digits(seconds % 3600 / 60);
    let s = strings::two_digits(seconds % 60);
    strings::parsing_undoes_two_digits(seconds / 3600, u32::MAX as nat);
    strings::parsing_undoes_two_digits(seconds % 3600 / 60, 59);
    strings::parsing_undoes_two_digits(seconds % 60, 59);
    reveal_strlit(":");
    assert(":"@ =~= seq![':']);
    assert(!h.contains(':') && !m.contains(':') && !s.contains(':'));
    strings::split_without_separator(h, ':');
    strings::split_after_separator(h, ':', m);
    strings::split_after_separator(h + seq![':'] + m, ':', s);
    assert(strings::split(clock_text(seconds), ':') =~= seq![h, m, s]);
}

} // verus!
