use ravioni::metadata::{
    duration_to_string, AudioStream, FloatBits, StreamError, StreamInfo, StreamKind, SubtitleStream,
};
use ravioni::settings::{AudioChannelLayout, RunSettings};
use ravioni::time::Duration;

#[test]
fn format_duration_returns_hh_mm_ss_format() {
    //                                          4 hours,   12 min,   30 s
    let duration = Duration::new(4 * 3600 + 12 * 60 + 30, 0);
    assert_eq!("04:12:30", duration_to_string(&duration).as_str());
}

fn audio(channels: &str) -> StreamInfo {
    StreamInfo {
        index: 3,
        format: "dts".to_string(),
        kind: StreamKind::Audio { channels: channels.to_string() },
    }
}

#[test]
fn long_durations_have_more_than_two_digits_of_hours() {
    assert_eq!("100:00:00", duration_to_string(&Duration::new(360000, 999_999_999)));
    assert_eq!("00:00:00", duration_to_string(&Duration::zero()));
}

#[test]
fn durations_are_shown_as_times_that_encoding_can_start_at() {
    let duration = Duration::from_secs(4 * 3600 + 59 * 60 + 59);
    assert!(RunSettings::is_valid_time_format(&duration_to_string(&duration)));
}

#[test]
fn channel_layouts_are_recognized() {
    let layouts = vec![
        ("mono", AudioChannelLayout::Mono),
        ("stereo", AudioChannelLayout::Stereo20),
        ("5.1", AudioChannelLayout::Surround51),
        ("5.1(side)", AudioChannelLayout::Surround51Side),
        ("7.1", AudioChannelLayout::Surround71),
    ];
    for (name, layout) in layouts {
        let stream = AudioStream::try_from(&audio(name)).unwrap();
        assert_eq!(3, stream.index);
        assert_eq!("dts", stream.codec);
        assert_eq!(layout, stream.channel_layout);
    }
}

#[test]
fn unknown_channel_layouts_are_refused() {
    let error = AudioStream::try_from(&audio("quad")).unwrap_err();
    assert_eq!(StreamError::UnsupportedLayout("quad".to_string()), error);
    assert_eq!("Unsupported channel layout detected: quad", error.message());
}

#[test]
fn video_is_no_audio_stream() {
    let stream = StreamInfo {
        index: 0,
        format: "h264".to_string(),
        kind: StreamKind::Video { fps: FloatBits { bits: 0 }, width: 1, height: 1 },
    };
    let error = AudioStream::try_from(&stream).unwrap_err();
    assert_eq!(StreamError::NotAudio, error);
    assert_eq!("Stream does not contain audio data", error.message());
}

#[test]
fn subtitle_streams_keep_index_and_format() {
    let stream = StreamInfo { index: 4, format: "srt".to_string(), kind: StreamKind::Subtitle };
    let subtitles = SubtitleStream::from(&stream);
    assert_eq!(4, subtitles.index);
    assert_eq!("srt", subtitles.format);
}
