//! The fixed choices of a capture session: what is asked of the media
//! devices, how the recorder encodes, and how often it hands out data.

use vstd::prelude::*;

verus! {

/// Bit rate asked of the audio encoder, in bits per second.
pub const AUDIO_BITS_PER_SECOND: u32 = 64_000;

/// Length of one recorded chunk, in milliseconds.
pub const TIME_SLICE_MS: i32 = 1000;

/// Which kinds of track a requested media stream must carry.
#[derive(Clone, Copy, Debug, PartialEq, Eq)]
pub struct StreamConstraints {
    pub audio: bool,
    pub video: bool,
}

/// How the recorder encodes what it captures.
#[derive(Clone, Copy, Debug, PartialEq, Eq)]
pub struct RecorderOptions {
    /// Bit rate of the audio encoder, in bits per second.
    pub audio_bits_per_second: u32,
    /// Container and codec, as a MIME type.
    pub mime_type: &'static str,
}

/// Recorder options with the MIME type as a sequence of characters.
pub struct RecorderOptionsView {
    pub audio_bits_per_second: u32,
    pub mime_type: Seq<char>,
}

impl View for RecorderOptions {
    type V = RecorderOptionsView;

    open spec fn view(&self) -> RecorderOptionsView {
        RecorderOptionsView {
            audio_bits_per_second: self.audio_bits_per_second,
            mime_type: self.mime_type@,
        }
    }
}

/// The constraints of a capture session: audio, and no video.
pub open spec fn audio_only() -> StreamConstraints {
    StreamConstraints { audio: true, video: false }
}

/// The options of a capture session: Opus in an Ogg container at
/// `AUDIO_BITS_PER_SECOND`.
pub open spec fn ogg_opus() -> RecorderOptionsView {
    RecorderOptionsView {
        audio_bits_per_second: AUDIO_BITS_PER_SECOND,
        mime_type: "audio/ogg;codecs=opus"@,
    }
}

/// The constraints to request the stream with: the microphone alone.
pub fn stream_constraints() -> (constraints: StreamConstraints)
    ensures
        constraints == audio_only(),
{
    StreamConstraints { audio: true, video: false }
}

/// The options to build the recorder with.
pub fn recorder_options() -> (options: RecorderOptions)
    ensures
        options@ == ogg_opus(),
{
    RecorderOptions { audio_bits_per_second: AUDIO_BITS_PER_SECOND, mime_type: "audio/ogg;codecs=opus" }
}

} // verus!
