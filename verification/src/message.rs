//! What the host tells the page, and what the page asks of the host.

use crate::settings::{RecorderOptions, RecorderOptionsView, StreamConstraints};
use vstd::prelude::*;

verus! {

/// An event delivered to the page.
///
/// `S` is the host's media stream and `B` its blob of recorded data; the page
/// passes both on without reading them.
#[derive(Debug, PartialEq, Eq)]
pub enum Msg<S, B> {
    /// The user granted access and the host obtained a stream.
    AudioStream(S),
    /// The recorder handed out a blob of encoded audio.
    BlobReceived(B),
    /// The bytes of a blob have been read.
    BlobRead(Vec<u8>),
    /// The user asked to stop recording.
    StopRecording,
}

/// A message with its bytes as a sequence.
pub enum MsgView<S, B> {
    AudioStream(S),
    BlobReceived(B),
    BlobRead(Seq<u8>),
    StopRecording,
}

impl<S, B> View for Msg<S, B> {
    type V = MsgView<S, B>;

    open spec fn view(&self) -> MsgView<S, B> {
        match *self {
            Msg::AudioStream(stream) => MsgView::AudioStream(stream),
            Msg::BlobReceived(blob) => MsgView::BlobReceived(blob),
            Msg::BlobRead(bytes) => MsgView::BlobRead(bytes@),
            Msg::StopRecording => MsgView::StopRecording,
        }
    }
}

/// Work that the page leaves to the host. `R` is the host's recorder.
#[derive(Debug, PartialEq, Eq)]
pub enum Command<S, B, R> {
    /// Nothing to do.
    Idle,
    /// Ask the media devices for a stream that meets the constraints, and
    /// deliver it as `Msg::AudioStream`.
    AcquireStream(StreamConstraints),
    /// Stop `stop_first`, if there is one, and let go of it. Only then build
    /// a recorder on the stream with the options, have it deliver each blob
    /// as `Msg::BlobReceived`, start it with the time slice, and hand
    /// recorder and callback to `Model::recorder_started`.
    StartRecorder { stop_first: Option<R>, stream: S, options: RecorderOptions, time_slice_ms: i32 },
    /// Read the blob and deliver its bytes as `Msg::BlobRead`.
    ReadBlob(B),
    /// Stop this recorder and let go of it.
    StopRecorder(R),
}

/// A command with its recorder options by their view.
pub enum CommandView<S, B, R> {
    Idle,
    AcquireStream(StreamConstraints),
    StartRecorder {
        stop_first: Option<R>,
        stream: S,
        options: RecorderOptionsView,
        time_slice_ms: i32,
    },
    ReadBlob(B),
    StopRecorder(R),
}

impl<S, B, R> View for Command<S, B, R> {
    type V = CommandView<S, B, R>;

    open spec fn view(&self) -> CommandView<S, B, R> {
        match *self {
            Command::Idle => CommandView::Idle,
            Command::AcquireStream(constraints) => CommandView::AcquireStream(constraints),
            Command::StartRecorder { stop_first, stream, options, time_slice_ms } => {
                CommandView::StartRecorder { stop_first, stream, options: options@, time_slice_ms }
            },
            Command::ReadBlob(blob) => CommandView::ReadBlob(blob),
            Command::StopRecorder(recorder) => CommandView::StopRecorder(recorder),
        }
    }
}

impl<S, B, R> CommandView<S, B, R> {
    /// The recorder that the command hands to the host to be stopped.
    pub open spec fn to_stop(self) -> Option<R> {
        match self {
            CommandView::StartRecorder { stop_first, .. } => stop_first,
            CommandView::StopRecorder(recorder) => Some(recorder),
            _ => None,
        }
    }
}

} // verus!
