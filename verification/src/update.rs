//! How the page reacts to a message.

use crate::message::{Command, CommandView, Msg, MsgView};
use crate::model::{Model, ModelView};
use crate::settings::{
    audio_only, ogg_opus, recorder_options, stream_constraints, TIME_SLICE_MS,
};
use vstd::prelude::*;

verus! {

/// The state after `msg` and the command that goes to the host.
///
/// A stream starts a recorder, and gives up the one that is held, if any,
/// to be stopped first; a blob is sent to be read; bytes that were read
/// replace the last chunk; a stop request gives up the recorder, if there
/// is one, to be stopped.
pub open spec fn step<S, B, R, C>(model: ModelView<R, C>, msg: MsgView<S, B>) -> (
    ModelView<R, C>,
    CommandView<S, B, R>,
) {
    match msg {
        MsgView::AudioStream(stream) => (
            ModelView { recorder: None, ..model },
            CommandView::StartRecorder {
                stop_first: model.recorder,
                stream,
                options: ogg_opus(),
                time_slice_ms: TIME_SLICE_MS,
            },
        ),
        MsgView::BlobReceived(blob) => (model, CommandView::ReadBlob(blob)),
        MsgView::BlobRead(bytes) => (ModelView { last_chunk: bytes, ..model }, CommandView::Idle),
        MsgView::StopRecording => (
            ModelView { recorder: None, ..model },
            match model.recorder {
                Some(recorder) => CommandView::StopRecorder(recorder),
                None => CommandView::Idle,
            },
        ),
    }
}

/// Starts the page: an empty model, and the request for the microphone.
pub fn init<S, B, R, C>() -> (start: (Model<R, C>, Command<S, B, R>))
    ensures
        start.0@ == ModelView::<R, C>::initial(),
        start.1@ == CommandView::<S, B, R>::AcquireStream(audio_only()),
{
    (Model::new(), Command::AcquireStream(stream_constraints()))
}

/// Applies `msg` to `model` and returns what the host has to do next.
pub fn update<S, B, R, C>(msg: Msg<S, B>, model: &mut Model<R, C>) -> (command: Command<S, B, R>)
    ensures
        (final(model)@, command@) == step(old(model)@, msg@),
{
    match msg {
        Msg::AudioStream(stream) => Command::StartRecorder {
            stop_first: model.recorder.take(),
            stream,
            options: recorder_options(),
            time_slice_ms: TIME_SLICE_MS,
        },
        Msg::BlobReceived(blob) => Command::ReadBlob(blob),
        Msg::BlobRead(bytes) => {
            model.last_chunk = bytes;
            Command::Idle
        },
        Msg::StopRecording => match model.recorder.take() {
            Some(recorder) => Command::StopRecorder(recorder),
            None => Command::Idle,
        },
    }
}

/// The state once the host has carried out `command`: where the command
/// was to start a recorder, the page holds `recorder` and `callback`.
pub open spec fn settled<S, B, R, C>(
    model: ModelView<R, C>,
    command: CommandView<S, B, R>,
    recorder: R,
    callback: C,
) -> ModelView<R, C> {
    if command is StartRecorder {
        model.started(recorder, callback)
    } else {
        model
    }
}

/// The number of recorders that run once the host has carried out `command`,
/// where `running` ran before: one less for a recorder that the command has
/// stopped, one more for a recorder that it has started.
pub open spec fn running_after<S, B, R>(running: int, command: CommandView<S, B, R>) -> int {
    running - (if command.to_stop() is Some { 1int } else { 0int }) + (if command is StartRecorder {
        1int
    } else {
        0int
    })
}

/// At most one recorder runs, and it is the one that the page holds: where
/// the page holds every recorder that runs before a message, it does so once
/// the host has carried out the command.
pub proof fn at_most_one_recorder_runs<S, B, R, C>(
    model: ModelView<R, C>,
    msg: MsgView<S, B>,
    recorder: R,
    callback: C,
    running: int,
)
    requires
        running == model.held(),
    ensures
        ({
            let (after, command) = step(model, msg);
            &&& running_after(running, command) == settled(
                after,
                command,
                recorder,
                callback,
            ).held()
            &&& 0 <= running_after(running, command) <= 1
        }),
{
}

/// A recorder leaves the page only to be stopped: after a message the page
/// holds the recorder it held and nothing is to be stopped, or it holds none
/// and the one it held is to be stopped.
pub proof fn recorder_leaves_only_to_be_stopped<S, B, R, C>(
    model: ModelView<R, C>,
    msg: MsgView<S, B>,
)
    ensures
        ({
            let (after, command) = step(model, msg);
            ||| after.recorder == model.recorder && command.to_stop() is None
            ||| after.recorder is None && command.to_stop() == model.recorder
        }),
{
}

/// A recorder is started only while the page holds none, so the new one
/// displaces no recorder.
pub proof fn start_displaces_no_recorder<S, B, R, C>(model: ModelView<R, C>, msg: MsgView<S, B>)
    requires
        step(model, msg).1 is StartRecorder,
    ensures
        step(model, msg).0.recorder is None,
{
}

/// A stream that arrives while a recorder runs has that recorder stopped
/// before the new one is started.
pub proof fn stream_stops_running_recorder<S, B, R, C>(
    model: ModelView<R, C>,
    stream: S,
    running: R,
)
    requires
        model.recorder == Some(running),
    ensures
        step::<S, B, R, C>(model, MsgView::AudioStream(stream)) == (
            ModelView::<R, C> { recorder: None, ..model },
            CommandView::<S, B, R>::StartRecorder {
                stop_first: Some(running),
                stream,
                options: ogg_opus(),
                time_slice_ms: TIME_SLICE_MS,
            },
        ),
{
}

/// Stopping right after a recorder was started gives up that recorder to be
/// stopped and leaves the page without one; callback and chunk stay.
pub proof fn stop_releases_started_recorder<S, B, R, C>(
    model: ModelView<R, C>,
    recorder: R,
    callback: C,
)
    ensures
        step::<S, B, R, C>(model.started(recorder, callback), MsgView::StopRecording) == (
            ModelView::<R, C> {
                recorder: None,
                on_data_callback: Some(callback),
                last_chunk: model.last_chunk,
            },
            CommandView::<S, B, R>::StopRecorder(recorder),
        ),
{
}

/// A second stop request finds nothing to stop and changes nothing.
pub proof fn stop_twice_is_idle<S, B, R, C>(model: ModelView<R, C>)
    ensures
        ({
            let stopped = step::<S, B, R, C>(model, MsgView::StopRecording).0;
            step::<S, B, R, C>(stopped, MsgView::StopRecording) == (
                stopped,
                CommandView::<S, B, R>::Idle,
            )
        }),
{
}

/// No message touches the callback, and data that arrives leaves the
/// recorder in place: the recorder can deliver for as long as the page holds
/// it.
pub proof fn handles_kept_while_data_arrives<S, B, R, C>(
    model: ModelView<R, C>,
    msg: MsgView<S, B>,
)
    ensures
        step(model, msg).0.on_data_callback == model.on_data_callback,
        msg is BlobReceived || msg is BlobRead ==> step(model, msg).0.recorder == model.recorder,
{
}

/// Of two chunks read one after the other, the page keeps the second alone.
pub proof fn later_chunk_replaces_earlier<S, B, R, C>(
    model: ModelView<R, C>,
    earlier: Seq<u8>,
    later: Seq<u8>,
)
    ensures
        step::<S, B, R, C>(
            step::<S, B, R, C>(model, MsgView::BlobRead(earlier)).0,
            MsgView::BlobRead(later),
        ) == step::<S, B, R, C>(model, MsgView::BlobRead(later)),
{
}

} // verus!
