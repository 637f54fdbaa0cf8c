//! The state of the page.

use vstd::prelude::*;

verus! {

/// What the page remembers between messages.
///
/// `R` is the host's recorder and `C` the callback registered on it. The page
/// holds at most one of each: the recorder that runs, and the callback that
/// was registered last, which it keeps after a stop because the recorder may
/// still deliver its last data.
#[derive(Debug, PartialEq, Eq)]
pub struct Model<R, C> {
    /// The recorder that is running, if any.
    pub recorder: Option<R>,
    /// The callback that the recorder delivers its data through.
    pub on_data_callback: Option<C>,
    /// The bytes of the chunk that was read last.
    pub last_chunk: Vec<u8>,
}

/// The state of the page with the chunk as a sequence of bytes.
pub struct ModelView<R, C> {
    pub recorder: Option<R>,
    pub on_data_callback: Option<C>,
    pub last_chunk: Seq<u8>,
}

impl<R, C> View for Model<R, C> {
    type V = ModelView<R, C>;

    open spec fn view(&self) -> ModelView<R, C> {
        ModelView {
            recorder: self.recorder,
            on_data_callback: self.on_data_callback,
            last_chunk: self.last_chunk@,
        }
    }
}

impl<R, C> ModelView<R, C> {
    /// The state of a page that has not heard from the host yet.
    pub open spec fn initial() -> Self {
        ModelView { recorder: None, on_data_callback: None, last_chunk: Seq::empty() }
    }

    /// This state once `recorder` runs and delivers through `callback`.
    pub open spec fn started(self, recorder: R, callback: C) -> Self {
        ModelView { recorder: Some(recorder), on_data_callback: Some(callback), ..self }
    }

    /// The number of recorders that the page holds: one or none.
    pub open spec fn held(self) -> int {
        if self.recorder is Some {
            1
        } else {
            0
        }
    }
}

impl<R, C> Model<R, C> {
    /// A page with no recorder, no callback and an empty chunk.
    pub fn new() -> (model: Self)
        ensures
            model@ == ModelView::<R, C>::initial(),
    {
        Model { recorder: None, on_data_callback: None, last_chunk: Vec::new() }
    }

    /// Records that the host started `recorder` with `callback` registered
    /// on it, and hands back the recorder and the callback that were held
    /// before. The chunk stays.
    ///
    /// A recorder that comes back is still running, and the host has to stop
    /// it. None comes back where this answers `Command::StartRecorder`:
    /// `update` gave the held recorder up with that command.
    pub fn recorder_started(&mut self, recorder: R, callback: C) -> (displaced: (
        Option<R>,
        Option<C>,
    ))
        ensures
            final(self)@ == old(self)@.started(recorder, callback),
            displaced == (old(self)@.recorder, old(self)@.on_data_callback),
    {
        let displaced = (self.recorder.take(), self.on_data_callback.take());
        self.recorder = Some(recorder);
        self.on_data_callback = Some(callback);
        displaced
    }
}

impl<R, C> Default for Model<R, C> {
    fn default() -> (model: Self)
        ensures
            model@ == ModelView::<R, C>::initial(),
    {
        Model::new()
    }
}

} // verus!
