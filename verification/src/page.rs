//! What the page shows.

use crate::message::{Msg, MsgView};
use crate::model::{Model, ModelView};
use crate::update::step;
use vstd::prelude::*;

verus! {

/// The content of the page, for the host to render: a caption followed by
/// the size of the last chunk, and one button.
#[derive(Clone, Copy, Debug, PartialEq, Eq)]
pub struct Page {
    /// The text in front of the number.
    pub caption: &'static str,
    /// The number of bytes in the chunk that was read last.
    pub chunk_len: usize,
    /// The text on the button.
    pub stop_label: &'static str,
}

/// The content of the page with its texts as sequences of characters.
pub struct PageView {
    pub caption: Seq<char>,
    pub chunk_len: nat,
    pub stop_label: Seq<char>,
}

impl View for Page {
    type V = PageView;

    open spec fn view(&self) -> PageView {
        PageView {
            caption: self.caption@,
            chunk_len: self.chunk_len as nat,
            stop_label: self.stop_label@,
        }
    }
}

/// The page for a state: the size of its chunk behind the caption, and a
/// button to stop.
pub open spec fn layout<R, C>(model: ModelView<R, C>) -> PageView {
    PageView {
        caption: "Last chunk length: "@,
        chunk_len: model.last_chunk.len(),
        stop_label: "Stop"@,
    }
}

/// Lays out the page for `model`.
pub fn view<R, C>(model: &Model<R, C>) -> (page: Page)
    ensures
        page@ == layout(model@),
{
    Page { caption: "Last chunk length: ", chunk_len: model.last_chunk.len(), stop_label: "Stop" }
}

impl Page {
    /// The message that a click on the button delivers.
    pub fn on_stop<S, B>(&self) -> (msg: Msg<S, B>)
        ensures
            msg@ == MsgView::<S, B>::StopRecording,
    {
        Msg::StopRecording
    }
}

/// Once bytes were read, the page shows how many they are.
pub proof fn page_shows_size_of_chunk_read<S, B, R, C>(model: ModelView<R, C>, bytes: Seq<u8>)
    ensures
        layout(step::<S, B, R, C>(model, MsgView::BlobRead(bytes)).0).chunk_len == bytes.len(),
{
}

/// No message but bytes that were read changes what the page shows.
pub proof fn page_changes_only_when_bytes_are_read<S, B, R, C>(
    model: ModelView<R, C>,
    msg: MsgView<S, B>,
)
    requires
        !(msg is BlobRead),
    ensures
        layout(step(model, msg).0) == layout(model),
{
}

} // verus!
