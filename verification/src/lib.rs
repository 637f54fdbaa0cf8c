//! Headless logic of a microphone capture page.
//!
//! The page asks the host for an audio stream, records it in fixed time
//! slices and shows the size of the chunk that arrived last. This crate holds
//! the decisions only: the state of the page, the messages it reacts to, and
//! the commands it hands to the host, which owns every browser object. The
//! host's handles (stream, blob, recorder, callback) are type parameters that
//! the library stores and returns without looking inside.

pub mod message;
pub mod model;
pub mod page;
pub mod settings;
pub mod update;
