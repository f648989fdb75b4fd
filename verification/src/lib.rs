//! Typed MIDI sequencer event model with a verified byte-stream codec.
//!
//! The crate models sequencer events as a closed set of tags, each tied to
//! exactly one payload shape and one length classification, and provides:
//! a payload codec layer, an event type with scheduling and ownership
//! rules for variable-length buffers, a MIDI byte-stream coder that keeps
//! running-status state, and a single-reader input channel gate.

use vstd::prelude::*;

pub mod addr;
pub mod codec;
pub mod event;
pub mod input;
pub mod payload;
pub mod tag;

verus! {

/// Errors raised by the event model, the input channel and the codec.
///
/// A parse that merely needs more bytes is not an error: the codec's
/// `encode` reports it as a consumed count with no event, and the
/// caller goes on with a longer suffix of its input.
#[derive(Clone, Copy, Debug, PartialEq, Eq, Structural)]
pub enum SeqError {
    /// A payload or buffer was supplied for a tag of a different shape.
    ShapeMismatch,
    /// A reader was already checked out of the input channel.
    NoConcurrentReader,
    /// A data byte arrived with no status context to interpret it.
    Malformed,
    /// The codec's scratch buffer cannot hold the message being collected.
    BufferTooSmall,
    /// The event has no representation as a MIDI wire message.
    Unsupported,
    /// The underlying transport has been closed.
    Closed,
}

} // verus!
