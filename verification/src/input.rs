//! The single-reader input channel and its pollable event stream.
//!
//! The channel is a gate over the sequencer's receive buffer: at most
//! one reader may be checked out at a time, because an extracted event
//! may alias that buffer, and a second reader could overwrite the
//! aliased region. The channel also keeps the buffered-and-ready events
//! that the transport has delivered, and offers the stream's lazy poll
//! step: report not-ready when nothing is pending, otherwise extract
//! exactly one event.

use vstd::prelude::*;

use crate::event::Event;
use crate::SeqError;

verus! {

/// The outcome of a checkout attempt from a channel whose reader flag
/// is `reading`: the result handed back, and the flag afterwards.
pub open spec fn checkout_outcome(reading: bool) -> (Result<(), SeqError>, bool) {
    if reading {
        (Err(SeqError::NoConcurrentReader), true)
    } else {
        (Ok(()), true)
    }
}

/// The reader flag after a release: idle, unconditionally.
pub open spec fn release_outcome(reading: bool) -> bool {
    false
}

/// The single-reader gate over the receive buffer, with the events the
/// transport has delivered and the reader has not yet extracted.
pub struct InputChannel {
    /// Whether a reader is checked out (the Reading state).
    pub reading: bool,
    /// Whether the underlying transport has been closed; a closed
    /// channel is not restartable.
    pub closed: bool,
    /// Buffered-and-ready events, oldest first.
    pub buffered: Vec<Event>,
}

impl InputChannel {
    /// A fresh channel: idle, open, nothing pending.
    pub fn new() -> (c: InputChannel)
        ensures
            !c.reading,
            !c.closed,
            c.buffered@ =~= Seq::<Event>::empty(),
    {
        InputChannel { reading: false, closed: false, buffered: Vec::new() }
    }

    /// Checks the one permitted reader out of the channel. Fails with
    /// `NoConcurrentReader`, leaving the channel unchanged, if and only
    /// if a reader is already checked out.
    pub fn checkout(&mut self) -> (r: Result<(), SeqError>)
        ensures
            (r, final(self).reading) == checkout_outcome(old(self).reading),
            final(self).closed == old(self).closed,
            final(self).buffered@ == old(self).buffered@,
    {
        if self.reading {
            Err(SeqError::NoConcurrentReader)
        } else {
            self.reading = true;
            Ok(())
        }
    }

    /// Releases the reader: the channel returns to idle unconditionally.
    pub fn release(&mut self)
        ensures
            final(self).reading == release_outcome(old(self).reading),
            final(self).closed == old(self).closed,
            final(self).buffered@ == old(self).buffered@,
    {
        self.reading = false;
    }

    /// Hands the channel one event received from the transport. It
    /// joins the pending events in arrival order.
    pub fn supply(&mut self, ev: Event)
        ensures
            final(self).buffered@ == old(self).buffered@.push(ev),
            final(self).reading == old(self).reading,
            final(self).closed == old(self).closed,
    {
        self.buffered.push(ev);
    }

    /// Marks the underlying transport closed. Polls after closure
    /// report failure; the channel is not restartable.
    pub fn close(&mut self)
        ensures
            *final(self) == (InputChannel { closed: true, ..*old(self) }),
    {
        self.closed = true;
    }

    /// The number of buffered-and-ready events. Never blocks: this is
    /// the cached count; refreshing it from the transport is the
    /// caller's affair.
    pub fn pending_count(&self) -> (n: usize)
        ensures
            n == self.buffered@.len(),
    {
        self.buffered.len()
    }

    /// One lazy poll of the event stream, for the checked-out reader.
    /// When the channel is closed, reports failure. When nothing is
    /// pending, reports not-ready (`Ok(None)`) without touching the
    /// receive buffer, rather than blocking. Otherwise extracts exactly
    /// one event, the oldest, so the pending count drops by one.
    pub fn poll_next(&mut self) -> (r: Result<Option<Event>, SeqError>)
        requires
            old(self).reading,
        ensures
            old(self).closed ==> {
                &&& r == Err::<Option<Event>, SeqError>(SeqError::Closed)
                &&& *final(self) == *old(self)
            },
            !old(self).closed && old(self).buffered@.len() == 0 ==> {
                &&& r == Ok::<Option<Event>, SeqError>(Option::None)
                &&& *final(self) == *old(self)
            },
            !old(self).closed && old(self).buffered@.len() > 0 ==> {
                &&& r matches Ok(Option::Some(ev)) && ev == old(self).buffered@[0]
                &&& final(self).buffered@ == old(self).buffered@.skip(1)
                &&& final(self).reading == old(self).reading
                &&& final(self).closed == old(self).closed
            },
    {
        if self.closed {
            Err(SeqError::Closed)
        } else if self.buffered.len() == 0 {
            Ok(Option::None)
        } else {
            let ev = self.buffered.remove(0);
            proof {
                assert(self.buffered@ =~= old(self).buffered@.skip(1));
            }
            Ok(Option::Some(ev))
        }
    }
}

/// Checkout discipline: from the Reading state a second checkout fails
/// and the state stays Reading; releasing returns the channel to Idle,
/// from which a checkout succeeds again.
pub proof fn lemma_checkout_discipline()
    ensures
        checkout_outcome(true) == (Err::<(), SeqError>(SeqError::NoConcurrentReader), true),
        checkout_outcome(false) == (Ok::<(), SeqError>(()), true),
        checkout_outcome(release_outcome(true)) == (Ok::<(), SeqError>(()), true),
{
}

} // verus!
