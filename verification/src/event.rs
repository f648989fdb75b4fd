//! The sequencer event: a fixed-size header, a tagged payload, and an
//! optional variable-length buffer that is either owned or borrowed
//! from the component that produced the event.

use vstd::prelude::*;

use crate::addr::Addr;
use crate::payload::{payload_fits, EventData, Payload};
use crate::tag::{has_ext, length_kind, shape_of, EventType, LengthKind};
use crate::SeqError;

verus! {

/// Destination client number that addresses all subscribers.
pub const ADDRESS_SUBSCRIBERS: i32 = 254;
/// Port number left unknown when addressing subscribers.
pub const ADDRESS_UNKNOWN: i32 = 253;
/// Queue id that bypasses queues and delivers directly.
pub const QUEUE_DIRECT: u8 = 253;

/// An event's timestamp: a queue tick count or a real-time instant.
/// The two representations are mutually exclusive.
#[derive(Copy, Clone, Debug, PartialEq, Eq, Structural)]
pub enum Timestamp {
    Tick(u32),
    Real(crate::payload::TimeSpec),
}

/// The variable-length buffer of an event. `owned` records whether the
/// bytes are the event's own copy or a copy-on-read of storage owned by
/// the component that produced the event (the input channel's receive
/// buffer or the codec's scratch buffer); a borrowed buffer is only
/// valid while the lender is left alone. `recorded_len` mirrors the
/// length field of the record header, which boundary-crossing
/// operations resynchronize to the buffer's current length.
#[derive(Clone, Debug)]
pub struct ExtBuf {
    pub data: Vec<u8>,
    pub owned: bool,
    pub recorded_len: u32,
}

/// A sequencer event: header, payload union, optional external buffer.
#[derive(Clone, Debug)]
pub struct Event {
    pub etype: EventType,
    pub source: Addr,
    pub dest: Addr,
    pub queue: u8,
    pub tag: u8,
    pub priority: bool,
    pub relative: bool,
    pub timestamp: Timestamp,
    pub payload: Payload,
    pub ext: Option<ExtBuf>,
}

impl Event {
    /// Well-formedness: the stored payload is the tag's valid
    /// interpretation, and the external buffer is present exactly for
    /// variable-length tags, with a length the record header can hold.
    pub open spec fn wf(self) -> bool {
        &&& payload_fits(shape_of(self.etype), self.payload)
        &&& (self.ext is Some) <==> has_ext(self.etype)
        &&& (self.ext matches Some(b) ==> b.data@.len() <= u32::MAX)
    }

    /// The bytes of the external buffer, if one is present.
    pub open spec fn ext_bytes(self) -> Option<Seq<u8>> {
        match self.ext {
            Option::Some(b) => Option::Some(b.data@),
            Option::None => Option::None,
        }
    }

    /// An event equal to this one except that any external buffer has
    /// become the event's own copy.
    pub open spec fn owned_form(self) -> Event {
        match self.ext {
            Option::Some(b) => (Event { ext: Option::Some(ExtBuf { owned: true, ..b }), ..self }),
            Option::None => self,
        }
    }

    /// An event equal to this one except that the recorded buffer
    /// length has been resynchronized to the buffer's actual length.
    pub open spec fn synced_form(self) -> Event {
        match self.ext {
            Option::Some(b) => (Event {
                ext: Option::Some(ExtBuf { recorded_len: b.data@.len() as u32, ..b }),
                ..self
            }),
            Option::None => self,
        }
    }

    /// A zeroed event of the given tag, before any payload is written.
    pub open spec fn blank(t: EventType) -> Event {
        Event {
            etype: t,
            source: Addr { client: 0, port: 0 },
            dest: Addr { client: 0, port: 0 },
            queue: 0,
            tag: 0,
            priority: false,
            relative: false,
            timestamp: Timestamp::Tick(0),
            payload: Payload::Empty,
            ext: Option::None,
        }
    }

    /// The wire flag bits recording the tag's length classification.
    pub fn get_length_flag(t: EventType) -> (r: u8)
        ensures
            r == (match length_kind(t) {
                LengthKind::Fixed => 0u8,
                LengthKind::Variable => 4u8,
                LengthKind::VarUser => 8u8,
            }),
    {
        match t {
            EventType::Sysex => 4,
            EventType::Bounce => 4,
            EventType::UsrVar0 => 8,
            EventType::UsrVar1 => 8,
            EventType::UsrVar2 => 8,
            EventType::UsrVar3 => 8,
            EventType::UsrVar4 => 8,
            _ => 0,
        }
    }

    /// Whether events of this tag carry variable-length external data.
    pub fn has_ext_data(t: EventType) -> (r: bool)
        ensures
            r == has_ext(t),
    {
        Event::get_length_flag(t) != 0
    }

    /// Creates a new event with a fixed-length payload. Tags whose
    /// shape carries variable-length data need `new_ext` instead, and
    /// the payload shape must be the one the tag accepts.
    pub fn new<D: EventData>(t: EventType, data: &D) -> (r: Event)
        requires
            D::accepts(t),
        ensures
            r.wf(),
            r == (Event { payload: D::as_payload(*data), ..Event::blank(t) }),
    {
        proof {
            D::lemma_accepts(t, *data);
            crate::tag::lemma_shape_length_agree(t);
        }
        let mut z = Event {
            etype: t,
            source: Addr { client: 0, port: 0 },
            dest: Addr { client: 0, port: 0 },
            queue: 0,
            tag: 0,
            priority: false,
            relative: false,
            timestamp: Timestamp::Tick(0),
            payload: Payload::Empty,
            ext: Option::None,
        };
        data.set_data(&mut z);
        z
    }

    /// Creates a new event carrying variable-length data, as an owned
    /// buffer. Required for tags classified variable or var-user.
    pub fn new_ext(t: EventType, data: Vec<u8>) -> (r: Event)
        requires
            has_ext(t),
            data@.len() <= u32::MAX,
        ensures
            r.wf(),
            r == (Event {
                ext: Option::Some(ExtBuf {
                    data: data,
                    owned: true,
                    recorded_len: data@.len() as u32,
                }),
                ..Event::blank(t)
            }),
    {
        proof {
            crate::tag::lemma_shape_length_agree(t);
        }
        let len: u32 = data.len() as u32;
        Event {
            etype: t,
            source: Addr { client: 0, port: 0 },
            dest: Addr { client: 0, port: 0 },
            queue: 0,
            tag: 0,
            priority: false,
            relative: false,
            timestamp: Timestamp::Tick(0),
            payload: Payload::Empty,
            ext: Option::Some(ExtBuf { data, owned: true, recorded_len: len }),
        }
    }

    /// Consumes this event and returns an otherwise unchanged event
    /// whose external buffer, if any, is the event's own copy, with no
    /// outstanding obligation towards a lender. Total; a no-op on
    /// fixed-shape events and on events that already own their buffer.
    pub fn into_owned(self) -> (r: Event)
        ensures
            r == self.owned_form(),
            r.ext_bytes() == self.ext_bytes(),
    {
        match self.ext {
            Option::None => self,
            Option::Some(b) => Event {
                ext: Option::Some(ExtBuf { data: b.data, owned: true, recorded_len: b.recorded_len }),
                ..self
            },
        }
    }

    /// Assembles an event read out of a transient record: the tag, the
    /// typed payload, and the external bytes if the record carried any.
    /// Fails with `ShapeMismatch` unless the payload is the valid
    /// interpretation for the tag and external bytes are supplied
    /// exactly for variable-length tags.
    pub fn from_parts(t: EventType, payload: Payload, ext: Option<Vec<u8>>) -> (r: Result<
        Event,
        SeqError,
    >)
        ensures
            match r {
                Ok(ev) => {
                    &&& ev.wf()
                    &&& payload_fits(shape_of(t), payload)
                    &&& ev == (Event {
                        payload: payload,
                        ext: match ext {
                            Option::Some(d) => Option::Some(ExtBuf {
                                data: d,
                                owned: false,
                                recorded_len: d@.len() as u32,
                            }),
                            Option::None => Option::None,
                        },
                        ..Event::blank(t)
                    })
                },
                Err(e) => {
                    &&& e == SeqError::ShapeMismatch
                    &&& !(payload_fits(shape_of(t), payload) && ((ext is Some) <==> has_ext(t))
                        && (ext matches Some(d) ==> d@.len() <= u32::MAX))
                },
            },
    {
        let s = crate::tag::shape_of_tag(t);
        if !crate::payload::payload_fits_check(s, &payload) {
            return Err(SeqError::ShapeMismatch);
        }
        let kind_ext = Event::has_ext_data(t);
        match ext {
            Option::Some(d) => {
                if !kind_ext || d.len() > (u32::MAX as usize) {
                    Err(SeqError::ShapeMismatch)
                } else {
                    let len: u32 = d.len() as u32;
                    Ok(
                        Event {
                            etype: t,
                            source: Addr { client: 0, port: 0 },
                            dest: Addr { client: 0, port: 0 },
                            queue: 0,
                            tag: 0,
                            priority: false,
                            relative: false,
                            timestamp: Timestamp::Tick(0),
                            payload,
                            ext: Option::Some(ExtBuf { data: d, owned: false, recorded_len: len }),
                        },
                    )
                }
            },
            Option::None => {
                if kind_ext {
                    Err(SeqError::ShapeMismatch)
                } else {
                    Ok(
                        Event {
                            etype: t,
                            source: Addr { client: 0, port: 0 },
                            dest: Addr { client: 0, port: 0 },
                            queue: 0,
                            tag: 0,
                            priority: false,
                            relative: false,
                            timestamp: Timestamp::Tick(0),
                            payload,
                            ext: Option::None,
                        },
                    )
                }
            },
        }
    }

    /// Resynchronizes the recorded buffer length against the buffer's
    /// current length, for events with variable-length content. Every
    /// boundary-crossing operation performs this step first; it is
    /// idempotent (see `lemma_synced_form_idempotent`).
    pub fn ensure_buf(&mut self)
        requires
            old(self).wf(),
        ensures
            *final(self) == old(self).synced_form(),
            final(self).wf(),
    {
        let ghost pre = *self;
        match &mut self.ext {
            Option::Some(b) => {
                let len: u32 = b.data.len() as u32;
                b.recorded_len = len;
            },
            Option::None => {},
        }
        proof {
            assert(*self == pre.synced_form());
        }
    }

    /// The event's tag.
    #[inline]
    pub fn get_type(&self) -> (r: EventType)
        ensures
            r == self.etype,
    {
        self.etype
    }

    /// Extracts the payload as shape `D`, if and only if this event's
    /// tag accepts that shape. Exactly one shape yields a value for any
    /// given event. Use `get_ext` for variable-length data.
    pub fn get_data<D: EventData>(&self) -> (r: Option<D>)
        requires
            self.wf(),
        ensures
            match r {
                Option::Some(d) => D::accepts(self.etype) && D::as_payload(d) == self.payload,
                Option::None => !D::accepts(self.etype),
            },
    {
        if D::has_data(self.etype) {
            Option::Some(D::get_data(self))
        } else {
            Option::None
        }
    }

    /// The variable-length data carried by events of variable-length
    /// tags; nothing for fixed-shape events.
    pub fn get_ext(&self) -> (r: Option<&Vec<u8>>)
        requires
            self.wf(),
        ensures
            match r {
                Option::Some(v) => has_ext(self.etype) && Option::Some(v@) == self.ext_bytes(),
                Option::None => !has_ext(self.etype),
            },
    {
        match &self.ext {
            Option::Some(b) => Option::Some(&b.data),
            Option::None => Option::None,
        }
    }

    /// Addresses the event to all subscribers of the source port.
    pub fn set_subs(&mut self)
        ensures
            *final(self) == (Event {
                dest: Addr { client: ADDRESS_SUBSCRIBERS, port: ADDRESS_UNKNOWN },
                ..*old(self)
            }),
    {
        self.dest = Addr { client: ADDRESS_SUBSCRIBERS, port: ADDRESS_UNKNOWN };
    }

    /// Sets the source port, keeping the source client.
    pub fn set_source(&mut self, p: i32)
        ensures
            *final(self) == (Event {
                source: Addr { client: old(self).source.client, port: p },
                ..*old(self)
            }),
    {
        self.source.port = p;
    }

    /// Sets the destination address.
    pub fn set_dest(&mut self, d: Addr)
        ensures
            *final(self) == (Event { dest: d, ..*old(self) }),
    {
        self.dest = d;
    }

    /// Sets the user tag byte.
    pub fn set_tag(&mut self, t: u8)
        ensures
            *final(self) == (Event { tag: t, ..*old(self) }),
    {
        self.tag = t;
    }

    /// Sets the queue id; only the low byte is representable.
    pub fn set_queue(&mut self, q: i32)
        ensures
            *final(self) == (Event { queue: q as u8, ..*old(self) }),
    {
        self.queue = #[verifier::truncate] (q as u8);
    }

    /// The source address.
    pub fn get_source(&self) -> (r: Addr)
        ensures
            r == self.source,
    {
        self.source
    }

    /// The destination address.
    pub fn get_dest(&self) -> (r: Addr)
        ensures
            r == self.dest,
    {
        self.dest
    }

    /// The user tag byte.
    pub fn get_tag(&self) -> (r: u8)
        ensures
            r == self.tag,
    {
        self.tag
    }

    /// The queue id.
    pub fn get_queue(&self) -> (r: i32)
        ensures
            r == self.queue as i32,
    {
        self.queue as i32
    }

    /// Schedules the event on a queue at a real-time instant, relative
    /// or absolute. Selecting the real-time representation clears the
    /// tick representation.
    pub fn schedule_real(&mut self, queue: i32, relative: bool, rtime: crate::payload::TimeSpec)
        ensures
            *final(self) == (Event {
                queue: queue as u8,
                relative: relative,
                timestamp: Timestamp::Real(rtime),
                ..*old(self)
            }),
    {
        self.relative = relative;
        self.queue = #[verifier::truncate] (queue as u8);
        self.timestamp = Timestamp::Real(rtime);
    }

    /// Schedules the event on a queue at a tick time, relative or
    /// absolute. Selecting the tick representation clears the
    /// real-time representation.
    pub fn schedule_tick(&mut self, queue: i32, relative: bool, ttime: u32)
        ensures
            *final(self) == (Event {
                queue: queue as u8,
                relative: relative,
                timestamp: Timestamp::Tick(ttime),
                ..*old(self)
            }),
    {
        self.relative = relative;
        self.queue = #[verifier::truncate] (queue as u8);
        self.timestamp = Timestamp::Tick(ttime);
    }

    /// Bypasses queues: the event is delivered directly.
    pub fn set_direct(&mut self)
        ensures
            *final(self) == (Event { queue: QUEUE_DIRECT, ..*old(self) }),
    {
        self.queue = QUEUE_DIRECT;
    }

    /// Whether the timestamp is relative to the current time.
    pub fn get_relative(&self) -> (r: bool)
        ensures
            r == self.relative,
    {
        self.relative
    }

    /// The real-time timestamp, if the event uses that representation.
    pub fn get_time(&self) -> (r: Option<crate::payload::TimeSpec>)
        ensures
            r == (match self.timestamp {
                Timestamp::Real(t) => Option::Some(t),
                Timestamp::Tick(_) => Option::<crate::payload::TimeSpec>::None,
            }),
    {
        match self.timestamp {
            Timestamp::Real(t) => Option::Some(t),
            Timestamp::Tick(_) => Option::None,
        }
    }

    /// The tick timestamp, if the event uses that representation.
    pub fn get_tick(&self) -> (r: Option<u32>)
        ensures
            r == (match self.timestamp {
                Timestamp::Tick(t) => Option::Some(t),
                Timestamp::Real(_) => Option::<u32>::None,
            }),
    {
        match self.timestamp {
            Timestamp::Tick(t) => Option::Some(t),
            Timestamp::Real(_) => Option::None,
        }
    }

    /// Whether the event is high priority.
    pub fn get_priority(&self) -> (r: bool)
        ensures
            r == self.priority,
    {
        self.priority
    }

    /// Marks the event high or normal priority.
    pub fn set_priority(&mut self, is_high_prio: bool)
        ensures
            *final(self) == (Event { priority: is_high_prio, ..*old(self) }),
    {
        self.priority = is_high_prio;
    }
}

/// Taking ownership of an event's buffer twice yields the very event
/// that taking it once yields: the payload content is byte-identical.
pub proof fn lemma_into_owned_idempotent(e: Event)
    ensures
        e.owned_form().owned_form() == e.owned_form(),
        e.owned_form().ext_bytes() == e.ext_bytes(),
{
}

/// Resynchronizing the recorded buffer length twice yields the very
/// event that resynchronizing once yields.
pub proof fn lemma_synced_form_idempotent(e: Event)
    ensures
        e.synced_form().synced_form() == e.synced_form(),
{
}

} // verus!
