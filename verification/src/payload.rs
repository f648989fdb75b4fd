//! Typed payloads and the codec between them and an event's data union.
//!
//! Each payload shape implements [`EventData`]: a total acceptance
//! predicate over tags, and the read/write pair against the event's
//! payload union. Reading a payload out of an event whose tag does not
//! accept the shape is undefined at this layer, so both directions
//! require acceptance; the event model checks it for its public accessor.

use vstd::prelude::*;

use crate::addr::Addr;
use crate::event::Event;
use crate::tag::{shape_of, EventType, Shape};

verus! {

/// A real-time value as the event record stores it: whole seconds and
/// nanoseconds, each an unsigned 32-bit field.
#[derive(Copy, Clone, Debug, PartialEq, Eq, Ord, PartialOrd, Hash, Default, Structural)]
pub struct TimeSpec {
    pub secs: u32,
    pub nanos: u32,
}

/// A note message payload.
#[derive(Copy, Clone, Debug, PartialEq, Eq, Ord, PartialOrd, Hash, Default, Structural)]
pub struct EvNote {
    pub channel: u8,
    pub note: u8,
    pub velocity: u8,
    pub off_velocity: u8,
    pub duration: u32,
}

/// A controller message payload.
#[derive(Copy, Clone, Debug, PartialEq, Eq, Ord, PartialOrd, Hash, Default, Structural)]
pub struct EvCtrl {
    pub channel: u8,
    pub param: u32,
    pub value: i32,
}

/// A (sender, destination) connection pair payload.
#[derive(Copy, Clone, Debug, PartialEq, Eq, Ord, PartialOrd, Hash, Default, Structural)]
pub struct Connect {
    pub sender: Addr,
    pub dest: Addr,
}

/// A queue-control payload, generic over the auxiliary value that the
/// control sub-tag carries: nothing, a signed or unsigned 32-bit value,
/// or a real-time position. Only these four instantiations implement
/// [`EventData`], so the set of auxiliary types is closed.
#[derive(Copy, Clone, Debug, PartialEq, Eq, Ord, PartialOrd, Hash, Default, Structural)]
pub struct EvQueueControl<T> {
    pub queue: i32,
    pub value: T,
}

/// A result payload: the event the result refers to, and a result code.
#[derive(Copy, Clone, Debug, PartialEq, Eq, Ord, PartialOrd, Hash, Default, Structural)]
pub struct EvResult {
    pub event: i32,
    pub result: i32,
}

/// The typed interpretation of an event's data union. Exactly one
/// variant is the valid interpretation for a given tag; variable-length
/// tags store their data in the event's external buffer and keep the
/// union empty.
#[derive(Copy, Clone, Debug)]
pub enum Payload {
    Empty,
    Raw8([u8; 12]),
    Note(EvNote),
    Ctrl(EvCtrl),
    Addr(Addr),
    Connect(Connect),
    QueueEmpty(EvQueueControl<()>),
    QueueI32(EvQueueControl<i32>),
    QueueU32(EvQueueControl<u32>),
    QueueTime(EvQueueControl<TimeSpec>),
    ResultCode(EvResult),
}

/// Whether a stored payload is the valid interpretation for a shape.
/// Variable-length shapes keep the union empty.
pub open spec fn payload_fits(s: Shape, p: Payload) -> bool {
    match p {
        Payload::Empty => s == Shape::Empty || s == Shape::Ext,
        Payload::Raw8(_) => s == Shape::Raw8,
        Payload::Note(_) => s == Shape::Note,
        Payload::Ctrl(_) => s == Shape::Ctrl,
        Payload::Addr(_) => s == Shape::Addr,
        Payload::Connect(_) => s == Shape::Connect,
        Payload::QueueEmpty(_) => s == Shape::QueueEmpty,
        Payload::QueueI32(_) => s == Shape::QueueI32,
        Payload::QueueU32(_) => s == Shape::QueueU32,
        Payload::QueueTime(_) => s == Shape::QueueTime,
        Payload::ResultCode(_) => s == Shape::ResultCode,
    }
}

/// Low-level codec between one payload shape and the event's data union.
/// Don't use these directly; use the generic methods on `Event` instead.
pub trait EventData: Sized {
    /// Whether this shape is the one the tag accepts.
    spec fn accepts(t: EventType) -> bool;

    /// The union value this datum is stored as.
    spec fn as_payload(self) -> Payload;

    /// Storing is lossless: equal stored values come from equal data.
    proof fn lemma_as_payload_injective(a: Self, b: Self)
        requires
            Self::as_payload(a) == Self::as_payload(b),
        ensures
            a == b,
    ;

    /// An accepted tag's shape is fixed-length and the stored value is
    /// its valid interpretation.
    proof fn lemma_accepts(t: EventType, x: Self)
        requires
            Self::accepts(t),
        ensures
            payload_fits(shape_of(t), Self::as_payload(x)),
            shape_of(t) != Shape::Ext,
    ;

    /// Whether the tag accepts this shape.
    fn has_data(t: EventType) -> (r: bool)
        ensures
            r == Self::accepts(t),
    ;

    /// Write this datum into the event's data union. The caller must
    /// have checked acceptance: writing another shape's tag is
    /// undefined at this layer.
    fn set_data(&self, ev: &mut Event)
        requires
            Self::accepts(old(ev).etype),
        ensures
            *final(ev) == (Event { payload: Self::as_payload(*self), ..*old(ev) }),
    ;

    /// Read this datum out of the event's data union. The caller must
    /// have checked acceptance.
    fn get_data(ev: &Event) -> (r: Self)
        requires
            ev.wf(),
            Self::accepts(ev.etype),
        ensures
            Self::as_payload(r) == ev.payload,
    ;
}

impl EventData for () {
    open spec fn accepts(t: EventType) -> bool {
        shape_of(t) == Shape::Empty
    }

    open spec fn as_payload(self) -> Payload {
        Payload::Empty
    }

    proof fn lemma_as_payload_injective(a: Self, b: Self) {
    }

    proof fn lemma_accepts(t: EventType, x: Self) {
    }

    fn has_data(t: EventType) -> (r: bool) {
        match t {
            EventType::TuneRequest => true,
            EventType::Reset => true,
            EventType::Sensing => true,
            EventType::Nop => true,
            _ => false,
        }
    }

    fn set_data(&self, ev: &mut Event) {
        ev.payload = Payload::Empty;
    }

    fn get_data(ev: &Event) -> (r: Self) {
    }
}

impl EventData for [u8; 12] {
    open spec fn accepts(t: EventType) -> bool {
        shape_of(t) == Shape::Raw8
    }

    open spec fn as_payload(self) -> Payload {
        Payload::Raw8(self)
    }

    proof fn lemma_as_payload_injective(a: Self, b: Self) {
    }

    proof fn lemma_accepts(t: EventType, x: Self) {
    }

    fn has_data(t: EventType) -> (r: bool) {
        match t {
            EventType::Echo => true,
            EventType::Oss => true,
            EventType::Usr0 => true,
            EventType::Usr1 => true,
            EventType::Usr2 => true,
            EventType::Usr3 => true,
            EventType::Usr4 => true,
            EventType::Usr5 => true,
            EventType::Usr6 => true,
            EventType::Usr7 => true,
            EventType::Usr8 => true,
            EventType::Usr9 => true,
            _ => false,
        }
    }

    fn set_data(&self, ev: &mut Event) {
        ev.payload = Payload::Raw8(*self);
    }

    fn get_data(ev: &Event) -> (r: Self) {
        match ev.payload {
            Payload::Raw8(d) => d,
            _ => {
                proof {
                    assert(false);
                }
                [0u8; 12]
            },
        }
    }
}

impl EventData for EvNote {
    open spec fn accepts(t: EventType) -> bool {
        shape_of(t) == Shape::Note
    }

    open spec fn as_payload(self) -> Payload {
        Payload::Note(self)
    }

    proof fn lemma_as_payload_injective(a: Self, b: Self) {
    }

    proof fn lemma_accepts(t: EventType, x: Self) {
    }

    fn has_data(t: EventType) -> (r: bool) {
        match t {
            EventType::Note => true,
            EventType::Noteon => true,
            EventType::Noteoff => true,
            EventType::Keypress => true,
            _ => false,
        }
    }

    fn set_data(&self, ev: &mut Event) {
        ev.payload = Payload::Note(*self);
    }

    fn get_data(ev: &Event) -> (r: Self) {
        match ev.payload {
            Payload::Note(d) => d,
            _ => {
                proof {
                    assert(false);
                }
                EvNote { channel: 0, note: 0, velocity: 0, off_velocity: 0, duration: 0 }
            },
        }
    }
}

impl EventData for EvCtrl {
    open spec fn accepts(t: EventType) -> bool {
        shape_of(t) == Shape::Ctrl
    }

    open spec fn as_payload(self) -> Payload {
        Payload::Ctrl(self)
    }

    proof fn lemma_as_payload_injective(a: Self, b: Self) {
    }

    proof fn lemma_accepts(t: EventType, x: Self) {
    }

    fn has_data(t: EventType) -> (r: bool) {
        match t {
            EventType::Controller => true,
            EventType::Pgmchange => true,
            EventType::Chanpress => true,
            EventType::Pitchbend => true,
            EventType::Control14 => true,
            EventType::Nonregparam => true,
            EventType::Regparam => true,
            EventType::Songpos => true,
            EventType::Songsel => true,
            EventType::Qframe => true,
            EventType::Timesign => true,
            EventType::Keysign => true,
            _ => false,
        }
    }

    fn set_data(&self, ev: &mut Event) {
        ev.payload = Payload::Ctrl(*self);
    }

    fn get_data(ev: &Event) -> (r: Self) {
        match ev.payload {
            Payload::Ctrl(d) => d,
            _ => {
                proof {
                    assert(false);
                }
                EvCtrl { channel: 0, param: 0, value: 0 }
            },
        }
    }
}

impl EventData for Addr {
    open spec fn accepts(t: EventType) -> bool {
        shape_of(t) == Shape::Addr
    }

    open spec fn as_payload(self) -> Payload {
        Payload::Addr(self)
    }

    proof fn lemma_as_payload_injective(a: Self, b: Self) {
    }

    proof fn lemma_accepts(t: EventType, x: Self) {
    }

    fn has_data(t: EventType) -> (r: bool) {
        match t {
            EventType::ClientStart => true,
            EventType::ClientExit => true,
            EventType::ClientChange => true,
            EventType::PortStart => true,
            EventType::PortExit => true,
            EventType::PortChange => true,
            _ => false,
        }
    }

    fn set_data(&self, ev: &mut Event) {
        ev.payload = Payload::Addr(*self);
    }

    fn get_data(ev: &Event) -> (r: Self) {
        match ev.payload {
            Payload::Addr(d) => d,
            _ => {
                proof {
                    assert(false);
                }
                Addr { client: 0, port: 0 }
            },
        }
    }
}

impl EventData for Connect {
    open spec fn accepts(t: EventType) -> bool {
        shape_of(t) == Shape::Connect
    }

    open spec fn as_payload(self) -> Payload {
        Payload::Connect(self)
    }

    proof fn lemma_as_payload_injective(a: Self, b: Self) {
    }

    proof fn lemma_accepts(t: EventType, x: Self) {
    }

    fn has_data(t: EventType) -> (r: bool) {
        match t {
            EventType::PortSubscribed => true,
            EventType::PortUnsubscribed => true,
            _ => false,
        }
    }

    fn set_data(&self, ev: &mut Event) {
        ev.payload = Payload::Connect(*self);
    }

    fn get_data(ev: &Event) -> (r: Self) {
        match ev.payload {
            Payload::Connect(d) => d,
            _ => {
                proof {
                    assert(false);
                }
                Connect {
                    sender: Addr { client: 0, port: 0 },
                    dest: Addr { client: 0, port: 0 },
                }
            },
        }
    }
}

impl EventData for EvQueueControl<()> {
    open spec fn accepts(t: EventType) -> bool {
        shape_of(t) == Shape::QueueEmpty
    }

    open spec fn as_payload(self) -> Payload {
        Payload::QueueEmpty(self)
    }

    proof fn lemma_as_payload_injective(a: Self, b: Self) {
    }

    proof fn lemma_accepts(t: EventType, x: Self) {
    }

    fn has_data(t: EventType) -> (r: bool) {
        match t {
            EventType::Start => true,
            EventType::Continue => true,
            EventType::Stop => true,
            EventType::Clock => true,
            EventType::QueueSkew => true,
            _ => false,
        }
    }

    fn set_data(&self, ev: &mut Event) {
        ev.payload = Payload::QueueEmpty(*self);
    }

    fn get_data(ev: &Event) -> (r: Self) {
        match ev.payload {
            Payload::QueueEmpty(d) => d,
            _ => {
                proof {
                    assert(false);
                }
                EvQueueControl { queue: 0, value: () }
            },
        }
    }
}

impl EventData for EvQueueControl<i32> {
    open spec fn accepts(t: EventType) -> bool {
        shape_of(t) == Shape::QueueI32
    }

    open spec fn as_payload(self) -> Payload {
        Payload::QueueI32(self)
    }

    proof fn lemma_as_payload_injective(a: Self, b: Self) {
    }

    proof fn lemma_accepts(t: EventType, x: Self) {
    }

    fn has_data(t: EventType) -> (r: bool) {
        match t {
            EventType::Tempo => true,
            _ => false,
        }
    }

    fn set_data(&self, ev: &mut Event) {
        ev.payload = Payload::QueueI32(*self);
    }

    fn get_data(ev: &Event) -> (r: Self) {
        match ev.payload {
            Payload::QueueI32(d) => d,
            _ => {
                proof {
                    assert(false);
                }
                EvQueueControl { queue: 0, value: 0 }
            },
        }
    }
}

impl EventData for EvQueueControl<u32> {
    open spec fn accepts(t: EventType) -> bool {
        shape_of(t) == Shape::QueueU32
    }

    open spec fn as_payload(self) -> Payload {
        Payload::QueueU32(self)
    }

    proof fn lemma_as_payload_injective(a: Self, b: Self) {
    }

    proof fn lemma_accepts(t: EventType, x: Self) {
    }

    fn has_data(t: EventType) -> (r: bool) {
        match t {
            EventType::SyncPos => true,
            EventType::Tick => true,
            EventType::SetposTick => true,
            _ => false,
        }
    }

    fn set_data(&self, ev: &mut Event) {
        ev.payload = Payload::QueueU32(*self);
    }

    fn get_data(ev: &Event) -> (r: Self) {
        match ev.payload {
            Payload::QueueU32(d) => d,
            _ => {
                proof {
                    assert(false);
                }
                EvQueueControl { queue: 0, value: 0 }
            },
        }
    }
}

impl EventData for EvQueueControl<TimeSpec> {
    open spec fn accepts(t: EventType) -> bool {
        shape_of(t) == Shape::QueueTime
    }

    open spec fn as_payload(self) -> Payload {
        Payload::QueueTime(self)
    }

    proof fn lemma_as_payload_injective(a: Self, b: Self) {
    }

    proof fn lemma_accepts(t: EventType, x: Self) {
    }

    fn has_data(t: EventType) -> (r: bool) {
        match t {
            EventType::SetposTime => true,
            _ => false,
        }
    }

    fn set_data(&self, ev: &mut Event) {
        ev.payload = Payload::QueueTime(*self);
    }

    fn get_data(ev: &Event) -> (r: Self) {
        match ev.payload {
            Payload::QueueTime(d) => d,
            _ => {
                proof {
                    assert(false);
                }
                EvQueueControl { queue: 0, value: TimeSpec { secs: 0, nanos: 0 } }
            },
        }
    }
}

impl EventData for EvResult {
    open spec fn accepts(t: EventType) -> bool {
        shape_of(t) == Shape::ResultCode
    }

    open spec fn as_payload(self) -> Payload {
        Payload::ResultCode(self)
    }

    proof fn lemma_as_payload_injective(a: Self, b: Self) {
    }

    proof fn lemma_accepts(t: EventType, x: Self) {
    }

    fn has_data(t: EventType) -> (r: bool) {
        match t {
            EventType::System => true,
            EventType::ResultCode => true,
            _ => false,
        }
    }

    fn set_data(&self, ev: &mut Event) {
        ev.payload = Payload::ResultCode(*self);
    }

    fn get_data(ev: &Event) -> (r: Self) {
        match ev.payload {
            Payload::ResultCode(d) => d,
            _ => {
                proof {
                    assert(false);
                }
                EvResult { event: 0, result: 0 }
            },
        }
    }
}

/// Payloads survive the store/load pair byte-identically: whatever
/// datum reads back from an event as shape `D` is the very datum whose
/// stored form the event holds, because storing is lossless.
pub proof fn lemma_payload_roundtrip<D: EventData>(stored: D, read: D)
    requires
        D::as_payload(read) == D::as_payload(stored),
    ensures
        read == stored,
{
    D::lemma_as_payload_injective(read, stored);
}

/// Whether a stored payload is the valid interpretation for a shape,
/// as executable code.
pub fn payload_fits_check(s: Shape, p: &Payload) -> (r: bool)
    ensures
        r == payload_fits(s, *p),
{
    match p {
        Payload::Empty => s == Shape::Empty || s == Shape::Ext,
        Payload::Raw8(_) => s == Shape::Raw8,
        Payload::Note(_) => s == Shape::Note,
        Payload::Ctrl(_) => s == Shape::Ctrl,
        Payload::Addr(_) => s == Shape::Addr,
        Payload::Connect(_) => s == Shape::Connect,
        Payload::QueueEmpty(_) => s == Shape::QueueEmpty,
        Payload::QueueI32(_) => s == Shape::QueueI32,
        Payload::QueueU32(_) => s == Shape::QueueU32,
        Payload::QueueTime(_) => s == Shape::QueueTime,
        Payload::ResultCode(_) => s == Shape::ResultCode,
    }
}

} // verus!
