//! The closed set of event tags and its total classification.
//!
//! Every tag maps to exactly one payload shape and to exactly one
//! length kind (fixed, variable, or variable-user-owned). Both mappings
//! are total functions, so the "exactly one" laws hold by construction
//! and are stated as proof functions below.

use vstd::prelude::*;

verus! {

/// The discriminant selecting an event's semantic category and payload shape.
#[derive(Copy, Clone, Debug, PartialEq, Eq, Hash, Structural)]
pub enum EventType {
    Bounce,
    Chanpress,
    ClientChange,
    ClientExit,
    ClientStart,
    Clock,
    Continue,
    Control14,
    Controller,
    Echo,
    Keypress,
    Keysign,
    Nop,
    Nonregparam,
    Note,
    Noteoff,
    Noteon,
    Oss,
    Pgmchange,
    Pitchbend,
    PortChange,
    PortExit,
    PortStart,
    PortSubscribed,
    PortUnsubscribed,
    Qframe,
    QueueSkew,
    Regparam,
    Reset,
    ResultCode,
    Sensing,
    SetposTick,
    SetposTime,
    Songpos,
    Songsel,
    Start,
    Stop,
    SyncPos,
    Sysex,
    System,
    Tempo,
    Tick,
    Timesign,
    TuneRequest,
    Usr0,
    Usr1,
    Usr2,
    Usr3,
    Usr4,
    Usr5,
    Usr6,
    Usr7,
    Usr8,
    Usr9,
    UsrVar0,
    UsrVar1,
    UsrVar2,
    UsrVar3,
    UsrVar4,
}

/// The payload shape associated with a tag: which typed view of the
/// event's data union is the valid one.
#[derive(Copy, Clone, Debug, PartialEq, Eq, Structural)]
pub enum Shape {
    /// No payload at all.
    Empty,
    /// An opaque fixed 12-byte blob.
    Raw8,
    /// A note message (channel, note, velocity, off-velocity, duration).
    Note,
    /// A controller message (channel, parameter, value).
    Ctrl,
    /// A single endpoint address.
    Addr,
    /// A (sender, destination) connection pair.
    Connect,
    /// Queue control with no auxiliary value.
    QueueEmpty,
    /// Queue control with a signed 32-bit auxiliary value.
    QueueI32,
    /// Queue control with an unsigned 32-bit auxiliary value.
    QueueU32,
    /// Queue control with a real-time auxiliary value.
    QueueTime,
    /// A (prior event, result code) pair.
    ResultCode,
    /// Variable-length external data.
    Ext,
}

/// How an event of this tag stores its data: inline and fixed-size,
/// variable-length, or variable-length in user-owned storage.
#[derive(Copy, Clone, Debug, PartialEq, Eq, Structural)]
pub enum LengthKind {
    Fixed,
    Variable,
    VarUser,
}

/// The payload shape of each tag. Total: every tag has exactly one shape.
pub open spec fn shape_of(t: EventType) -> Shape {
    match t {
        EventType::TuneRequest => Shape::Empty,
        EventType::Reset => Shape::Empty,
        EventType::Sensing => Shape::Empty,
        EventType::Nop => Shape::Empty,
        EventType::Echo => Shape::Raw8,
        EventType::Oss => Shape::Raw8,
        EventType::Usr0 => Shape::Raw8,
        EventType::Usr1 => Shape::Raw8,
        EventType::Usr2 => Shape::Raw8,
        EventType::Usr3 => Shape::Raw8,
        EventType::Usr4 => Shape::Raw8,
        EventType::Usr5 => Shape::Raw8,
        EventType::Usr6 => Shape::Raw8,
        EventType::Usr7 => Shape::Raw8,
        EventType::Usr8 => Shape::Raw8,
        EventType::Usr9 => Shape::Raw8,
        EventType::Note => Shape::Note,
        EventType::Noteon => Shape::Note,
        EventType::Noteoff => Shape::Note,
        EventType::Keypress => Shape::Note,
        EventType::Controller => Shape::Ctrl,
        EventType::Pgmchange => Shape::Ctrl,
        EventType::Chanpress => Shape::Ctrl,
        EventType::Pitchbend => Shape::Ctrl,
        EventType::Control14 => Shape::Ctrl,
        EventType::Nonregparam => Shape::Ctrl,
        EventType::Regparam => Shape::Ctrl,
        EventType::Songpos => Shape::Ctrl,
        EventType::Songsel => Shape::Ctrl,
        EventType::Qframe => Shape::Ctrl,
        EventType::Timesign => Shape::Ctrl,
        EventType::Keysign => Shape::Ctrl,
        EventType::ClientStart => Shape::Addr,
        EventType::ClientExit => Shape::Addr,
        EventType::ClientChange => Shape::Addr,
        EventType::PortStart => Shape::Addr,
        EventType::PortExit => Shape::Addr,
        EventType::PortChange => Shape::Addr,
        EventType::PortSubscribed => Shape::Connect,
        EventType::PortUnsubscribed => Shape::Connect,
        EventType::Start => Shape::QueueEmpty,
        EventType::Continue => Shape::QueueEmpty,
        EventType::Stop => Shape::QueueEmpty,
        EventType::Clock => Shape::QueueEmpty,
        EventType::QueueSkew => Shape::QueueEmpty,
        EventType::Tempo => Shape::QueueI32,
        EventType::SyncPos => Shape::QueueU32,
        EventType::Tick => Shape::QueueU32,
        EventType::SetposTick => Shape::QueueU32,
        EventType::SetposTime => Shape::QueueTime,
        EventType::System => Shape::ResultCode,
        EventType::ResultCode => Shape::ResultCode,
        EventType::Sysex => Shape::Ext,
        EventType::Bounce => Shape::Ext,
        EventType::UsrVar0 => Shape::Ext,
        EventType::UsrVar1 => Shape::Ext,
        EventType::UsrVar2 => Shape::Ext,
        EventType::UsrVar3 => Shape::Ext,
        EventType::UsrVar4 => Shape::Ext,
    }
}

/// The length classification of each tag. Total: exactly one kind applies.
/// Bounce shares the plain variable classification with Sysex.
pub open spec fn length_kind(t: EventType) -> LengthKind {
    match t {
        EventType::Sysex => LengthKind::Variable,
        EventType::Bounce => LengthKind::Variable,
        EventType::UsrVar0 => LengthKind::VarUser,
        EventType::UsrVar1 => LengthKind::VarUser,
        EventType::UsrVar2 => LengthKind::VarUser,
        EventType::UsrVar3 => LengthKind::VarUser,
        EventType::UsrVar4 => LengthKind::VarUser,
        _ => LengthKind::Fixed,
    }
}

/// Whether events of this tag carry a variable-length external buffer.
pub open spec fn has_ext(t: EventType) -> bool {
    length_kind(t) != LengthKind::Fixed
}

/// A tag carries external data exactly when its shape is the external one:
/// the shape table and the length classification agree.
pub proof fn lemma_shape_length_agree(t: EventType)
    ensures
        (shape_of(t) == Shape::Ext) <==> has_ext(t),
{
}

/// For every tag, exactly one payload shape accepts it and exactly one
/// length kind applies: counting acceptance over all twelve shapes and
/// over all three kinds always yields one.
pub proof fn lemma_exactly_one_shape(t: EventType)
    ensures
        (if shape_of(t) == Shape::Empty { 1int } else { 0 })
            + (if shape_of(t) == Shape::Raw8 { 1int } else { 0 })
            + (if shape_of(t) == Shape::Note { 1int } else { 0 })
            + (if shape_of(t) == Shape::Ctrl { 1int } else { 0 })
            + (if shape_of(t) == Shape::Addr { 1int } else { 0 })
            + (if shape_of(t) == Shape::Connect { 1int } else { 0 })
            + (if shape_of(t) == Shape::QueueEmpty { 1int } else { 0 })
            + (if shape_of(t) == Shape::QueueI32 { 1int } else { 0 })
            + (if shape_of(t) == Shape::QueueU32 { 1int } else { 0 })
            + (if shape_of(t) == Shape::QueueTime { 1int } else { 0 })
            + (if shape_of(t) == Shape::ResultCode { 1int } else { 0 })
            + (if shape_of(t) == Shape::Ext { 1int } else { 0 }) == 1,
        (if length_kind(t) == LengthKind::Fixed { 1int } else { 0 })
            + (if length_kind(t) == LengthKind::Variable { 1int } else { 0 })
            + (if length_kind(t) == LengthKind::VarUser { 1int } else { 0 }) == 1,
{
}

/// The wire byte identifying each tag in an event record's header.
pub open spec fn tag_code(t: EventType) -> u8 {
    match t {
        EventType::Bounce => 131,
        EventType::Chanpress => 12,
        EventType::ClientChange => 62,
        EventType::ClientExit => 61,
        EventType::ClientStart => 60,
        EventType::Clock => 36,
        EventType::Continue => 31,
        EventType::Control14 => 14,
        EventType::Controller => 10,
        EventType::Echo => 50,
        EventType::Keypress => 8,
        EventType::Keysign => 24,
        EventType::Nop => 255,
        EventType::Nonregparam => 15,
        EventType::Note => 5,
        EventType::Noteoff => 7,
        EventType::Noteon => 6,
        EventType::Oss => 51,
        EventType::Pgmchange => 11,
        EventType::Pitchbend => 13,
        EventType::PortChange => 65,
        EventType::PortExit => 64,
        EventType::PortStart => 63,
        EventType::PortSubscribed => 66,
        EventType::PortUnsubscribed => 67,
        EventType::Qframe => 22,
        EventType::QueueSkew => 38,
        EventType::Regparam => 16,
        EventType::Reset => 41,
        EventType::ResultCode => 1,
        EventType::Sensing => 42,
        EventType::SetposTick => 33,
        EventType::SetposTime => 34,
        EventType::Songpos => 20,
        EventType::Songsel => 21,
        EventType::Start => 30,
        EventType::Stop => 32,
        EventType::SyncPos => 39,
        EventType::Sysex => 130,
        EventType::System => 0,
        EventType::Tempo => 35,
        EventType::Tick => 37,
        EventType::Timesign => 23,
        EventType::TuneRequest => 40,
        EventType::Usr0 => 90,
        EventType::Usr1 => 91,
        EventType::Usr2 => 92,
        EventType::Usr3 => 93,
        EventType::Usr4 => 94,
        EventType::Usr5 => 95,
        EventType::Usr6 => 96,
        EventType::Usr7 => 97,
        EventType::Usr8 => 98,
        EventType::Usr9 => 99,
        EventType::UsrVar0 => 135,
        EventType::UsrVar1 => 136,
        EventType::UsrVar2 => 137,
        EventType::UsrVar3 => 138,
        EventType::UsrVar4 => 139,
    }
}

/// The tag identified by a wire byte, if any.
pub open spec fn tag_of_code(c: u8) -> Option<EventType> {
    if c == 0 {
        Some(EventType::System)
    } else if c == 1 {
        Some(EventType::ResultCode)
    } else if c == 5 {
        Some(EventType::Note)
    } else if c == 6 {
        Some(EventType::Noteon)
    } else if c == 7 {
        Some(EventType::Noteoff)
    } else if c == 8 {
        Some(EventType::Keypress)
    } else if c == 10 {
        Some(EventType::Controller)
    } else if c == 11 {
        Some(EventType::Pgmchange)
    } else if c == 12 {
        Some(EventType::Chanpress)
    } else if c == 13 {
        Some(EventType::Pitchbend)
    } else if c == 14 {
        Some(EventType::Control14)
    } else if c == 15 {
        Some(EventType::Nonregparam)
    } else if c == 16 {
        Some(EventType::Regparam)
    } else if c == 20 {
        Some(EventType::Songpos)
    } else if c == 21 {
        Some(EventType::Songsel)
    } else if c == 22 {
        Some(EventType::Qframe)
    } else if c == 23 {
        Some(EventType::Timesign)
    } else if c == 24 {
        Some(EventType::Keysign)
    } else if c == 30 {
        Some(EventType::Start)
    } else if c == 31 {
        Some(EventType::Continue)
    } else if c == 32 {
        Some(EventType::Stop)
    } else if c == 33 {
        Some(EventType::SetposTick)
    } else if c == 34 {
        Some(EventType::SetposTime)
    } else if c == 35 {
        Some(EventType::Tempo)
    } else if c == 36 {
        Some(EventType::Clock)
    } else if c == 37 {
        Some(EventType::Tick)
    } else if c == 38 {
        Some(EventType::QueueSkew)
    } else if c == 39 {
        Some(EventType::SyncPos)
    } else if c == 40 {
        Some(EventType::TuneRequest)
    } else if c == 41 {
        Some(EventType::Reset)
    } else if c == 42 {
        Some(EventType::Sensing)
    } else if c == 50 {
        Some(EventType::Echo)
    } else if c == 51 {
        Some(EventType::Oss)
    } else if c == 60 {
        Some(EventType::ClientStart)
    } else if c == 61 {
        Some(EventType::ClientExit)
    } else if c == 62 {
        Some(EventType::ClientChange)
    } else if c == 63 {
        Some(EventType::PortStart)
    } else if c == 64 {
        Some(EventType::PortExit)
    } else if c == 65 {
        Some(EventType::PortChange)
    } else if c == 66 {
        Some(EventType::PortSubscribed)
    } else if c == 67 {
        Some(EventType::PortUnsubscribed)
    } else if c == 90 {
        Some(EventType::Usr0)
    } else if c == 91 {
        Some(EventType::Usr1)
    } else if c == 92 {
        Some(EventType::Usr2)
    } else if c == 93 {
        Some(EventType::Usr3)
    } else if c == 94 {
        Some(EventType::Usr4)
    } else if c == 95 {
        Some(EventType::Usr5)
    } else if c == 96 {
        Some(EventType::Usr6)
    } else if c == 97 {
        Some(EventType::Usr7)
    } else if c == 98 {
        Some(EventType::Usr8)
    } else if c == 99 {
        Some(EventType::Usr9)
    } else if c == 130 {
        Some(EventType::Sysex)
    } else if c == 131 {
        Some(EventType::Bounce)
    } else if c == 135 {
        Some(EventType::UsrVar0)
    } else if c == 136 {
        Some(EventType::UsrVar1)
    } else if c == 137 {
        Some(EventType::UsrVar2)
    } else if c == 138 {
        Some(EventType::UsrVar3)
    } else if c == 139 {
        Some(EventType::UsrVar4)
    } else if c == 255 {
        Some(EventType::Nop)
    } else {
        Option::None
    }
}

/// Reading a tag back from its wire byte yields the tag it was written for:
/// the code map is injective and the two maps are mutual inverses.
pub proof fn lemma_tag_code_roundtrip(t: EventType)
    ensures
        tag_of_code(tag_code(t)) == Some(t),
{
}

/// Every tag, in a fixed order.
pub open spec fn all_tags() -> Seq<EventType> {
    seq![
        EventType::Bounce,
        EventType::Chanpress,
        EventType::ClientChange,
        EventType::ClientExit,
        EventType::ClientStart,
        EventType::Clock,
        EventType::Continue,
        EventType::Control14,
        EventType::Controller,
        EventType::Echo,
        EventType::Keypress,
        EventType::Keysign,
        EventType::Nop,
        EventType::Nonregparam,
        EventType::Note,
        EventType::Noteoff,
        EventType::Noteon,
        EventType::Oss,
        EventType::Pgmchange,
        EventType::Pitchbend,
        EventType::PortChange,
        EventType::PortExit,
        EventType::PortStart,
        EventType::PortSubscribed,
        EventType::PortUnsubscribed,
        EventType::Qframe,
        EventType::QueueSkew,
        EventType::Regparam,
        EventType::Reset,
        EventType::ResultCode,
        EventType::Sensing,
        EventType::SetposTick,
        EventType::SetposTime,
        EventType::Songpos,
        EventType::Songsel,
        EventType::Start,
        EventType::Stop,
        EventType::SyncPos,
        EventType::Sysex,
        EventType::System,
        EventType::Tempo,
        EventType::Tick,
        EventType::Timesign,
        EventType::TuneRequest,
        EventType::Usr0,
        EventType::Usr1,
        EventType::Usr2,
        EventType::Usr3,
        EventType::Usr4,
        EventType::Usr5,
        EventType::Usr6,
        EventType::Usr7,
        EventType::Usr8,
        EventType::Usr9,
        EventType::UsrVar0,
        EventType::UsrVar1,
        EventType::UsrVar2,
        EventType::UsrVar3,
        EventType::UsrVar4,
    ]
}

/// Each tag stands somewhere in `all_tags`.
pub proof fn lemma_all_tags_complete(t: EventType)
    ensures
        all_tags().contains(t),
{
    match t {
        EventType::Bounce => { assert(all_tags()[0] == EventType::Bounce); },
        EventType::Chanpress => { assert(all_tags()[1] == EventType::Chanpress); },
        EventType::ClientChange => { assert(all_tags()[2] == EventType::ClientChange); },
        EventType::ClientExit => { assert(all_tags()[3] == EventType::ClientExit); },
        EventType::ClientStart => { assert(all_tags()[4] == EventType::ClientStart); },
        EventType::Clock => { assert(all_tags()[5] == EventType::Clock); },
        EventType::Continue => { assert(all_tags()[6] == EventType::Continue); },
        EventType::Control14 => { assert(all_tags()[7] == EventType::Control14); },
        EventType::Controller => { assert(all_tags()[8] == EventType::Controller); },
        EventType::Echo => { assert(all_tags()[9] == EventType::Echo); },
        EventType::Keypress => { assert(all_tags()[10] == EventType::Keypress); },
        EventType::Keysign => { assert(all_tags()[11] == EventType::Keysign); },
        EventType::Nop => { assert(all_tags()[12] == EventType::Nop); },
        EventType::Nonregparam => { assert(all_tags()[13] == EventType::Nonregparam); },
        EventType::Note => { assert(all_tags()[14] == EventType::Note); },
        EventType::Noteoff => { assert(all_tags()[15] == EventType::Noteoff); },
        EventType::Noteon => { assert(all_tags()[16] == EventType::Noteon); },
        EventType::Oss => { assert(all_tags()[17] == EventType::Oss); },
        EventType::Pgmchange => { assert(all_tags()[18] == EventType::Pgmchange); },
        EventType::Pitchbend => { assert(all_tags()[19] == EventType::Pitchbend); },
        EventType::PortChange => { assert(all_tags()[20] == EventType::PortChange); },
        EventType::PortExit => { assert(all_tags()[21] == EventType::PortExit); },
        EventType::PortStart => { assert(all_tags()[22] == EventType::PortStart); },
        EventType::PortSubscribed => { assert(all_tags()[23] == EventType::PortSubscribed); },
        EventType::PortUnsubscribed => { assert(all_tags()[24] == EventType::PortUnsubscribed); },
        EventType::Qframe => { assert(all_tags()[25] == EventType::Qframe); },
        EventType::QueueSkew => { assert(all_tags()[26] == EventType::QueueSkew); },
        EventType::Regparam => { assert(all_tags()[27] == EventType::Regparam); },
        EventType::Reset => { assert(all_tags()[28] == EventType::Reset); },
        EventType::ResultCode => { assert(all_tags()[29] == EventType::ResultCode); },
        EventType::Sensing => { assert(all_tags()[30] == EventType::Sensing); },
        EventType::SetposTick => { assert(all_tags()[31] == EventType::SetposTick); },
        EventType::SetposTime => { assert(all_tags()[32] == EventType::SetposTime); },
        EventType::Songpos => { assert(all_tags()[33] == EventType::Songpos); },
        EventType::Songsel => { assert(all_tags()[34] == EventType::Songsel); },
        EventType::Start => { assert(all_tags()[35] == EventType::Start); },
        EventType::Stop => { assert(all_tags()[36] == EventType::Stop); },
        EventType::SyncPos => { assert(all_tags()[37] == EventType::SyncPos); },
        EventType::Sysex => { assert(all_tags()[38] == EventType::Sysex); },
        EventType::System => { assert(all_tags()[39] == EventType::System); },
        EventType::Tempo => { assert(all_tags()[40] == EventType::Tempo); },
        EventType::Tick => { assert(all_tags()[41] == EventType::Tick); },
        EventType::Timesign => { assert(all_tags()[42] == EventType::Timesign); },
        EventType::TuneRequest => { assert(all_tags()[43] == EventType::TuneRequest); },
        EventType::Usr0 => { assert(all_tags()[44] == EventType::Usr0); },
        EventType::Usr1 => { assert(all_tags()[45] == EventType::Usr1); },
        EventType::Usr2 => { assert(all_tags()[46] == EventType::Usr2); },
        EventType::Usr3 => { assert(all_tags()[47] == EventType::Usr3); },
        EventType::Usr4 => { assert(all_tags()[48] == EventType::Usr4); },
        EventType::Usr5 => { assert(all_tags()[49] == EventType::Usr5); },
        EventType::Usr6 => { assert(all_tags()[50] == EventType::Usr6); },
        EventType::Usr7 => { assert(all_tags()[51] == EventType::Usr7); },
        EventType::Usr8 => { assert(all_tags()[52] == EventType::Usr8); },
        EventType::Usr9 => { assert(all_tags()[53] == EventType::Usr9); },
        EventType::UsrVar0 => { assert(all_tags()[54] == EventType::UsrVar0); },
        EventType::UsrVar1 => { assert(all_tags()[55] == EventType::UsrVar1); },
        EventType::UsrVar2 => { assert(all_tags()[56] == EventType::UsrVar2); },
        EventType::UsrVar3 => { assert(all_tags()[57] == EventType::UsrVar3); },
        EventType::UsrVar4 => { assert(all_tags()[58] == EventType::UsrVar4); },
    }
}

impl EventType {
    /// The wire byte for this tag.
    pub fn code(self) -> (c: u8)
        ensures
            c == tag_code(self),
    {
        match self {
            EventType::Bounce => 131,
            EventType::Chanpress => 12,
            EventType::ClientChange => 62,
            EventType::ClientExit => 61,
            EventType::ClientStart => 60,
            EventType::Clock => 36,
            EventType::Continue => 31,
            EventType::Control14 => 14,
            EventType::Controller => 10,
            EventType::Echo => 50,
            EventType::Keypress => 8,
            EventType::Keysign => 24,
            EventType::Nop => 255,
            EventType::Nonregparam => 15,
            EventType::Note => 5,
            EventType::Noteoff => 7,
            EventType::Noteon => 6,
            EventType::Oss => 51,
            EventType::Pgmchange => 11,
            EventType::Pitchbend => 13,
            EventType::PortChange => 65,
            EventType::PortExit => 64,
            EventType::PortStart => 63,
            EventType::PortSubscribed => 66,
            EventType::PortUnsubscribed => 67,
            EventType::Qframe => 22,
            EventType::QueueSkew => 38,
            EventType::Regparam => 16,
            EventType::Reset => 41,
            EventType::ResultCode => 1,
            EventType::Sensing => 42,
            EventType::SetposTick => 33,
            EventType::SetposTime => 34,
            EventType::Songpos => 20,
            EventType::Songsel => 21,
            EventType::Start => 30,
            EventType::Stop => 32,
            EventType::SyncPos => 39,
            EventType::Sysex => 130,
            EventType::System => 0,
            EventType::Tempo => 35,
            EventType::Tick => 37,
            EventType::Timesign => 23,
            EventType::TuneRequest => 40,
            EventType::Usr0 => 90,
            EventType::Usr1 => 91,
            EventType::Usr2 => 92,
            EventType::Usr3 => 93,
            EventType::Usr4 => 94,
            EventType::Usr5 => 95,
            EventType::Usr6 => 96,
            EventType::Usr7 => 97,
            EventType::Usr8 => 98,
            EventType::Usr9 => 99,
            EventType::UsrVar0 => 135,
            EventType::UsrVar1 => 136,
            EventType::UsrVar2 => 137,
            EventType::UsrVar3 => 138,
            EventType::UsrVar4 => 139,
        }
    }

    /// The tag a wire byte stands for, or nothing for an unassigned byte.
    pub fn from_code(c: u8) -> (r: Option<EventType>)
        ensures
            r == tag_of_code(c),
    {
        match c {
            0 => Some(EventType::System),
            1 => Some(EventType::ResultCode),
            5 => Some(EventType::Note),
            6 => Some(EventType::Noteon),
            7 => Some(EventType::Noteoff),
            8 => Some(EventType::Keypress),
            10 => Some(EventType::Controller),
            11 => Some(EventType::Pgmchange),
            12 => Some(EventType::Chanpress),
            13 => Some(EventType::Pitchbend),
            14 => Some(EventType::Control14),
            15 => Some(EventType::Nonregparam),
            16 => Some(EventType::Regparam),
            20 => Some(EventType::Songpos),
            21 => Some(EventType::Songsel),
            22 => Some(EventType::Qframe),
            23 => Some(EventType::Timesign),
            24 => Some(EventType::Keysign),
            30 => Some(EventType::Start),
            31 => Some(EventType::Continue),
            32 => Some(EventType::Stop),
            33 => Some(EventType::SetposTick),
            34 => Some(EventType::SetposTime),
            35 => Some(EventType::Tempo),
            36 => Some(EventType::Clock),
            37 => Some(EventType::Tick),
            38 => Some(EventType::QueueSkew),
            39 => Some(EventType::SyncPos),
            40 => Some(EventType::TuneRequest),
            41 => Some(EventType::Reset),
            42 => Some(EventType::Sensing),
            50 => Some(EventType::Echo),
            51 => Some(EventType::Oss),
            60 => Some(EventType::ClientStart),
            61 => Some(EventType::ClientExit),
            62 => Some(EventType::ClientChange),
            63 => Some(EventType::PortStart),
            64 => Some(EventType::PortExit),
            65 => Some(EventType::PortChange),
            66 => Some(EventType::PortSubscribed),
            67 => Some(EventType::PortUnsubscribed),
            90 => Some(EventType::Usr0),
            91 => Some(EventType::Usr1),
            92 => Some(EventType::Usr2),
            93 => Some(EventType::Usr3),
            94 => Some(EventType::Usr4),
            95 => Some(EventType::Usr5),
            96 => Some(EventType::Usr6),
            97 => Some(EventType::Usr7),
            98 => Some(EventType::Usr8),
            99 => Some(EventType::Usr9),
            130 => Some(EventType::Sysex),
            131 => Some(EventType::Bounce),
            135 => Some(EventType::UsrVar0),
            136 => Some(EventType::UsrVar1),
            137 => Some(EventType::UsrVar2),
            138 => Some(EventType::UsrVar3),
            139 => Some(EventType::UsrVar4),
            255 => Some(EventType::Nop),
            _ => Option::None,
        }
    }

    /// Every tag, in a fixed order.
    #[verifier::rlimit(100)]
    pub fn all() -> (r: Vec<EventType>)
        ensures
            r@ == all_tags(),
            r@.len() == 59,
    {
        let mut r: Vec<EventType> = Vec::new();
        r.push(EventType::Bounce);
        r.push(EventType::Chanpress);
        r.push(EventType::ClientChange);
        r.push(EventType::ClientExit);
        r.push(EventType::ClientStart);
        r.push(EventType::Clock);
        r.push(EventType::Continue);
        r.push(EventType::Control14);
        r.push(EventType::Controller);
        r.push(EventType::Echo);
        r.push(EventType::Keypress);
        r.push(EventType::Keysign);
        r.push(EventType::Nop);
        r.push(EventType::Nonregparam);
        r.push(EventType::Note);
        r.push(EventType::Noteoff);
        r.push(EventType::Noteon);
        r.push(EventType::Oss);
        r.push(EventType::Pgmchange);
        r.push(EventType::Pitchbend);
        r.push(EventType::PortChange);
        r.push(EventType::PortExit);
        r.push(EventType::PortStart);
        r.push(EventType::PortSubscribed);
        r.push(EventType::PortUnsubscribed);
        r.push(EventType::Qframe);
        r.push(EventType::QueueSkew);
        r.push(EventType::Regparam);
        r.push(EventType::Reset);
        r.push(EventType::ResultCode);
        r.push(EventType::Sensing);
        r.push(EventType::SetposTick);
        r.push(EventType::SetposTime);
        r.push(EventType::Songpos);
        r.push(EventType::Songsel);
        r.push(EventType::Start);
        r.push(EventType::Stop);
        r.push(EventType::SyncPos);
        r.push(EventType::Sysex);
        r.push(EventType::System);
        r.push(EventType::Tempo);
        r.push(EventType::Tick);
        r.push(EventType::Timesign);
        r.push(EventType::TuneRequest);
        r.push(EventType::Usr0);
        r.push(EventType::Usr1);
        r.push(EventType::Usr2);
        r.push(EventType::Usr3);
        r.push(EventType::Usr4);
        r.push(EventType::Usr5);
        r.push(EventType::Usr6);
        r.push(EventType::Usr7);
        r.push(EventType::Usr8);
        r.push(EventType::Usr9);
        r.push(EventType::UsrVar0);
        r.push(EventType::UsrVar1);
        r.push(EventType::UsrVar2);
        r.push(EventType::UsrVar3);
        r.push(EventType::UsrVar4);
        proof {
            assert(r@ =~= all_tags());
        }
        r
    }
}

/// The payload shape of a tag, as executable code.
pub fn shape_of_tag(t: EventType) -> (s: Shape)
    ensures
        s == shape_of(t),
{
    match t {
        EventType::Bounce => Shape::Ext,
        EventType::Chanpress => Shape::Ctrl,
        EventType::ClientChange => Shape::Addr,
        EventType::ClientExit => Shape::Addr,
        EventType::ClientStart => Shape::Addr,
        EventType::Clock => Shape::QueueEmpty,
        EventType::Continue => Shape::QueueEmpty,
        EventType::Control14 => Shape::Ctrl,
        EventType::Controller => Shape::Ctrl,
        EventType::Echo => Shape::Raw8,
        EventType::Keypress => Shape::Note,
        EventType::Keysign => Shape::Ctrl,
        EventType::Nonregparam => Shape::Ctrl,
        EventType::Nop => Shape::Empty,
        EventType::Note => Shape::Note,
        EventType::Noteoff => Shape::Note,
        EventType::Noteon => Shape::Note,
        EventType::Oss => Shape::Raw8,
        EventType::Pgmchange => Shape::Ctrl,
        EventType::Pitchbend => Shape::Ctrl,
        EventType::PortChange => Shape::Addr,
        EventType::PortExit => Shape::Addr,
        EventType::PortStart => Shape::Addr,
        EventType::PortSubscribed => Shape::Connect,
        EventType::PortUnsubscribed => Shape::Connect,
        EventType::Qframe => Shape::Ctrl,
        EventType::QueueSkew => Shape::QueueEmpty,
        EventType::Regparam => Shape::Ctrl,
        EventType::Reset => Shape::Empty,
        EventType::ResultCode => Shape::ResultCode,
        EventType::Sensing => Shape::Empty,
        EventType::SetposTick => Shape::QueueU32,
        EventType::SetposTime => Shape::QueueTime,
        EventType::Songpos => Shape::Ctrl,
        EventType::Songsel => Shape::Ctrl,
        EventType::Start => Shape::QueueEmpty,
        EventType::Stop => Shape::QueueEmpty,
        EventType::SyncPos => Shape::QueueU32,
        EventType::Sysex => Shape::Ext,
        EventType::System => Shape::ResultCode,
        EventType::Tempo => Shape::QueueI32,
        EventType::Tick => Shape::QueueU32,
        EventType::Timesign => Shape::Ctrl,
        EventType::TuneRequest => Shape::Empty,
        EventType::Usr0 => Shape::Raw8,
        EventType::Usr1 => Shape::Raw8,
        EventType::Usr2 => Shape::Raw8,
        EventType::Usr3 => Shape::Raw8,
        EventType::Usr4 => Shape::Raw8,
        EventType::Usr5 => Shape::Raw8,
        EventType::Usr6 => Shape::Raw8,
        EventType::Usr7 => Shape::Raw8,
        EventType::Usr8 => Shape::Raw8,
        EventType::Usr9 => Shape::Raw8,
        EventType::UsrVar0 => Shape::Ext,
        EventType::UsrVar1 => Shape::Ext,
        EventType::UsrVar2 => Shape::Ext,
        EventType::UsrVar3 => Shape::Ext,
        EventType::UsrVar4 => Shape::Ext,
    }
}

} // verus!
