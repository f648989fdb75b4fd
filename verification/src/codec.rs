//! The byte-stream codec: a bidirectional converter between raw MIDI
//! byte sequences and typed events.
//!
//! The coder keeps a running-status byte for each direction and an
//! internal scratch buffer that collects system-exclusive data while
//! parsing. Parsing (`encode`) is specified against a spec-level state
//! machine, `enc_step` folded by `run_enc`; rendering (`decode`) is
//! specified against `render_msg` with running-status elision applied
//! by `wire_out`.

use vstd::prelude::*;

use crate::addr::Addr;
use crate::event::{Event, ExtBuf, Timestamp};
use crate::payload::{EvCtrl, EvNote, EvQueueControl, Payload};
use crate::tag::EventType;
use crate::SeqError;

verus! {

/// Whether a byte is a channel-voice status byte.
pub open spec fn voice_status(c: u8) -> bool {
    0x80 <= c < 0xf0
}

/// How many data bytes a status byte's message carries.
pub open spec fn needed(status: u8) -> int {
    if 0xc0 <= status < 0xe0 {
        1
    } else if status == 0xf1 || status == 0xf3 {
        1
    } else {
        2
    }
}

/// The parsing side of the coder, as a mathematical state: the status
/// of the message being collected (0 for none), the running status (0
/// for none), the data bytes collected so far, whether a
/// system-exclusive message is being collected, its bytes so far, and
/// the scratch capacity.
#[verifier::ext_equal]
pub ghost struct EncState {
    pub status: u8,
    pub run: u8,
    pub pending: Seq<u8>,
    pub in_sysex: bool,
    pub sysex: Seq<u8>,
    pub cap: int,
}

/// What a completed message carries: the tag, the typed payload, and
/// the external bytes for system-exclusive messages.
#[verifier::ext_equal]
pub ghost struct MsgOut {
    pub tag: EventType,
    pub payload: Payload,
    pub ext: Option<Seq<u8>>,
}

/// The effect of feeding one byte to the parser.
pub ghost enum EncStep {
    /// Byte consumed; no message complete yet.
    Next(EncState),
    /// Byte consumed and a message completed.
    Done(EncState, MsgOut),
    /// Byte refused; the state is unchanged.
    Fail(SeqError),
}

/// The result of feeding a byte sequence to the parser: how many bytes
/// were consumed, the state afterwards, the completed message if one
/// was, and the error if one arose.
#[verifier::ext_equal]
pub ghost struct EncRun {
    pub consumed: int,
    pub st: EncState,
    pub out: Option<MsgOut>,
    pub err: Option<SeqError>,
}

/// The parser state with no message in progress and no running status.
pub open spec fn init_state(cap: int) -> EncState {
    EncState { status: 0, run: 0, pending: seq![], in_sysex: false, sysex: seq![], cap: cap }
}

/// The state with any message in progress abandoned and the running
/// status cancelled; the scratch capacity is kept.
pub open spec fn reset_parse(st: EncState) -> EncState {
    EncState { status: 0, run: 0, pending: seq![], in_sysex: false, sysex: seq![], ..st }
}

/// The message a system-realtime byte completes, if it is assigned one.
pub open spec fn realtime_msg(c: u8) -> Option<MsgOut> {
    if c == 0xf8 {
        Option::Some(MsgOut {
            tag: EventType::Clock,
            payload: Payload::QueueEmpty(EvQueueControl { queue: 0, value: () }),
            ext: Option::None,
        })
    } else if c == 0xfa {
        Option::Some(MsgOut {
            tag: EventType::Start,
            payload: Payload::QueueEmpty(EvQueueControl { queue: 0, value: () }),
            ext: Option::None,
        })
    } else if c == 0xfb {
        Option::Some(MsgOut {
            tag: EventType::Continue,
            payload: Payload::QueueEmpty(EvQueueControl { queue: 0, value: () }),
            ext: Option::None,
        })
    } else if c == 0xfc {
        Option::Some(MsgOut {
            tag: EventType::Stop,
            payload: Payload::QueueEmpty(EvQueueControl { queue: 0, value: () }),
            ext: Option::None,
        })
    } else if c == 0xfe {
        Option::Some(MsgOut { tag: EventType::Sensing, payload: Payload::Empty, ext: Option::None })
    } else if c == 0xff {
        Option::Some(MsgOut { tag: EventType::Reset, payload: Payload::Empty, ext: Option::None })
    } else {
        Option::None
    }
}

/// The message a status byte and its data bytes stand for. Meaningful
/// when `status` is a channel-voice status or one of the one- or
/// two-data system common statuses, with exactly its data bytes.
pub open spec fn make_msg(status: u8, d: Seq<u8>) -> MsgOut {
    if status < 0x90 {
        MsgOut {
            tag: EventType::Noteoff,
            payload: Payload::Note(EvNote {
                channel: (status - 0x80) as u8,
                note: d[0],
                velocity: d[1],
                off_velocity: 0,
                duration: 0,
            }),
            ext: Option::None,
        }
    } else if status < 0xa0 {
        MsgOut {
            tag: EventType::Noteon,
            payload: Payload::Note(EvNote {
                channel: (status - 0x90) as u8,
                note: d[0],
                velocity: d[1],
                off_velocity: 0,
                duration: 0,
            }),
            ext: Option::None,
        }
    } else if status < 0xb0 {
        MsgOut {
            tag: EventType::Keypress,
            payload: Payload::Note(EvNote {
                channel: (status - 0xa0) as u8,
                note: d[0],
                velocity: d[1],
                off_velocity: 0,
                duration: 0,
            }),
            ext: Option::None,
        }
    } else if status < 0xc0 {
        MsgOut {
            tag: EventType::Controller,
            payload: Payload::Ctrl(EvCtrl {
                channel: (status - 0xb0) as u8,
                param: d[0] as u32,
                value: d[1] as i32,
            }),
            ext: Option::None,
        }
    } else if status < 0xd0 {
        MsgOut {
            tag: EventType::Pgmchange,
            payload: Payload::Ctrl(EvCtrl {
                channel: (status - 0xc0) as u8,
                param: 0,
                value: d[0] as i32,
            }),
            ext: Option::None,
        }
    } else if status < 0xe0 {
        MsgOut {
            tag: EventType::Chanpress,
            payload: Payload::Ctrl(EvCtrl {
                channel: (status - 0xd0) as u8,
                param: 0,
                value: d[0] as i32,
            }),
            ext: Option::None,
        }
    } else if status < 0xf0 {
        MsgOut {
            tag: EventType::Pitchbend,
            payload: Payload::Ctrl(EvCtrl {
                channel: (status - 0xe0) as u8,
                param: 0,
                value: (d[0] + 128 * d[1] - 8192) as i32,
            }),
            ext: Option::None,
        }
    } else if status == 0xf1 {
        MsgOut {
            tag: EventType::Qframe,
            payload: Payload::Ctrl(EvCtrl { channel: 0, param: 0, value: d[0] as i32 }),
            ext: Option::None,
        }
    } else if status == 0xf2 {
        MsgOut {
            tag: EventType::Songpos,
            payload: Payload::Ctrl(EvCtrl { channel: 0, param: 0, value: (d[0] + 128 * d[1]) as i32 }),
            ext: Option::None,
        }
    } else {
        MsgOut {
            tag: EventType::Songsel,
            payload: Payload::Ctrl(EvCtrl { channel: 0, param: 0, value: d[0] as i32 }),
            ext: Option::None,
        }
    }
}

/// One byte of parsing. System-realtime bytes complete immediately and
/// leave the collection state alone, so they may interleave a
/// system-exclusive run. A status byte starts a new message, updating
/// the running status for channel-voice and cancelling it for system
/// common. A data byte extends the message in progress, or starts one
/// from the running status, or is refused as `Malformed` when there is
/// no status context at all. System-exclusive bytes collect into the
/// scratch buffer, bounded by its capacity.
pub open spec fn enc_step(st: EncState, c: u8) -> EncStep {
    if c >= 0xf8 {
        match realtime_msg(c) {
            Option::Some(m) => EncStep::Done(st, m),
            Option::None => EncStep::Next(st),
        }
    } else if c == 0xf7 {
        if st.in_sysex {
            if st.sysex.len() < st.cap {
                EncStep::Done(
                    (EncState { status: 0, pending: seq![], in_sysex: false, sysex: seq![], ..st }),
                    (MsgOut {
                        tag: EventType::Sysex,
                        payload: Payload::Empty,
                        ext: Option::Some(st.sysex.push(0xf7)),
                    }),
                )
            } else {
                EncStep::Fail(SeqError::BufferTooSmall)
            }
        } else {
            EncStep::Next(reset_parse(st))
        }
    } else if c == 0xf0 {
        if st.cap >= 1 {
            EncStep::Next(
                (EncState {
                    status: 0,
                    run: 0,
                    pending: seq![],
                    in_sysex: true,
                    sysex: seq![0xf0u8],
                    ..st
                }),
            )
        } else {
            EncStep::Fail(SeqError::BufferTooSmall)
        }
    } else if c >= 0xf0 {
        if c == 0xf6 {
            EncStep::Done(
                reset_parse(st),
                (MsgOut { tag: EventType::TuneRequest, payload: Payload::Empty, ext: Option::None }),
            )
        } else if c == 0xf1 || c == 0xf2 || c == 0xf3 {
            EncStep::Next(
                (EncState { status: c, run: 0, pending: seq![], in_sysex: false, sysex: seq![], ..st }),
            )
        } else {
            EncStep::Next(reset_parse(st))
        }
    } else if c >= 0x80 {
        EncStep::Next(
            (EncState { status: c, run: c, pending: seq![], in_sysex: false, sysex: seq![], ..st }),
        )
    } else {
        if st.in_sysex {
            if st.sysex.len() < st.cap {
                EncStep::Next((EncState { sysex: st.sysex.push(c), ..st }))
            } else {
                EncStep::Fail(SeqError::BufferTooSmall)
            }
        } else if st.status != 0 {
            if st.pending.len() + 1 >= needed(st.status) {
                EncStep::Done(
                    (EncState { status: 0, pending: seq![], ..st }),
                    make_msg(st.status, st.pending.push(c)),
                )
            } else {
                EncStep::Next((EncState { pending: st.pending.push(c), ..st }))
            }
        } else if st.run != 0 {
            if needed(st.run) == 1 {
                EncStep::Done(
                    (EncState { status: 0, pending: seq![], ..st }),
                    make_msg(st.run, seq![c]),
                )
            } else {
                EncStep::Next((EncState { status: st.run, pending: seq![c], ..st }))
            }
        } else {
            EncStep::Fail(SeqError::Malformed)
        }
    }
}

/// The parser folded over a byte sequence: consume bytes until a
/// message completes, a byte is refused, or the bytes run out.
pub open spec fn run_enc(st: EncState, bytes: Seq<u8>) -> EncRun
    decreases bytes.len(),
{
    if bytes.len() == 0 {
        EncRun { consumed: 0, st: st, out: Option::None, err: Option::None }
    } else {
        match enc_step(st, bytes[0]) {
            EncStep::Fail(e) => EncRun {
                consumed: 0,
                st: st,
                out: Option::None,
                err: Option::Some(e),
            },
            EncStep::Done(st2, m) => EncRun {
                consumed: 1,
                st: st2,
                out: Option::Some(m),
                err: Option::None,
            },
            EncStep::Next(st2) => {
                let r = run_enc(st2, bytes.skip(1));
                EncRun { consumed: 1 + r.consumed, st: r.st, out: r.out, err: r.err }
            },
        }
    }
}

/// Whether an event is the one a completed message describes: the
/// message's tag and payload on an otherwise blank event, with the
/// external bytes, if any, in a buffer flagged as borrowed from the
/// coder's scratch storage.
pub open spec fn event_matches_msg(ev: Event, m: MsgOut) -> bool {
    match m.ext {
        Option::Some(b) => {
            &&& (ev.ext matches Option::Some(eb) && eb.data@ == b && !eb.owned
                && eb.recorded_len == b.len() as u32)
            &&& ev == (Event { payload: m.payload, ext: ev.ext, ..Event::blank(m.tag) })
        },
        Option::None => ev == (Event { payload: m.payload, ..Event::blank(m.tag) }),
    }
}

/// The canonical wire bytes of an event, without running-status
/// elision; nothing for events that no single MIDI message expresses,
/// or whose field values lie outside the message's range.
pub open spec fn render_msg(ev: Event) -> Option<Seq<u8>> {
    match ev.payload {
        Payload::Note(n) => {
            if n.channel < 16 && n.note < 128 && n.velocity < 128 {
                if ev.etype == EventType::Noteon {
                    Option::Some(seq![(0x90 + n.channel) as u8, n.note, n.velocity])
                } else if ev.etype == EventType::Noteoff {
                    Option::Some(seq![(0x80 + n.channel) as u8, n.note, n.velocity])
                } else if ev.etype == EventType::Keypress {
                    Option::Some(seq![(0xa0 + n.channel) as u8, n.note, n.velocity])
                } else {
                    Option::None
                }
            } else {
                Option::None
            }
        },
        Payload::Ctrl(cc) => {
            if ev.etype == EventType::Controller {
                if cc.channel < 16 && cc.param < 128 && 0 <= cc.value < 128 {
                    Option::Some(seq![(0xb0 + cc.channel) as u8, cc.param as u8, cc.value as u8])
                } else {
                    Option::None
                }
            } else if ev.etype == EventType::Pgmchange {
                if cc.channel < 16 && 0 <= cc.value < 128 {
                    Option::Some(seq![(0xc0 + cc.channel) as u8, cc.value as u8])
                } else {
                    Option::None
                }
            } else if ev.etype == EventType::Chanpress {
                if cc.channel < 16 && 0 <= cc.value < 128 {
                    Option::Some(seq![(0xd0 + cc.channel) as u8, cc.value as u8])
                } else {
                    Option::None
                }
            } else if ev.etype == EventType::Pitchbend {
                if cc.channel < 16 && -8192 <= cc.value < 8192 {
                    Option::Some(
                        seq![
                            (0xe0 + cc.channel) as u8,
                            ((cc.value + 8192) % 128) as u8,
                            ((cc.value + 8192) / 128) as u8,
                        ],
                    )
                } else {
                    Option::None
                }
            } else if ev.etype == EventType::Qframe {
                if 0 <= cc.value < 128 {
                    Option::Some(seq![0xf1u8, cc.value as u8])
                } else {
                    Option::None
                }
            } else if ev.etype == EventType::Songpos {
                if 0 <= cc.value < 16384 {
                    Option::Some(seq![0xf2u8, (cc.value % 128) as u8, (cc.value / 128) as u8])
                } else {
                    Option::None
                }
            } else if ev.etype == EventType::Songsel {
                if 0 <= cc.value < 128 {
                    Option::Some(seq![0xf3u8, cc.value as u8])
                } else {
                    Option::None
                }
            } else {
                Option::None
            }
        },
        Payload::Empty => {
            if ev.etype == EventType::TuneRequest {
                Option::Some(seq![0xf6u8])
            } else if ev.etype == EventType::Sensing {
                Option::Some(seq![0xfeu8])
            } else if ev.etype == EventType::Reset {
                Option::Some(seq![0xffu8])
            } else if ev.etype == EventType::Sysex {
                match ev.ext_bytes() {
                    Option::Some(b) => Option::Some(b),
                    Option::None => Option::None,
                }
            } else {
                Option::None
            }
        },
        Payload::QueueEmpty(_) => {
            if ev.etype == EventType::Clock {
                Option::Some(seq![0xf8u8])
            } else if ev.etype == EventType::Start {
                Option::Some(seq![0xfau8])
            } else if ev.etype == EventType::Continue {
                Option::Some(seq![0xfbu8])
            } else if ev.etype == EventType::Stop {
                Option::Some(seq![0xfcu8])
            } else {
                Option::None
            }
        },
        _ => Option::None,
    }
}

/// The bytes put on the wire for a message: with running status
/// enabled, a channel-voice status byte equal to the last one emitted
/// is elided.
pub open spec fn wire_out(msg: Seq<u8>, enabled: bool, prev: u8) -> Seq<u8> {
    if enabled && msg.len() > 0 && voice_status(msg[0]) && msg[0] == prev {
        msg.skip(1)
    } else {
        msg
    }
}

/// The running-status byte remembered after a message goes out: a
/// channel-voice status is remembered, a system common or exclusive
/// message cancels it, and a realtime message leaves it alone.
pub open spec fn dec_last_after(msg: Seq<u8>, prev: u8) -> u8 {
    if msg.len() > 0 && voice_status(msg[0]) {
        msg[0]
    } else if msg.len() > 0 && msg[0] >= 0xf8 {
        prev
    } else {
        0
    }
}

/// The sequencer-event / MIDI-byte-stream coder. It owns the parsing
/// state, the running-status byte of each direction, and the scratch
/// capacity for system-exclusive collection.
#[derive(Debug)]
pub struct MidiEvent {
    /// Whether the byte-emitting side elides repeated status bytes.
    pub run_enabled: bool,
    /// Last channel-voice status emitted; 0 for none.
    pub dec_last: u8,
    /// Status of the message being parsed; 0 for none.
    pub status: u8,
    /// Running status for parsing; 0 for none.
    pub run: u8,
    /// Data bytes collected for the message being parsed.
    pub pending: Vec<u8>,
    /// Whether a system-exclusive message is being collected.
    pub in_sysex: bool,
    /// The scratch buffer holding the system-exclusive bytes collected.
    pub sysex: Vec<u8>,
    /// The scratch capacity; `encode` fails with `BufferTooSmall`
    /// rather than collect beyond it.
    pub cap: usize,
}

impl MidiEvent {
    /// The parsing side of this coder as a mathematical state.
    pub open spec fn enc_state(self) -> EncState {
        EncState {
            status: self.status,
            run: self.run,
            pending: self.pending@,
            in_sysex: self.in_sysex,
            sysex: self.sysex@,
            cap: self.cap as int,
        }
    }

    /// Well-formedness: the scratch stays within its capacity, which
    /// the record's length field can hold, and the statuses and
    /// collected bytes are consistent.
    pub open spec fn wf(self) -> bool {
        &&& self.cap <= u32::MAX
        &&& self.sysex@.len() <= self.cap
        &&& (self.status == 0 || voice_status(self.status) || self.status == 0xf1 || self.status
            == 0xf2 || self.status == 0xf3)
        &&& (self.status != 0 ==> self.pending@.len() < needed(self.status))
        &&& (self.status == 0 ==> self.pending@.len() == 0)
        &&& (self.run == 0 || voice_status(self.run))
    }

    /// Creates a coder whose scratch buffer can collect `bufsize`
    /// bytes of system-exclusive data, with running status enabled, as
    /// the raw MIDI wire convention has it.
    pub fn new(bufsize: u32) -> (r: Result<MidiEvent, SeqError>)
        ensures
            r matches Ok(c) && c.wf() && c.enc_state() == init_state(bufsize as int) && c.run_enabled
                && c.dec_last == 0 && c.cap == bufsize as usize,
    {
        let c = MidiEvent {
            run_enabled: true,
            dec_last: 0,
            status: 0,
            run: 0,
            pending: Vec::new(),
            in_sysex: false,
            sysex: Vec::new(),
            cap: bufsize as usize,
        };
        proof {
            assert(c.enc_state() == init_state(bufsize as int));
        }
        Ok(c)
    }

    /// Makes the scratch buffer able to hold `bufsize` bytes. Any
    /// message in progress is abandoned and both running-status bytes
    /// are cleared, as after `new`.
    pub fn resize_buffer(&mut self, bufsize: u32) -> (r: Result<(), SeqError>)
        ensures
            r == Ok::<(), SeqError>(()),
            final(self).wf(),
            final(self).enc_state() == init_state(bufsize as int),
            final(self).run_enabled == old(self).run_enabled,
            final(self).dec_last == 0,
    {
        self.status = 0;
        self.run = 0;
        self.pending = Vec::new();
        self.in_sysex = false;
        self.sysex = Vec::new();
        self.cap = bufsize as usize;
        self.dec_last = 0;
        proof {
            assert(self.enc_state() == init_state(bufsize as int));
        }
        Ok(())
    }

    /// Toggles the running-status optimization of the byte-emitting
    /// side. Enabled by default; parsing always honours running status
    /// in its input, as any wire-correct reader must.
    pub fn enable_running_status(&mut self, enable: bool)
        ensures
            *final(self) == (MidiEvent { run_enabled: enable, ..*old(self) }),
    {
        self.run_enabled = enable;
    }

    /// Feeds one byte to the parser, performing `enc_step`.
    fn step_byte(&mut self, c: u8) -> (r: Result<Option<Event>, SeqError>)
        requires
            old(self).wf(),
        ensures
            final(self).wf(),
            final(self).run_enabled == old(self).run_enabled,
            final(self).dec_last == old(self).dec_last,
            final(self).cap == old(self).cap,
            match enc_step(old(self).enc_state(), c) {
                EncStep::Next(st2) => {
                    &&& r == Ok::<Option<Event>, SeqError>(Option::None)
                    &&& final(self).enc_state() == st2
                },
                EncStep::Done(st2, m) => {
                    &&& r matches Ok(Option::Some(ev)) && event_matches_msg(ev, m) && ev.wf()
                    &&& final(self).enc_state() == st2
                },
                EncStep::Fail(e) => {
                    &&& r == Err::<Option<Event>, SeqError>(e)
                    &&& *final(self) == *old(self)
                },
            },
    {
        if c >= 0xf8 {
            if c == 0xf8 {
                Ok(Option::Some(fresh_event(EventType::Clock, Payload::QueueEmpty(EvQueueControl { queue: 0, value: () }))))
            } else if c == 0xfa {
                Ok(Option::Some(fresh_event(EventType::Start, Payload::QueueEmpty(EvQueueControl { queue: 0, value: () }))))
            } else if c == 0xfb {
                Ok(Option::Some(fresh_event(EventType::Continue, Payload::QueueEmpty(EvQueueControl { queue: 0, value: () }))))
            } else if c == 0xfc {
                Ok(Option::Some(fresh_event(EventType::Stop, Payload::QueueEmpty(EvQueueControl { queue: 0, value: () }))))
            } else if c == 0xfe {
                Ok(Option::Some(fresh_event(EventType::Sensing, Payload::Empty)))
            } else if c == 0xff {
                Ok(Option::Some(fresh_event(EventType::Reset, Payload::Empty)))
            } else {
                Ok(Option::None)
            }
        } else if c == 0xf7 {
            if self.in_sysex {
                if self.sysex.len() < self.cap {
                    let n = self.sysex.len();
                    let mut out: Vec<u8> = Vec::new();
                    let mut j: usize = 0;
                    while j < n
                        invariant
                            j <= n,
                            n == self.sysex@.len(),
                            out@ == self.sysex@.take(j as int),
                        decreases n - j,
                    {
                        out.push(self.sysex[j]);
                        j = j + 1;
                        proof {
                            assert(out@ =~= self.sysex@.take(j as int));
                        }
                    }
                    proof {
                        assert(out@ =~= self.sysex@);
                    }
                    out.push(0xf7);
                    let rl: u32 = out.len() as u32;
                    let ev = Event {
                        etype: EventType::Sysex,
                        source: Addr { client: 0, port: 0 },
                        dest: Addr { client: 0, port: 0 },
                        queue: 0,
                        tag: 0,
                        priority: false,
                        relative: false,
                        timestamp: Timestamp::Tick(0),
                        payload: Payload::Empty,
                        ext: Option::Some(ExtBuf { data: out, owned: false, recorded_len: rl }),
                    };
                    self.status = 0;
                    self.pending.clear();
                    self.in_sysex = false;
                    self.sysex.clear();
                    proof {
                        assert(self.enc_state() =~= (EncState {
                            status: 0,
                            pending: seq![],
                            in_sysex: false,
                            sysex: seq![],
                            ..old(self).enc_state()
                        }));
                    }
                    Ok(Option::Some(ev))
                } else {
                    Err(SeqError::BufferTooSmall)
                }
            } else {
                self.status = 0;
                self.run = 0;
                self.pending.clear();
                self.in_sysex = false;
                self.sysex.clear();
                proof {
                    assert(self.enc_state() =~= reset_parse(old(self).enc_state()));
                }
                Ok(Option::None)
            }
        } else if c == 0xf0 {
            if self.cap >= 1 {
                self.status = 0;
                self.run = 0;
                self.pending.clear();
                self.in_sysex = true;
                self.sysex.clear();
                self.sysex.push(0xf0);
                proof {
                    assert(self.enc_state() =~= (EncState {
                        status: 0,
                        run: 0,
                        pending: seq![],
                        in_sysex: true,
                        sysex: seq![0xf0u8],
                        ..old(self).enc_state()
                    }));
                }
                Ok(Option::None)
            } else {
                Err(SeqError::BufferTooSmall)
            }
        } else if c >= 0xf0 {
            if c == 0xf6 {
                self.status = 0;
                self.run = 0;
                self.pending.clear();
                self.in_sysex = false;
                self.sysex.clear();
                proof {
                    assert(self.enc_state() =~= reset_parse(old(self).enc_state()));
                }
                Ok(Option::Some(fresh_event(EventType::TuneRequest, Payload::Empty)))
            } else if c == 0xf1 || c == 0xf2 || c == 0xf3 {
                self.status = c;
                self.run = 0;
                self.pending.clear();
                self.in_sysex = false;
                self.sysex.clear();
                proof {
                    assert(self.enc_state() =~= (EncState {
                        status: c,
                        run: 0,
                        pending: seq![],
                        in_sysex: false,
                        sysex: seq![],
                        ..old(self).enc_state()
                    }));
                }
                Ok(Option::None)
            } else {
                self.status = 0;
                self.run = 0;
                self.pending.clear();
                self.in_sysex = false;
                self.sysex.clear();
                proof {
                    assert(self.enc_state() =~= reset_parse(old(self).enc_state()));
                }
                Ok(Option::None)
            }
        } else if c >= 0x80 {
            self.status = c;
            self.run = c;
            self.pending.clear();
            self.in_sysex = false;
            self.sysex.clear();
            proof {
                assert(self.enc_state() =~= (EncState {
                    status: c,
                    run: c,
                    pending: seq![],
                    in_sysex: false,
                    sysex: seq![],
                    ..old(self).enc_state()
                }));
            }
            Ok(Option::None)
        } else {
            if self.in_sysex {
                if self.sysex.len() < self.cap {
                    self.sysex.push(c);
                    proof {
                        assert(self.enc_state() =~= (EncState {
                            sysex: old(self).enc_state().sysex.push(c),
                            ..old(self).enc_state()
                        }));
                    }
                    Ok(Option::None)
                } else {
                    Err(SeqError::BufferTooSmall)
                }
            } else if self.status != 0 {
                let status = self.status;
                let need_two: bool = !((status >= 0xc0 && status < 0xe0) || status == 0xf1
                    || status == 0xf3);
                if self.pending.len() == 0 && need_two {
                    self.pending.push(c);
                    proof {
                        assert(self.enc_state() =~= (EncState {
                            pending: old(self).enc_state().pending.push(c),
                            ..old(self).enc_state()
                        }));
                    }
                    Ok(Option::None)
                } else {
                    let d0: u8 = if need_two {
                        self.pending[0]
                    } else {
                        c
                    };
                    let d1: u8 = c;
                    let ghost d = old(self).enc_state().pending.push(c);
                    let ev = complete_msg_event(status, d0, d1, Ghost(d));
                    self.status = 0;
                    self.pending.clear();
                    proof {
                        assert(self.enc_state() =~= (EncState {
                            status: 0,
                            pending: seq![],
                            ..old(self).enc_state()
                        }));
                    }
                    Ok(Option::Some(ev))
                }
            } else if self.run != 0 {
                let status = self.run;
                let need_two: bool = !((status >= 0xc0 && status < 0xe0) || status == 0xf1
                    || status == 0xf3);
                if need_two {
                    self.status = status;
                    self.pending.push(c);
                    proof {
                        assert(self.enc_state() =~= (EncState {
                            status: status,
                            pending: seq![c],
                            ..old(self).enc_state()
                        }));
                    }
                    Ok(Option::None)
                } else {
                    let ghost dd: Seq<u8> = seq![c];
                    let ev = complete_msg_event(status, c, c, Ghost(dd));
                    proof {
                        assert(self.enc_state() =~= (EncState {
                            status: 0,
                            pending: seq![],
                            ..old(self).enc_state()
                        }));
                    }
                    Ok(Option::Some(ev))
                }
            } else {
                Err(SeqError::Malformed)
            }
        }
    }

    /// Consumes a prefix of `buf`, parsing one MIDI message with the
    /// running-status context. Returns how many bytes were consumed
    /// and, once a message is complete, the event describing it; a
    /// count with no event means the bytes ran out before the message
    /// was complete, and the caller supplies more bytes to go on. The
    /// returned event's buffer, if any, is flagged as borrowing the
    /// coder's scratch storage: it is valid only until the coder is
    /// touched again. Fails with `Malformed` on a data byte with no
    /// status context, and with `BufferTooSmall` when system-exclusive
    /// data would overrun the scratch capacity.
    pub fn encode(&mut self, buf: &[u8]) -> (r: Result<(usize, Option<Event>), SeqError>)
        requires
            old(self).wf(),
        ensures
            final(self).wf(),
            final(self).run_enabled == old(self).run_enabled,
            final(self).dec_last == old(self).dec_last,
            ({
                let runr = run_enc(old(self).enc_state(), buf@);
                match r {
                    Ok(p) => {
                        &&& runr.err is None
                        &&& p.0 == runr.consumed
                        &&& final(self).enc_state() == runr.st
                        &&& (match runr.out {
                            Option::Some(m) => p.1 matches Option::Some(ev) && event_matches_msg(
                                ev,
                                m,
                            ) && ev.wf(),
                            Option::None => p.1 is None && p.0 == buf@.len(),
                        })
                    },
                    Err(e) => runr.err == Option::Some(e) && final(self).enc_state() == runr.st,
                }
            }),
    {
        proof {
            assert(buf@.skip(0) =~= buf@);
        }
        let mut i: usize = 0;
        while i < buf.len()
            invariant
                i <= buf@.len(),
                self.wf(),
                self.run_enabled == old(self).run_enabled,
                self.dec_last == old(self).dec_last,
                run_enc(old(self).enc_state(), buf@).consumed == i + run_enc(
                    self.enc_state(),
                    buf@.skip(i as int),
                ).consumed,
                run_enc(old(self).enc_state(), buf@).st == run_enc(
                    self.enc_state(),
                    buf@.skip(i as int),
                ).st,
                run_enc(old(self).enc_state(), buf@).out == run_enc(
                    self.enc_state(),
                    buf@.skip(i as int),
                ).out,
                run_enc(old(self).enc_state(), buf@).err == run_enc(
                    self.enc_state(),
                    buf@.skip(i as int),
                ).err,
            decreases buf@.len() - i,
        {
            let c = buf[i];
            proof {
                assert(buf@.skip(i as int).len() > 0);
                assert(buf@.skip(i as int)[0] == buf@[i as int]);
            }
            let res = self.step_byte(c);
            match res {
                Ok(opt) => match opt {
                    Option::None => {
                        proof {
                            assert(buf@.skip(i as int).skip(1) =~= buf@.skip(i as int + 1));
                        }
                        i = i + 1;
                    },
                    Option::Some(ev) => {
                        return Ok((i + 1, Option::Some(ev)));
                    },
                },
                Err(e) => {
                    return Err(e);
                },
            }
        }
        proof {
            assert(buf@.skip(i as int).len() == 0);
        }
        Ok((i, Option::None))
    }

    /// Converts one event to MIDI wire bytes, writing them over the
    /// front of `buf` and returning how many were written. The event's
    /// recorded buffer length is resynchronized first. With running
    /// status enabled, a channel-voice status byte equal to the last
    /// one emitted is elided. Fails with `Unsupported` when no single
    /// MIDI message expresses the event, and with `BufferTooSmall`,
    /// writing nothing, when the message does not fit in `buf`.
    pub fn decode(&mut self, buf: &mut Vec<u8>, ev: &mut Event) -> (r: Result<usize, SeqError>)
        requires
            old(ev).wf(),
            old(self).wf(),
        ensures
            final(ev).wf(),
            *final(ev) == old(ev).synced_form(),
            final(self).wf(),
            final(self).enc_state() == old(self).enc_state(),
            final(self).run_enabled == old(self).run_enabled,
            ({
                let m = render_msg(*old(ev));
                match m {
                    Option::None => {
                        &&& r == Err::<usize, SeqError>(SeqError::Unsupported)
                        &&& final(buf)@ == old(buf)@
                        &&& final(self).dec_last == old(self).dec_last
                    },
                    Option::Some(msg) => {
                        let out = wire_out(msg, old(self).run_enabled, old(self).dec_last);
                        if out.len() > old(buf)@.len() {
                            &&& r == Err::<usize, SeqError>(SeqError::BufferTooSmall)
                            &&& final(buf)@ == old(buf)@
                            &&& final(self).dec_last == old(self).dec_last
                        } else {
                            &&& r == Ok::<usize, SeqError>(out.len() as usize)
                            &&& final(buf)@ == out + old(buf)@.skip(out.len() as int)
                            &&& final(self).dec_last == dec_last_after(msg, old(self).dec_last)
                        }
                    },
                }
            }),
    {
        ev.ensure_buf();
        proof {
            lemma_render_synced(*old(ev));
        }
        let msg: Vec<u8> = match render_event(ev) {
            Ok(v) => v,
            Err(e) => {
                return Err(e);
            },
        };
        let elide: bool = if msg.len() > 0 {
            let f = msg[0];
            self.run_enabled && f >= 0x80 && f < 0xf0 && f == self.dec_last
        } else {
            false
        };
        let start: usize = if elide {
            1
        } else {
            0
        };
        let n = msg.len() - start;
        proof {
            assert(msg@.skip(0) =~= msg@);
            assert(wire_out(msg@, self.run_enabled, self.dec_last) == msg@.skip(start as int));
        }
        if n > buf.len() {
            return Err(SeqError::BufferTooSmall);
        }
        let mut nb: Vec<u8> = Vec::new();
        let mut j: usize = start;
        while j < msg.len()
            invariant
                start <= j <= msg@.len(),
                nb@ == msg@.subrange(start as int, j as int),
            decreases msg@.len() - j,
        {
            nb.push(msg[j]);
            j = j + 1;
            proof {
                assert(nb@ =~= msg@.subrange(start as int, j as int));
            }
        }
        proof {
            assert(nb@ =~= msg@.skip(start as int));
        }
        let mut k: usize = n;
        while k < buf.len()
            invariant
                n <= k <= buf@.len(),
                n == msg@.len() - start,
                start <= msg@.len(),
                nb@ == msg@.skip(start as int) + buf@.subrange(n as int, k as int),
            decreases buf@.len() - k,
        {
            nb.push(buf[k]);
            k = k + 1;
            proof {
                assert(nb@ =~= msg@.skip(start as int) + buf@.subrange(n as int, k as int));
            }
        }
        proof {
            assert(nb@ =~= msg@.skip(start as int) + buf@.skip(n as int));
        }
        *buf = nb;
        if msg.len() > 0 {
            let f = msg[0];
            if f >= 0x80 && f < 0xf0 {
                self.dec_last = f;
            } else if f >= 0xf8 {
            } else {
                self.dec_last = 0;
            }
        } else {
            self.dec_last = 0;
        }
        Ok(n)
    }
}

/// Round trip: the wire bytes of a note-on event, fed to a parser with
/// no message in progress and no running status, are consumed whole --
/// all three -- and complete a note-on message carrying the same note
/// payload. The wire holds channel, note and velocity only, so the law
/// speaks of payloads whose off-velocity and duration are zero.
pub proof fn lemma_note_on_roundtrip(ev: Event, n: EvNote, cap: int)
    requires
        ev.etype == EventType::Noteon,
        ev.payload == Payload::Note(n),
        n.channel < 16,
        n.note < 128,
        n.velocity < 128,
        n.off_velocity == 0,
        n.duration == 0,
    ensures
        render_msg(ev) == Option::Some(seq![(0x90 + n.channel) as u8, n.note, n.velocity]),
        ({
            let r = run_enc(init_state(cap), seq![(0x90 + n.channel) as u8, n.note, n.velocity]);
            &&& r.err is None
            &&& r.consumed == 3
            &&& r.out == Option::Some(
                MsgOut { tag: EventType::Noteon, payload: Payload::Note(n), ext: Option::None },
            )
        }),
{
    let c0: u8 = (0x90 + n.channel) as u8;
    let msg: Seq<u8> = seq![c0, n.note, n.velocity];
    let st0 = init_state(cap);
    let st1 = EncState {
        status: c0,
        run: c0,
        pending: seq![],
        in_sysex: false,
        sysex: seq![],
        cap: cap,
    };
    let st2 = EncState { pending: seq![n.note], ..st1 };
    assert(0x90 <= c0 < 0xa0);
    assert(enc_step(st0, msg[0]) == EncStep::Next(st1)) by {
        assert((EncState {
            status: c0,
            run: c0,
            pending: seq![],
            in_sysex: false,
            sysex: seq![],
            ..st0
        }) =~= st1);
    }
    assert(enc_step(st1, n.note) == EncStep::Next(st2)) by {
        assert(needed(c0) == 2);
        assert((EncState { pending: st1.pending.push(n.note), ..st1 }) =~= st2);
    }
    let d = st2.pending.push(n.velocity);
    assert(d =~= seq![n.note, n.velocity]);
    let m = make_msg(c0, d);
    assert(m.tag == EventType::Noteon);
    assert((c0 - 0x90) as u8 == n.channel);
    assert(m.payload == Payload::Note(n));
    assert(enc_step(st2, n.velocity) == EncStep::Done(
        (EncState { status: 0, pending: seq![], ..st2 }),
        m,
    )) by {
        assert(needed(c0) == 2);
        assert(st2.pending.len() + 1 >= 2);
    }
    let tail2: Seq<u8> = seq![n.velocity];
    let r2 = run_enc(st2, tail2);
    assert(r2.consumed == 1 && r2.err is None && r2.out == Option::Some(m));
    let tail1: Seq<u8> = seq![n.note, n.velocity];
    assert(tail1.skip(1) =~= tail2);
    let r1 = run_enc(st1, tail1);
    assert(r1.consumed == 2 && r1.err is None && r1.out == Option::Some(m));
    assert(msg.skip(1) =~= tail1);
    let r0 = run_enc(st0, msg);
    assert(r0.consumed == 3 && r0.err is None && r0.out == Option::Some(m));
}

/// While a system-exclusive run is being collected, data bytes
/// accumulate in order, and the terminating byte completes a message
/// carrying everything collected: the bytes already in the scratch,
/// the run, and the terminator.
pub proof fn lemma_sysex_collect(st: EncState, mid: Seq<u8>)
    requires
        st.in_sysex,
        forall|k: int| 0 <= k < mid.len() ==> mid[k] < 0x80,
        st.sysex.len() + mid.len() < st.cap,
    ensures
        ({
            let r = run_enc(st, mid + seq![0xf7u8]);
            &&& r.err is None
            &&& r.consumed == mid.len() + 1
            &&& (r.out matches Option::Some(m) && m.tag == EventType::Sysex && m.payload
                == Payload::Empty && m.ext == Option::Some(st.sysex + mid + seq![0xf7u8]))
        }),
    decreases mid.len(),
{
    let bytes = mid + seq![0xf7u8];
    if mid.len() == 0 {
        assert(bytes[0] == 0xf7);
        assert(st.sysex.len() < st.cap);
        assert(st.sysex.push(0xf7) =~= st.sysex + mid + seq![0xf7u8]);
    } else {
        let c = mid[0];
        assert(bytes[0] == c && c < 0x80);
        let st2 = EncState { sysex: st.sysex.push(c), ..st };
        assert(st.sysex.len() < st.cap);
        assert(enc_step(st, c) == EncStep::Next(st2));
        let mid2 = mid.skip(1);
        assert forall|k: int| 0 <= k < mid2.len() implies mid2[k] < 0x80 by {
            assert(mid2[k] == mid[k + 1]);
        }
        lemma_sysex_collect(st2, mid2);
        assert(bytes.skip(1) =~= mid2 + seq![0xf7u8]);
        assert(st2.sysex + mid2 + seq![0xf7u8] =~= st.sysex + mid + seq![0xf7u8]);
    }
}

/// Round trip: a complete system-exclusive message, fed to a parser
/// with nothing in progress and enough scratch capacity, is consumed
/// whole, and the event's external data reproduces the message
/// byte-identically, terminators included.
pub proof fn lemma_sysex_roundtrip(bytes: Seq<u8>, cap: int)
    requires
        bytes.len() >= 2,
        bytes[0] == 0xf0,
        bytes[bytes.len() - 1] == 0xf7,
        forall|k: int| 0 < k < bytes.len() - 1 ==> bytes[k] < 0x80,
        bytes.len() <= cap,
    ensures
        ({
            let r = run_enc(init_state(cap), bytes);
            &&& r.err is None
            &&& r.consumed == bytes.len()
            &&& (r.out matches Option::Some(m) && m.tag == EventType::Sysex && m.payload
                == Payload::Empty && m.ext == Option::Some(bytes))
        }),
{
    let st0 = init_state(cap);
    let st1 = EncState {
        status: 0,
        run: 0,
        pending: seq![],
        in_sysex: true,
        sysex: seq![0xf0u8],
        cap: cap,
    };
    assert(enc_step(st0, 0xf0) == EncStep::Next(st1)) by {
        assert((EncState {
            status: 0,
            run: 0,
            pending: seq![],
            in_sysex: true,
            sysex: seq![0xf0u8],
            ..st0
        }) =~= st1);
    }
    let mid = bytes.subrange(1, bytes.len() - 1);
    assert forall|k: int| 0 <= k < mid.len() implies mid[k] < 0x80 by {
        assert(mid[k] == bytes[k + 1]);
    }
    lemma_sysex_collect(st1, mid);
    assert(bytes.skip(1) =~= mid + seq![0xf7u8]);
    assert(st1.sysex + mid + seq![0xf7u8] =~= bytes);
}

/// A blank event of the given tag carrying the given payload.
fn fresh_event(t: EventType, p: Payload) -> (ev: Event)
    ensures
        ev == (Event { payload: p, ..Event::blank(t) }),
{
    Event {
        etype: t,
        source: Addr { client: 0, port: 0 },
        dest: Addr { client: 0, port: 0 },
        queue: 0,
        tag: 0,
        priority: false,
        relative: false,
        timestamp: Timestamp::Tick(0),
        payload: p,
        ext: Option::None,
    }
}

/// The event for a message completed from a status byte and its data
/// bytes: `d` are the data bytes, of which `d0` is the first and `d1`
/// the second where the message has two.
fn complete_msg_event(status: u8, d0: u8, d1: u8, Ghost(d): Ghost<Seq<u8>>) -> (ev: Event)
    requires
        voice_status(status) || status == 0xf1 || status == 0xf2 || status == 0xf3,
        d.len() == needed(status),
        d[0] == d0,
        d.len() == 2 ==> d[1] == d1,
    ensures
        event_matches_msg(ev, make_msg(status, d)),
        ev.wf(),
{
    if status < 0x90 {
        fresh_event(
            EventType::Noteoff,
            Payload::Note(
                EvNote {
                    channel: status - 0x80,
                    note: d0,
                    velocity: d1,
                    off_velocity: 0,
                    duration: 0,
                },
            ),
        )
    } else if status < 0xa0 {
        fresh_event(
            EventType::Noteon,
            Payload::Note(
                EvNote {
                    channel: status - 0x90,
                    note: d0,
                    velocity: d1,
                    off_velocity: 0,
                    duration: 0,
                },
            ),
        )
    } else if status < 0xb0 {
        fresh_event(
            EventType::Keypress,
            Payload::Note(
                EvNote {
                    channel: status - 0xa0,
                    note: d0,
                    velocity: d1,
                    off_velocity: 0,
                    duration: 0,
                },
            ),
        )
    } else if status < 0xc0 {
        fresh_event(
            EventType::Controller,
            Payload::Ctrl(EvCtrl { channel: status - 0xb0, param: d0 as u32, value: d1 as i32 }),
        )
    } else if status < 0xd0 {
        fresh_event(
            EventType::Pgmchange,
            Payload::Ctrl(EvCtrl { channel: status - 0xc0, param: 0, value: d0 as i32 }),
        )
    } else if status < 0xe0 {
        fresh_event(
            EventType::Chanpress,
            Payload::Ctrl(EvCtrl { channel: status - 0xd0, param: 0, value: d0 as i32 }),
        )
    } else if status < 0xf0 {
        let v: i32 = (d0 as i32) + 128 * (d1 as i32) - 8192;
        fresh_event(
            EventType::Pitchbend,
            Payload::Ctrl(EvCtrl { channel: status - 0xe0, param: 0, value: v }),
        )
    } else if status == 0xf1 {
        fresh_event(
            EventType::Qframe,
            Payload::Ctrl(EvCtrl { channel: 0, param: 0, value: d0 as i32 }),
        )
    } else if status == 0xf2 {
        let v: i32 = (d0 as i32) + 128 * (d1 as i32);
        fresh_event(EventType::Songpos, Payload::Ctrl(EvCtrl { channel: 0, param: 0, value: v }))
    } else {
        fresh_event(
            EventType::Songsel,
            Payload::Ctrl(EvCtrl { channel: 0, param: 0, value: d0 as i32 }),
        )
    }
}

/// Resynchronizing the recorded buffer length does not change what an
/// event renders to: rendering reads the tag, the payload and the
/// buffer bytes, none of which the resynchronization touches.
proof fn lemma_render_synced(e: Event)
    ensures
        render_msg(e.synced_form()) == render_msg(e),
{
    assert(e.synced_form().payload == e.payload);
    assert(e.synced_form().etype == e.etype);
    assert(e.synced_form().ext_bytes() == e.ext_bytes());
}

/// Renders one event to its full message bytes, without elision.
fn render_event(ev: &Event) -> (r: Result<Vec<u8>, SeqError>)
    requires
        ev.wf(),
    ensures
        match r {
            Ok(v) => render_msg(*ev) == Option::Some(v@),
            Err(e) => e == SeqError::Unsupported && render_msg(*ev) is None,
        },
{
    match &ev.payload {
        Payload::Note(n) => {
            if n.channel < 16 && n.note < 128 && n.velocity < 128 {
                let sb: u8 = if ev.etype == EventType::Noteon {
                    0x90
                } else if ev.etype == EventType::Noteoff {
                    0x80
                } else if ev.etype == EventType::Keypress {
                    0xa0
                } else {
                    return Err(SeqError::Unsupported);
                };
                let mut v: Vec<u8> = Vec::new();
                v.push(sb + n.channel);
                v.push(n.note);
                v.push(n.velocity);
                proof {
                    assert(v@ =~= seq![(sb + n.channel) as u8, n.note, n.velocity]);
                }
                Ok(v)
            } else {
                Err(SeqError::Unsupported)
            }
        },
        Payload::Ctrl(cc) => {
            let cc = *cc;
            if ev.etype == EventType::Controller {
                if cc.channel < 16 && cc.param < 128 && 0 <= cc.value && cc.value < 128 {
                    let mut v: Vec<u8> = Vec::new();
                    v.push(0xb0 + cc.channel);
                    v.push(cc.param as u8);
                    v.push(cc.value as u8);
                    proof {
                        assert(v@ =~= seq![
                            (0xb0 + cc.channel) as u8,
                            cc.param as u8,
                            cc.value as u8,
                        ]);
                    }
                    Ok(v)
                } else {
                    Err(SeqError::Unsupported)
                }
            } else if ev.etype == EventType::Pgmchange {
                if cc.channel < 16 && 0 <= cc.value && cc.value < 128 {
                    let mut v: Vec<u8> = Vec::new();
                    v.push(0xc0 + cc.channel);
                    v.push(cc.value as u8);
                    proof {
                        assert(v@ =~= seq![(0xc0 + cc.channel) as u8, cc.value as u8]);
                    }
                    Ok(v)
                } else {
                    Err(SeqError::Unsupported)
                }
            } else if ev.etype == EventType::Chanpress {
                if cc.channel < 16 && 0 <= cc.value && cc.value < 128 {
                    let mut v: Vec<u8> = Vec::new();
                    v.push(0xd0 + cc.channel);
                    v.push(cc.value as u8);
                    proof {
                        assert(v@ =~= seq![(0xd0 + cc.channel) as u8, cc.value as u8]);
                    }
                    Ok(v)
                } else {
                    Err(SeqError::Unsupported)
                }
            } else if ev.etype == EventType::Pitchbend {
                if cc.channel < 16 && -8192 <= cc.value && cc.value < 8192 {
                    let shifted: i32 = cc.value + 8192;
                    let lsb: u8 = (shifted % 128) as u8;
                    let msb: u8 = (shifted / 128) as u8;
                    let mut v: Vec<u8> = Vec::new();
                    v.push(0xe0 + cc.channel);
                    v.push(lsb);
                    v.push(msb);
                    proof {
                        assert(v@ =~= seq![
                            (0xe0 + cc.channel) as u8,
                            ((cc.value + 8192) % 128) as u8,
                            ((cc.value + 8192) / 128) as u8,
                        ]);
                    }
                    Ok(v)
                } else {
                    Err(SeqError::Unsupported)
                }
            } else if ev.etype == EventType::Qframe {
                if 0 <= cc.value && cc.value < 128 {
                    let mut v: Vec<u8> = Vec::new();
                    v.push(0xf1);
                    v.push(cc.value as u8);
                    proof {
                        assert(v@ =~= seq![0xf1u8, cc.value as u8]);
                    }
                    Ok(v)
                } else {
                    Err(SeqError::Unsupported)
                }
            } else if ev.etype == EventType::Songpos {
                if 0 <= cc.value && cc.value < 16384 {
                    let lsb: u8 = (cc.value % 128) as u8;
                    let msb: u8 = (cc.value / 128) as u8;
                    let mut v: Vec<u8> = Vec::new();
                    v.push(0xf2);
                    v.push(lsb);
                    v.push(msb);
                    proof {
                        assert(v@ =~= seq![
                            0xf2u8,
                            (cc.value % 128) as u8,
                            (cc.value / 128) as u8,
                        ]);
                    }
                    Ok(v)
                } else {
                    Err(SeqError::Unsupported)
                }
            } else if ev.etype == EventType::Songsel {
                if 0 <= cc.value && cc.value < 128 {
                    let mut v: Vec<u8> = Vec::new();
                    v.push(0xf3);
                    v.push(cc.value as u8);
                    proof {
                        assert(v@ =~= seq![0xf3u8, cc.value as u8]);
                    }
                    Ok(v)
                } else {
                    Err(SeqError::Unsupported)
                }
            } else {
                Err(SeqError::Unsupported)
            }
        },
        Payload::Empty => {
            if ev.etype == EventType::TuneRequest {
                let mut v: Vec<u8> = Vec::new();
                v.push(0xf6);
                proof {
                    assert(v@ =~= seq![0xf6u8]);
                }
                Ok(v)
            } else if ev.etype == EventType::Sensing {
                let mut v: Vec<u8> = Vec::new();
                v.push(0xfe);
                proof {
                    assert(v@ =~= seq![0xfeu8]);
                }
                Ok(v)
            } else if ev.etype == EventType::Reset {
                let mut v: Vec<u8> = Vec::new();
                v.push(0xff);
                proof {
                    assert(v@ =~= seq![0xffu8]);
                }
                Ok(v)
            } else if ev.etype == EventType::Sysex {
                match &ev.ext {
                    Option::Some(b) => {
                        let n = b.data.len();
                        let mut v: Vec<u8> = Vec::new();
                        let mut j: usize = 0;
                        while j < n
                            invariant
                                j <= n,
                                n == b.data@.len(),
                                v@ == b.data@.take(j as int),
                            decreases n - j,
                        {
                            v.push(b.data[j]);
                            j = j + 1;
                            proof {
                                assert(v@ =~= b.data@.take(j as int));
                            }
                        }
                        proof {
                            assert(v@ =~= b.data@);
                        }
                        Ok(v)
                    },
                    Option::None => {
                        proof {
                            assert(false);
                        }
                        Err(SeqError::Unsupported)
                    },
                }
            } else {
                Err(SeqError::Unsupported)
            }
        },
        Payload::QueueEmpty(_) => {
            let sb: u8 = if ev.etype == EventType::Clock {
                0xf8
            } else if ev.etype == EventType::Start {
                0xfa
            } else if ev.etype == EventType::Continue {
                0xfb
            } else if ev.etype == EventType::Stop {
                0xfc
            } else {
                return Err(SeqError::Unsupported);
            };
            let mut v: Vec<u8> = Vec::new();
            v.push(sb);
            proof {
                assert(v@ =~= seq![sb]);
            }
            Ok(v)
        },
        _ => Err(SeqError::Unsupported),
    }
}

} // verus!
