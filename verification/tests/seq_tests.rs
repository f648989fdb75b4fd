use midi_seq::addr::Addr;
use midi_seq::codec::MidiEvent;
use midi_seq::event::Event;
use midi_seq::input::InputChannel;
use midi_seq::payload::{Connect, EvCtrl, EvNote, EvQueueControl, EvResult, EventData, Payload, TimeSpec};
use midi_seq::tag::EventType;
use midi_seq::SeqError;

#[test]
fn seq_encode_sysex() {
    let mut me = MidiEvent::new(16).unwrap();
    let sysex = &[0xf0, 1, 2, 3, 4, 5, 6, 7, 0xf7];
    let (s, ev) = me.encode(sysex).unwrap();
    assert_eq!(s, 9);
    let ev = ev.unwrap();
    let v = ev.get_ext().unwrap();
    assert_eq!(&v[..], &sysex[..]);
}

#[test]
fn seq_decode_sysex() {
    let sysex = [0xf0, 1, 2, 3, 4, 5, 6, 7, 0xf7];
    let mut ev = Event::new_ext(EventType::Sysex, sysex.to_vec());
    let mut me = MidiEvent::new(0).unwrap();
    let mut buffer = vec![0; sysex.len()];
    assert_eq!(me.decode(&mut buffer, &mut ev).unwrap(), sysex.len());
    assert_eq!(buffer, sysex);
}

#[test]
fn seq_has_data() {
    for v in EventType::all() {
        let mut i = 0;
        if <() as EventData>::has_data(v) {
            i += 1;
        }
        if <[u8; 12] as EventData>::has_data(v) {
            i += 1;
        }
        if Event::has_ext_data(v) {
            i += 1;
        }
        if EvNote::has_data(v) {
            i += 1;
        }
        if EvCtrl::has_data(v) {
            i += 1;
        }
        if Addr::has_data(v) {
            i += 1;
        }
        if Connect::has_data(v) {
            i += 1;
        }
        if EvResult::has_data(v) {
            i += 1;
        }
        if EvQueueControl::<()>::has_data(v) {
            i += 1;
        }
        if EvQueueControl::<u32>::has_data(v) {
            i += 1;
        }
        if EvQueueControl::<i32>::has_data(v) {
            i += 1;
        }
        if EvQueueControl::<TimeSpec>::has_data(v) {
            i += 1;
        }
        if i != 1 {
            panic!("{:?}: {} has_data", v, i)
        }
    }
}

#[test]
fn note_on_codec_roundtrip() {
    let note = EvNote { channel: 0, note: 64, velocity: 100, off_velocity: 0, duration: 0 };
    let mut ev = Event::new(EventType::Noteon, &note);
    let mut me = MidiEvent::new(16).unwrap();
    let mut buf = vec![0u8; 8];
    let n = me.decode(&mut buf, &mut ev).unwrap();
    assert_eq!(n, 3);
    assert_eq!(&buf[..3], &[0x90, 64, 100]);
    let (consumed, out) = me.encode(&buf[..3]).unwrap();
    assert_eq!(consumed, 3);
    let got = out.unwrap();
    assert_eq!(got.get_type(), EventType::Noteon);
    assert_eq!(got.get_data::<EvNote>(), Some(note));
}

#[test]
fn note_on_wire_fields_roundtrip() {
    // The wire carries channel, note and velocity; off-velocity and
    // duration have no bytes of their own and come back zero.
    let note = EvNote { channel: 0, note: 64, velocity: 100, off_velocity: 64, duration: 100 };
    let mut ev = Event::new(EventType::Noteon, &note);
    let mut me = MidiEvent::new(16).unwrap();
    let mut buf = vec![0u8; 8];
    let n = me.decode(&mut buf, &mut ev).unwrap();
    assert_eq!(n, 3);
    let (consumed, out) = me.encode(&buf[..3]).unwrap();
    assert_eq!(consumed, 3);
    let back: EvNote = out.unwrap().get_data().unwrap();
    assert_eq!(back.channel, note.channel);
    assert_eq!(back.note, note.note);
    assert_eq!(back.velocity, note.velocity);
    assert_eq!(back.off_velocity, 0);
    assert_eq!(back.duration, 0);
}

#[test]
fn running_status_elides_repeated_status() {
    let note = EvNote { channel: 3, note: 60, velocity: 90, off_velocity: 0, duration: 0 };
    let mut ev = Event::new(EventType::Noteon, &note);
    let mut me = MidiEvent::new(16).unwrap();
    let mut buf = vec![0u8; 8];
    assert_eq!(me.decode(&mut buf, &mut ev).unwrap(), 3);
    assert_eq!(&buf[..3], &[0x93, 60, 90]);
    // Same status again: the status byte is elided.
    let note2 = EvNote { channel: 3, note: 62, velocity: 80, off_velocity: 0, duration: 0 };
    let mut ev2 = Event::new(EventType::Noteon, &note2);
    assert_eq!(me.decode(&mut buf, &mut ev2).unwrap(), 2);
    assert_eq!(&buf[..2], &[62, 80]);
    // The parser reads the elided form back through its own running status.
    let mut dec = MidiEvent::new(16).unwrap();
    let (c1, e1) = dec.encode(&[0x93, 60, 90]).unwrap();
    assert_eq!(c1, 3);
    assert_eq!(e1.unwrap().get_data::<EvNote>(), Some(note));
    let (c2, e2) = dec.encode(&[62, 80]).unwrap();
    assert_eq!(c2, 2);
    assert_eq!(e2.unwrap().get_data::<EvNote>(), Some(note2));
}

#[test]
fn running_status_can_be_disabled() {
    let note = EvNote { channel: 3, note: 60, velocity: 90, off_velocity: 0, duration: 0 };
    let mut me = MidiEvent::new(16).unwrap();
    me.enable_running_status(false);
    let mut buf = vec![0u8; 8];
    let mut ev = Event::new(EventType::Noteon, &note);
    assert_eq!(me.decode(&mut buf, &mut ev).unwrap(), 3);
    let mut ev2 = Event::new(EventType::Noteon, &note);
    assert_eq!(me.decode(&mut buf, &mut ev2).unwrap(), 3);
    assert_eq!(&buf[..3], &[0x93, 60, 90]);
}

#[test]
fn checkout_discipline() {
    let mut ch = InputChannel::new();
    assert!(ch.checkout().is_ok());
    assert_eq!(ch.checkout(), Err(SeqError::NoConcurrentReader));
    ch.release();
    assert!(ch.checkout().is_ok());
}

#[test]
fn stream_poll_lazy() {
    let note = EvNote { channel: 0, note: 64, velocity: 100, off_velocity: 0, duration: 0 };
    let mut ch = InputChannel::new();
    ch.checkout().unwrap();
    assert_eq!(ch.pending_count(), 0);
    match ch.poll_next() {
        Ok(None) => {},
        _ => panic!("poll with nothing pending must report not-ready"),
    }
    assert_eq!(ch.pending_count(), 0);
    ch.supply(Event::new(EventType::Noteon, &note));
    ch.supply(Event::new(EventType::Noteoff, &note));
    assert_eq!(ch.pending_count(), 2);
    let before = ch.pending_count();
    let got = ch.poll_next().unwrap().unwrap();
    assert_eq!(got.get_type(), EventType::Noteon);
    assert_eq!(ch.pending_count(), before - 1);
}

#[test]
fn closed_stream_polls_fail() {
    let mut ch = InputChannel::new();
    ch.checkout().unwrap();
    ch.close();
    match ch.poll_next() {
        Err(SeqError::Closed) => {},
        _ => panic!("poll after closure must report failure"),
    }
    match ch.poll_next() {
        Err(SeqError::Closed) => {},
        _ => panic!("the channel is not restartable"),
    }
}

#[test]
fn into_owned_idempotent() {
    let payload = vec![0xf0u8, 9, 8, 7, 0xf7];
    let ev = Event::new_ext(EventType::Sysex, payload.clone());
    let once = ev.clone().into_owned();
    let twice = ev.into_owned().into_owned();
    assert_eq!(once.get_ext().unwrap(), twice.get_ext().unwrap());
    assert_eq!(once.get_ext().unwrap(), &payload);
}

#[test]
fn into_owned_takes_over_borrowed_buffers() {
    let sysex = [0xf0u8, 1, 2, 0xf7];
    let mut me = MidiEvent::new(8).unwrap();
    let (_, ev) = me.encode(&sysex).unwrap();
    let ev = ev.unwrap();
    assert!(!ev.ext.as_ref().unwrap().owned);
    let owned_once = ev.into_owned();
    assert!(owned_once.ext.as_ref().unwrap().owned);
    let owned_twice = owned_once.clone().into_owned();
    assert_eq!(owned_once.get_ext().unwrap(), owned_twice.get_ext().unwrap());
    assert_eq!(&owned_once.get_ext().unwrap()[..], &sysex[..]);
}

#[test]
fn noteon_payload_survives_channel() {
    let note = EvNote { channel: 0, note: 64, velocity: 100, off_velocity: 64, duration: 100 };
    let mut e = Event::new(EventType::Noteon, &note);
    e.set_subs();
    e.set_direct();
    e.set_source(0);
    let mut ch = InputChannel::new();
    ch.supply(e);
    ch.checkout().unwrap();
    let e2 = ch.poll_next().unwrap().unwrap();
    assert_eq!(e2.get_type(), EventType::Noteon);
    assert_eq!(e2.get_data(), Some(note));
}

#[test]
fn exactly_one_payload_reads_back() {
    let note = EvNote { channel: 1, note: 2, velocity: 3, off_velocity: 4, duration: 5 };
    let ev = Event::new(EventType::Noteon, &note);
    assert_eq!(ev.get_data::<EvNote>(), Some(note));
    assert_eq!(ev.get_data::<EvCtrl>(), None);
    assert_eq!(ev.get_data::<Addr>(), None);
    assert_eq!(ev.get_data::<EvResult>(), None);
    assert_eq!(ev.get_data::<[u8; 12]>(), None);
}

#[test]
fn from_parts_checks_shape() {
    let bad = Event::from_parts(
        EventType::Noteon,
        Payload::Ctrl(EvCtrl { channel: 0, param: 0, value: 0 }),
        None,
    );
    assert_eq!(bad.err(), Some(SeqError::ShapeMismatch));
    let missing_ext = Event::from_parts(EventType::Sysex, Payload::Empty, None);
    assert_eq!(missing_ext.err(), Some(SeqError::ShapeMismatch));
    let stray_ext = Event::from_parts(
        EventType::Noteon,
        Payload::Note(EvNote { channel: 0, note: 1, velocity: 2, off_velocity: 0, duration: 0 }),
        Some(vec![1, 2, 3]),
    );
    assert_eq!(stray_ext.err(), Some(SeqError::ShapeMismatch));
    let good = Event::from_parts(EventType::Sysex, Payload::Empty, Some(vec![0xf0, 5, 0xf7]))
        .unwrap();
    assert_eq!(good.get_type(), EventType::Sysex);
    assert_eq!(&good.get_ext().unwrap()[..], &[0xf0, 5, 0xf7]);
    assert!(!good.ext.as_ref().unwrap().owned);
}

#[test]
fn encode_rejects_stray_data_byte() {
    let mut me = MidiEvent::new(16).unwrap();
    assert!(matches!(me.encode(&[0x40]), Err(SeqError::Malformed)));
}

#[test]
fn encode_needs_scratch_capacity() {
    let mut me = MidiEvent::new(2).unwrap();
    let sysex = [0xf0u8, 1, 2, 3, 0xf7];
    assert!(matches!(me.encode(&sysex), Err(SeqError::BufferTooSmall)));
    me.resize_buffer(16).unwrap();
    let (consumed, ev) = me.encode(&sysex).unwrap();
    assert_eq!(consumed, 5);
    assert_eq!(&ev.unwrap().get_ext().unwrap()[..], &sysex[..]);
}

#[test]
fn decode_needs_room_in_the_buffer() {
    let note = EvNote { channel: 0, note: 64, velocity: 100, off_velocity: 0, duration: 0 };
    let mut ev = Event::new(EventType::Noteon, &note);
    let mut me = MidiEvent::new(16).unwrap();
    let mut buf = vec![0u8; 2];
    assert_eq!(me.decode(&mut buf, &mut ev), Err(SeqError::BufferTooSmall));
}

#[test]
fn decode_refuses_events_without_wire_form() {
    let mut ev = Event::new(EventType::Echo, &[0u8; 12]);
    let mut me = MidiEvent::new(16).unwrap();
    let mut buf = vec![0u8; 16];
    assert_eq!(me.decode(&mut buf, &mut ev), Err(SeqError::Unsupported));
}

#[test]
fn encode_reports_incomplete_as_no_event() {
    let mut me = MidiEvent::new(16).unwrap();
    let (consumed, ev) = me.encode(&[0x90, 64]).unwrap();
    assert_eq!(consumed, 2);
    assert!(ev.is_none());
    let (consumed2, ev2) = me.encode(&[100]).unwrap();
    assert_eq!(consumed2, 1);
    let note: EvNote = ev2.unwrap().get_data().unwrap();
    assert_eq!(note.note, 64);
    assert_eq!(note.velocity, 100);
}

#[test]
fn tag_codes_roundtrip() {
    for t in EventType::all() {
        assert_eq!(EventType::from_code(t.code()), Some(t));
    }
    assert_eq!(EventType::from_code(2), None);
}

#[test]
fn scheduling_representations_are_exclusive() {
    let note = EvNote { channel: 0, note: 1, velocity: 2, off_velocity: 0, duration: 0 };
    let mut ev = Event::new(EventType::Noteon, &note);
    ev.schedule_tick(1, false, 777);
    assert_eq!(ev.get_tick(), Some(777));
    assert_eq!(ev.get_time(), None);
    assert!(!ev.get_relative());
    ev.schedule_real(1, true, TimeSpec { secs: 4, nanos: 5 });
    assert_eq!(ev.get_tick(), None);
    assert_eq!(ev.get_time(), Some(TimeSpec { secs: 4, nanos: 5 }));
    assert!(ev.get_relative());
}

#[test]
fn header_accessors() {
    let note = EvNote { channel: 0, note: 1, velocity: 2, off_velocity: 0, duration: 0 };
    let mut ev = Event::new(EventType::Noteon, &note);
    ev.set_dest(Addr { client: 20, port: 1 });
    assert_eq!(ev.get_dest(), Addr { client: 20, port: 1 });
    ev.set_source(7);
    assert_eq!(ev.get_source().port, 7);
    ev.set_tag(9);
    assert_eq!(ev.get_tag(), 9);
    ev.set_queue(5);
    assert_eq!(ev.get_queue(), 5);
    ev.set_queue(0x1ff);
    assert_eq!(ev.get_queue(), 0xff);
    ev.set_priority(true);
    assert!(ev.get_priority());
    ev.set_direct();
    assert_eq!(ev.get_queue(), 253);
    ev.set_subs();
    assert_eq!(ev.get_dest(), Addr { client: 254, port: 253 });
}

#[test]
fn ensure_buf_resynchronizes_the_recorded_length() {
    let mut ev = Event::new_ext(EventType::Sysex, vec![0xf0, 1, 0xf7]);
    assert_eq!(ev.ext.as_ref().unwrap().recorded_len, 3);
    ev.ext.as_mut().unwrap().data.push(0xf7);
    ev.ensure_buf();
    assert_eq!(ev.ext.as_ref().unwrap().recorded_len, 4);
    ev.ensure_buf();
    assert_eq!(ev.ext.as_ref().unwrap().recorded_len, 4);
}

#[test]
fn system_addresses() {
    assert_eq!(Addr::system_timer(), Addr { client: 0, port: 0 });
    assert_eq!(Addr::system_announce(), Addr { client: 0, port: 1 });
    assert_eq!(Addr::broadcast(), Addr { client: 255, port: 255 });
}

#[test]
fn realtime_bytes_interleave_sysex() {
    let mut me = MidiEvent::new(16).unwrap();
    let (consumed, ev) = me.encode(&[0xf0, 1, 0xf8, 2, 0xf7]).unwrap();
    // The realtime byte completes its own event without disturbing the
    // system-exclusive collection.
    assert_eq!(consumed, 3);
    assert_eq!(ev.unwrap().get_type(), EventType::Clock);
    let (consumed2, ev2) = me.encode(&[2, 0xf7]).unwrap();
    assert_eq!(consumed2, 2);
    assert_eq!(&ev2.unwrap().get_ext().unwrap()[..], &[0xf0, 1, 2, 0xf7]);
}
