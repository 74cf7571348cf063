use midi_remap::live::{remap_message, remap_raw, LiveMessage};
use midi_remap::mapper::Mapper;
use midi_remap::mapping::{Mapping, MsgType};
use midi_remap::message::Message;

fn note_rule() -> Mapper {
    Mapper::new(vec![Mapping {
        from: MsgType::NoteOn,
        to: MsgType::NoteOn,
        start: 36,
        stop: 51,
        to_start: 0,
    }])
}

#[test]
fn raw_note_on_is_remapped_and_encoded() {
    let sent = remap_raw(&note_rule(), &[0x92, 40, 100]).unwrap().unwrap();
    assert_eq!(sent.channel, 2);
    assert_eq!(sent.inbound, Message::NoteOn { key: 40, vel: 100 });
    assert_eq!(sent.outbound, Message::NoteOn { key: 4, vel: 100 });
    assert_eq!(sent.bytes, vec![0x92, 4, 100]);
}

#[test]
fn raw_uncovered_message_is_forwarded_as_it_came() {
    let sent = remap_raw(&note_rule(), &[0xB5, 7, 127]).unwrap().unwrap();
    assert_eq!(sent.channel, 5);
    assert_eq!(sent.inbound, Message::Controller { controller: 7, value: 127 });
    assert_eq!(sent.outbound, sent.inbound);
    assert_eq!(sent.bytes, vec![0xB5, 7, 127]);
}

#[test]
fn raw_messages_of_every_kind_decode() {
    let none = Mapper::new(Vec::new());
    let cases: Vec<(Vec<u8>, Message)> = vec![
        (vec![0x80, 1, 2], Message::NoteOff { key: 1, vel: 2 }),
        (vec![0x9F, 3, 4], Message::NoteOn { key: 3, vel: 4 }),
        (vec![0xA1, 5, 6], Message::Aftertouch { key: 5, vel: 6 }),
        (vec![0xB2, 7, 8], Message::Controller { controller: 7, value: 8 }),
        (vec![0xC3, 9], Message::ProgramChange { program: 9 }),
        (vec![0xD4, 10], Message::ChannelAftertouch { vel: 10 }),
        (vec![0xE5, 0x12, 0x34], Message::PitchBend { bend: (0x34 << 7) | 0x12 }),
    ];
    for (raw, message) in cases {
        let sent = remap_raw(&none, &raw).unwrap().unwrap();
        assert_eq!(sent.channel, raw[0] & 0x0F);
        assert_eq!(sent.inbound, message);
        assert_eq!(sent.outbound, message);
        assert_eq!(sent.bytes, raw);
        assert!(sent.inbound.well_formed());
    }
}

#[test]
fn system_events_are_not_forwarded() {
    let mapper = note_rule();
    assert!(remap_raw(&mapper, &[0xF8]).unwrap().is_none());
    assert!(remap_raw(&mapper, &[0xF0, 1, 2, 3, 0xF7]).unwrap().is_none());
    assert!(remap_raw(&mapper, &[0xF6]).unwrap().is_none());
    assert!(remap_message(&mapper, LiveMessage::Other).is_none());
}

#[test]
fn malformed_bytes_give_a_decode_failure() {
    let mapper = note_rule();
    assert!(remap_raw(&mapper, &[]).is_err());
    assert!(remap_raw(&mapper, &[0x90, 40]).is_err());
    assert!(remap_raw(&mapper, &[0x90, 0x80, 1]).is_err());
    assert!(remap_raw(&mapper, &[0x40, 1, 2]).is_err());
    assert!(remap_raw(&mapper, &[0xF7]).is_err());
    let failure = remap_raw(&mapper, &[]).unwrap_err();
    assert!(!failure.detail.is_empty());
}

#[test]
fn decoded_event_is_remapped_and_encoded() {
    let event = LiveMessage::Midi { channel: 9, message: Message::NoteOn { key: 36, vel: 1 } };
    let sent = remap_message(&note_rule(), event).unwrap();
    assert_eq!(sent.channel, 9);
    assert_eq!(sent.inbound, Message::NoteOn { key: 36, vel: 1 });
    assert_eq!(sent.outbound, Message::NoteOn { key: 0, vel: 1 });
    assert_eq!(sent.bytes, vec![0x99, 0, 1]);
}

#[test]
fn encoding_of_each_kind() {
    let none = Mapper::new(Vec::new());
    let cases: Vec<(Message, Vec<u8>)> = vec![
        (Message::NoteOff { key: 1, vel: 2 }, vec![0x83, 1, 2]),
        (Message::NoteOn { key: 3, vel: 4 }, vec![0x93, 3, 4]),
        (Message::Aftertouch { key: 5, vel: 6 }, vec![0xA3, 5, 6]),
        (Message::Controller { controller: 7, value: 8 }, vec![0xB3, 7, 8]),
        (Message::ProgramChange { program: 9 }, vec![0xC3, 9]),
        (Message::ChannelAftertouch { vel: 10 }, vec![0xD3, 10]),
        (Message::PitchBend { bend: 0x2000 }, vec![0xE3, 0x00, 0x40]),
        (Message::PitchBend { bend: 0x3FFF }, vec![0xE3, 0x7F, 0x7F]),
    ];
    for (message, bytes) in cases {
        let sent = remap_message(&none, LiveMessage::Midi { channel: 3, message }).unwrap();
        assert_eq!(sent.bytes, bytes);
    }
}

#[test]
fn encoding_keeps_the_low_bits_of_oversized_values() {
    let none = Mapper::new(Vec::new());
    let sent = remap_message(
        &none,
        LiveMessage::Midi { channel: 0x1F, message: Message::ProgramChange { program: 200 } },
    )
    .unwrap();
    assert_eq!(sent.outbound, Message::ProgramChange { program: 200 });
    assert_eq!(sent.bytes, vec![0xCF, 72]);
    let sent = remap_message(
        &none,
        LiveMessage::Midi { channel: 0, message: Message::PitchBend { bend: 0xFFFF } },
    )
    .unwrap();
    assert_eq!(sent.bytes, vec![0xE0, 0x7F, 0x7F]);
    let sent = remap_message(
        &none,
        LiveMessage::Midi { channel: 0, message: Message::NoteOn { key: 128, vel: 255 } },
    )
    .unwrap();
    assert_eq!(sent.bytes, vec![0x90, 0, 127]);
}

#[test]
fn trailing_bytes_after_a_message_are_dropped() {
    let none = Mapper::new(Vec::new());
    let sent = remap_raw(&none, &[0x90, 1, 2, 3, 4]).unwrap().unwrap();
    assert_eq!(sent.bytes, vec![0x90, 1, 2]);
}
