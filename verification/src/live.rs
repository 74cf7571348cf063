//! Live events on the wire: decoding an inbound event, remapping it and
//! encoding the result.

use vstd::prelude::*;
use midly::live::LiveEvent;
use midly::MidiMessage;
use crate::mapper::remapped;
use crate::mapper::Mapper;
use crate::message::low7;
use crate::message::Message;

verus! {

/// The largest channel number.
pub const CHANNEL_MAX: u8 = 15;

/// A decoded live event: a channel voice message with its channel, or
/// anything else (system common and system realtime events), which is never
/// forwarded.
#[derive(Debug, PartialEq, Eq, Structural, Copy, Clone)]
pub enum LiveMessage {
    Midi { channel: u8, message: Message },
    Other,
}

/// An inbound event could not be decoded.
#[derive(Debug)]
pub struct DecodeFailure {
    pub detail: String,
}

/// One remapped event, ready to be written to the output.
#[derive(Debug)]
pub struct Forwarded {
    pub channel: u8,
    pub inbound: Message,
    pub outbound: Message,
    pub bytes: Vec<u8>,
}

#[verifier::external_type_specification]
#[verifier::external_body]
pub struct ExMidiMessage(MidiMessage);

#[verifier::external_type_specification]
#[verifier::external_body]
pub struct ExDecodeError(midly::Error);

/// What midly's `LiveEvent::parse` makes of `raw`: `None` where it returns
/// an error, else the event, without the contents of events that are no
/// channel voice messages.
pub uninterp spec fn parsed_live(raw: Seq<u8>) -> Option<LiveMessage>;

/// The status nibble of each message kind.
pub open spec fn status_nibble(message: Message) -> u8 {
    match message {
        Message::NoteOff { .. } => 0x8,
        Message::NoteOn { .. } => 0x9,
        Message::Aftertouch { .. } => 0xA,
        Message::Controller { .. } => 0xB,
        Message::ProgramChange { .. } => 0xC,
        Message::ChannelAftertouch { .. } => 0xD,
        Message::PitchBend { .. } => 0xE,
    }
}

/// The data bytes of a message: each parameter's low seven bits, the pitch
/// bend as its low and its high seven bits.
pub open spec fn data_bytes(message: Message) -> Seq<u8> {
    match message {
        Message::NoteOff { key, vel } => seq![low7(key), low7(vel)],
        Message::NoteOn { key, vel } => seq![low7(key), low7(vel)],
        Message::Aftertouch { key, vel } => seq![low7(key), low7(vel)],
        Message::Controller { controller, value } => seq![low7(controller), low7(value)],
        Message::ProgramChange { program } => seq![low7(program)],
        Message::ChannelAftertouch { vel } => seq![low7(vel)],
        Message::PitchBend { bend } => seq![(bend & 0x7F) as u8, ((bend & 0x3FFF) >> 7) as u8],
    }
}

/// A channel voice message as a standalone event on the wire: the status
/// byte (kind in the high nibble, channel in the low one), then the data
/// bytes.
pub open spec fn wire_bytes(channel: u8, message: Message) -> Seq<u8> {
    seq![status_nibble(message) << 4 | (channel & 0x0F)] + data_bytes(message)
}

/// On a well-formed message and a channel of at most fifteen the masks
/// change nothing: the status byte is `16 * nibble + channel`, and the data
/// bytes are the parameters themselves, the pitch bend split at bit seven.
pub proof fn lemma_wire_bytes_plain(channel: u8, message: Message)
    requires
        channel <= CHANNEL_MAX,
        message.is_well_formed(),
    ensures
        wire_bytes(channel, message)[0] == 16 * status_nibble(message) + channel,
        wire_bytes(channel, message).subrange(1, wire_bytes(channel, message).len() as int)
            == data_bytes(message),
        data_bytes(message) == match message {
            Message::NoteOff { key, vel } => seq![key, vel],
            Message::NoteOn { key, vel } => seq![key, vel],
            Message::Aftertouch { key, vel } => seq![key, vel],
            Message::Controller { controller, value } => seq![controller, value],
            Message::ProgramChange { program } => seq![program],
            Message::ChannelAftertouch { vel } => seq![vel],
            Message::PitchBend { bend } => seq![(bend % 128) as u8, (bend / 128) as u8],
        },
{
    let nibble = status_nibble(message);
    assert(nibble <= 15 && channel <= 15 ==> nibble << 4 | (channel & 0x0F) == 16 * nibble
        + channel) by (bit_vector);
    assert(wire_bytes(channel, message).subrange(1, wire_bytes(channel, message).len() as int)
        =~= data_bytes(message));
    assert forall|x: u8| x <= 127 implies #[trigger] low7(x) == x by {
        crate::message::lemma_low7(x);
    }
    match message {
        Message::PitchBend { bend } => {
            assert(bend <= 0x3FFF ==> (bend & 0x7F) as u8 == (bend % 128) as u8 && ((bend & 0x3FFF)
                >> 7) as u8 == (bend / 128) as u8) by (bit_vector);
        },
        _ => {},
    }
}

/// Tells the variants of midly's `MidiMessage` apart and reads each field
/// with `as_int`.
#[verifier::external_body]
fn from_midly(message: MidiMessage) -> Message {
    match message {
        MidiMessage::NoteOff { key, vel } => Message::NoteOff { key: key.as_int(), vel: vel.as_int() },
        MidiMessage::NoteOn { key, vel } => Message::NoteOn { key: key.as_int(), vel: vel.as_int() },
        MidiMessage::Aftertouch { key, vel } => Message::Aftertouch { key: key.as_int(), vel: vel.as_int() },
        MidiMessage::Controller { controller, value } => Message::Controller { controller: controller.as_int(), value: value.as_int() },
        MidiMessage::ProgramChange { program } => Message::ProgramChange { program: program.as_int() },
        MidiMessage::ChannelAftertouch { vel } => Message::ChannelAftertouch { vel: vel.as_int() },
        MidiMessage::PitchBend { bend } => Message::PitchBend { bend: bend.0.as_int() },
    }
}

/// Builds midly's `MidiMessage` of the same variant, each field through
/// midly's `From` for its restricted integers, which keeps the low bits.
#[verifier::external_body]
fn to_midly(message: Message) -> MidiMessage {
    match message {
        Message::NoteOff { key, vel } => MidiMessage::NoteOff { key: key.into(), vel: vel.into() },
        Message::NoteOn { key, vel } => MidiMessage::NoteOn { key: key.into(), vel: vel.into() },
        Message::Aftertouch { key, vel } => MidiMessage::Aftertouch { key: key.into(), vel: vel.into() },
        Message::Controller { controller, value } => MidiMessage::Controller { controller: controller.into(), value: value.into() },
        Message::ProgramChange { program } => MidiMessage::ProgramChange { program: program.into() },
        Message::ChannelAftertouch { vel } => MidiMessage::ChannelAftertouch { vel: vel.into() },
        Message::PitchBend { bend } => MidiMessage::PitchBend { bend: midly::PitchBend(bend.into()) },
    }
}

/// Calls midly's `LiveEvent::parse`. The result is named by `parsed_live`;
/// midly's seven-bit, fourteen-bit and four-bit integer types bound the
/// parameters and the channel of a decoded message.
#[verifier::external_body]
fn parse_live(raw: &[u8]) -> (r: Result<LiveMessage, midly::Error>)
    ensures
        r.is_ok() == parsed_live(raw@).is_some(),
        r matches Ok(event) ==> parsed_live(raw@) == Some(event),
        r matches Ok(LiveMessage::Midi { channel, message }) ==> channel <= CHANNEL_MAX
            && message.is_well_formed(),
{
    match LiveEvent::parse(raw)? {
        LiveEvent::Midi { channel, message } => Ok(
            LiveMessage::Midi { channel: channel.as_int(), message: from_midly(message) },
        ),
        _ => Ok(LiveMessage::Other),
    }
}

/// Calls midly's `LiveEvent::write` on a channel voice message, into an
/// empty vector. It writes the status byte, then the data bytes of the
/// message; writing to a vector does not fail.
#[verifier::external_body]
fn write_live(channel: u8, message: Message) -> (bytes: Vec<u8>)
    ensures
        bytes@ == wire_bytes(channel, message),
{
    let event = LiveEvent::Midi { channel: channel.into(), message: to_midly(message) };
    let mut bytes = Vec::new();
    let _ = event.write(&mut bytes);
    bytes
}

/// The text of midly's error, as its `Display` gives it.
#[verifier::external_body]
fn error_text(error: &midly::Error) -> String {
    format!("{}", error)
}

/// Whether an event is forwarded: a channel voice message is, anything else
/// is not.
pub open spec fn is_forwarded(event: LiveMessage) -> bool {
    event is Midi
}

impl Forwarded {
    /// This is the remapping of `event` under `rules`: same channel, the
    /// message remapped, and the bytes of the remapped message.
    pub open spec fn is_remapping_of(&self, rules: Seq<crate::mapping::Mapping>, event: LiveMessage) -> bool {
        match event {
            LiveMessage::Midi { channel, message } => {
                &&& self.channel == channel
                &&& self.inbound == message
                &&& self.outbound == remapped(rules, message)
                &&& self.bytes@ == wire_bytes(channel, remapped(rules, message))
            },
            LiveMessage::Other => false,
        }
    }
}

/// Remaps one decoded event: a channel voice message comes back remapped
/// and encoded, anything else is dropped.
pub fn remap_message(mapper: &Mapper, event: LiveMessage) -> (r: Option<Forwarded>)
    ensures
        r.is_some() == is_forwarded(event),
        r matches Some(f) ==> f.is_remapping_of(mapper@, event),
{
    match event {
        LiveMessage::Midi { channel, message } => {
            let outbound = mapper.map_message(message);
            let bytes = write_live(channel, outbound);
            Some(Forwarded { channel, inbound: message, outbound, bytes })
        },
        LiveMessage::Other => None,
    }
}

/// Decodes one raw inbound event and remaps it. Bytes that do not decode
/// give a `DecodeFailure` and nothing else: the event is dropped.
pub fn remap_raw(mapper: &Mapper, raw: &[u8]) -> (r: Result<Option<Forwarded>, DecodeFailure>)
    ensures
        r.is_ok() == parsed_live(raw@).is_some(),
        r matches Ok(sent) ==> {
            &&& sent.is_some() == is_forwarded(parsed_live(raw@).unwrap())
            &&& sent matches Some(f) ==> f.is_remapping_of(mapper@, parsed_live(raw@).unwrap())
        },
{
    match parse_live(raw) {
        Ok(event) => Ok(remap_message(mapper, event)),
        Err(error) => Err(DecodeFailure { detail: error_text(&error) }),
    }
}

} // verus!
