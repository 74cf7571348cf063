//! Channel voice messages as plain values.

use vstd::prelude::*;
use crate::mapping::MsgType;
use crate::mapping::PARAM_MAX;

verus! {

/// The largest value a fourteen-bit pitch bend can hold.
pub const BEND_MAX: u16 = 0x3FFF;

/// A channel voice message. Every parameter is a seven-bit value, the pitch
/// bend a fourteen-bit one; `is_well_formed` says so.
#[derive(Debug, PartialEq, Eq, Structural, Copy, Clone)]
pub enum Message {
    NoteOff { key: u8, vel: u8 },
    NoteOn { key: u8, vel: u8 },
    Aftertouch { key: u8, vel: u8 },
    Controller { controller: u8, value: u8 },
    ProgramChange { program: u8 },
    ChannelAftertouch { vel: u8 },
    PitchBend { bend: u16 },
}

/// The low seven bits of `raw`.
pub open spec fn low7(raw: u8) -> u8 {
    raw & 0x7F
}

/// Keeping the low seven bits is reduction modulo 128, and leaves a
/// seven-bit value as it is.
pub proof fn lemma_low7(raw: u8)
    ensures
        low7(raw) == raw % 128,
        low7(raw) <= PARAM_MAX,
        raw <= PARAM_MAX ==> low7(raw) == raw,
{
    assert(raw & 0x7F == raw % 128) by (bit_vector);
}

/// Calls midly's `u7::from_int_lossy` and reads the value back with
/// `u7::as_int`: the constructor masks off the top bit, the getter returns
/// the stored byte.
#[verifier::external_body]
fn seven_bits(raw: u8) -> (r: u8)
    ensures
        r == low7(raw),
{
    midly::num::u7::from_int_lossy(raw).as_int()
}

impl Message {
    /// The message of kind `kind` with the given two parameters.
    pub open spec fn with_params(kind: MsgType, primary: u8, secondary: u8) -> Message {
        match kind {
            MsgType::NoteOn => Message::NoteOn { key: primary, vel: secondary },
            MsgType::NoteOff => Message::NoteOff { key: primary, vel: secondary },
            MsgType::Aftertouch => Message::Aftertouch { key: primary, vel: secondary },
            MsgType::Control => Message::Controller { controller: primary, value: secondary },
        }
    }

    /// Kind, primary and secondary parameter of a message that rules can
    /// match; `None` for the kinds that rules never see.
    pub open spec fn params(&self) -> Option<(MsgType, u8, u8)> {
        match *self {
            Message::NoteOff { key, vel } => Some((MsgType::NoteOff, key, vel)),
            Message::NoteOn { key, vel } => Some((MsgType::NoteOn, key, vel)),
            Message::Aftertouch { key, vel } => Some((MsgType::Aftertouch, key, vel)),
            Message::Controller { controller, value } => Some((MsgType::Control, controller, value)),
            _ => None,
        }
    }

    /// Every parameter fits its width.
    pub open spec fn is_well_formed(&self) -> bool {
        match *self {
            Message::NoteOff { key, vel } => key <= PARAM_MAX && vel <= PARAM_MAX,
            Message::NoteOn { key, vel } => key <= PARAM_MAX && vel <= PARAM_MAX,
            Message::Aftertouch { key, vel } => key <= PARAM_MAX && vel <= PARAM_MAX,
            Message::Controller { controller, value } => controller <= PARAM_MAX && value
                <= PARAM_MAX,
            Message::ProgramChange { program } => program <= PARAM_MAX,
            Message::ChannelAftertouch { vel } => vel <= PARAM_MAX,
            Message::PitchBend { bend } => bend <= BEND_MAX,
        }
    }

    pub fn two_params(&self) -> (r: Option<(MsgType, u8, u8)>)
        ensures
            r == self.params(),
    {
        match *self {
            Message::NoteOff { key, vel } => Some((MsgType::NoteOff, key, vel)),
            Message::NoteOn { key, vel } => Some((MsgType::NoteOn, key, vel)),
            Message::Aftertouch { key, vel } => Some((MsgType::Aftertouch, key, vel)),
            Message::Controller { controller, value } => Some((MsgType::Control, controller, value)),
            _ => None,
        }
    }

    pub fn well_formed(&self) -> (b: bool)
        ensures
            b == self.is_well_formed(),
    {
        match *self {
            Message::NoteOff { key, vel } => key <= PARAM_MAX && vel <= PARAM_MAX,
            Message::NoteOn { key, vel } => key <= PARAM_MAX && vel <= PARAM_MAX,
            Message::Aftertouch { key, vel } => key <= PARAM_MAX && vel <= PARAM_MAX,
            Message::Controller { controller, value } => controller <= PARAM_MAX && value
                <= PARAM_MAX,
            Message::ProgramChange { program } => program <= PARAM_MAX,
            Message::ChannelAftertouch { vel } => vel <= PARAM_MAX,
            Message::PitchBend { bend } => bend <= BEND_MAX,
        }
    }
}

/// Builds the two-parameter message of kind `to`, each parameter reduced to
/// its low seven bits.
pub fn midly_2_param(to: &MsgType, a_8: u8, b_8: u8) -> (m: Message)
    ensures
        m == Message::with_params(*to, low7(a_8), low7(b_8)),
        m.is_well_formed(),
        m.params() == Some((*to, low7(a_8), low7(b_8))),
{
    let a = seven_bits(a_8);
    let b = seven_bits(b_8);
    proof {
        lemma_low7(a_8);
        lemma_low7(b_8);
    }
    match to {
        MsgType::NoteOn => Message::NoteOn { key: a, vel: b },
        MsgType::NoteOff => Message::NoteOff { key: a, vel: b },
        MsgType::Aftertouch => Message::Aftertouch { key: a, vel: b },
        MsgType::Control => Message::Controller { controller: a, value: b },
    }
}

} // verus!
