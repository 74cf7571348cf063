//! The rule model: which messages a rule covers and where it sends them.

use vstd::prelude::*;

verus! {

/// The message kinds that a rule can match and produce.
#[derive(Debug, PartialEq, Eq, Structural, Copy, Clone)]
pub enum MsgType {
    NoteOn,
    NoteOff,
    Aftertouch,
    Control,
}

/// One remapping rule: messages of kind `from` whose primary parameter lies
/// in `start..=stop` become messages of kind `to`, shifted so that `start`
/// lands on `to_start`.
#[derive(Debug, PartialEq, Eq, Structural, Copy, Clone)]
pub struct Mapping {
    pub from: MsgType,
    pub to: MsgType,
    pub start: u8,
    pub stop: u8,
    pub to_start: u8,
}

/// The largest value a seven-bit message parameter can hold.
pub const PARAM_MAX: u8 = 127;

impl Mapping {
    /// The rule covers a message of kind `kind` with primary parameter
    /// `primary`. A rule with `start > stop` covers nothing.
    pub open spec fn applies_to(&self, kind: MsgType, primary: u8) -> bool {
        self.from == kind && self.start <= primary && primary <= self.stop
    }

    /// The primary parameter that `primary` is sent to: shifted by
    /// `to_start - start` and reduced to seven bits.
    pub open spec fn target(&self, primary: u8) -> u8 {
        ((primary - self.start + self.to_start) % 128) as u8
    }

    /// The shift sends `primary` to a seven-bit value without reduction.
    pub open spec fn keeps_in_domain(&self, primary: u8) -> bool {
        0 <= primary - self.start + self.to_start <= PARAM_MAX
    }

    /// The shifted primary parameter as a byte, before its reduction to
    /// seven bits: `primary - start + to_start` modulo 256.
    pub fn shifted(&self, primary: u8) -> (r: u8)
        ensures
            r == (primary - self.start + self.to_start) % 256,
            r % 128 == self.target(primary),
    {
        let wide: u16 = primary as u16 + self.to_start as u16 + 256 - self.start as u16;
        (wide % 256) as u8
    }

    pub fn covers(&self, kind: MsgType, primary: u8) -> (b: bool)
        ensures
            b == self.applies_to(kind, primary),
    {
        self.from == kind && self.start <= primary && self.stop >= primary
    }
}

} // verus!
