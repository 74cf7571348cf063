//! The remap engine: an ordered rule sequence applied to one message at a
//! time, the first covering rule deciding.

use vstd::prelude::*;
use crate::mapping::Mapping;
use crate::mapping::MsgType;
use crate::message::low7;
use crate::message::lemma_low7;
use crate::message::midly_2_param;
use crate::message::Message;

verus! {

/// An immutable snapshot of the rule sequence.
#[derive(Debug)]
pub struct Mapper {
    mappings: Vec<Mapping>,
}

impl Clone for Mapper {
    fn clone(&self) -> (copy: Mapper)
        ensures
            copy@ == self@,
    {
        Mapper { mappings: self.mappings.clone() }
    }
}

impl View for Mapper {
    type V = Seq<Mapping>;

    closed spec fn view(&self) -> Seq<Mapping> {
        self.mappings@
    }
}

/// The index of the first rule at or after `from` that covers a message of
/// kind `kind` with primary parameter `primary`.
pub open spec fn first_match_from(rules: Seq<Mapping>, kind: MsgType, primary: u8, from: int) -> Option<
    int,
>
    decreases rules.len() - from,
{
    if from < 0 || from >= rules.len() {
        None
    } else if rules[from].applies_to(kind, primary) {
        Some(from)
    } else {
        first_match_from(rules, kind, primary, from + 1)
    }
}

/// The index of the first rule that covers the message, if any does.
pub open spec fn first_match(rules: Seq<Mapping>, kind: MsgType, primary: u8) -> Option<int> {
    first_match_from(rules, kind, primary, 0)
}

/// What a rule makes of a message that it covers: kind `to`, the primary
/// parameter shifted, the secondary kept (both as seven-bit values).
pub open spec fn rewritten(rule: Mapping, primary: u8, secondary: u8) -> Message {
    Message::with_params(rule.to, rule.target(primary), low7(secondary))
}

/// The outbound message for `message` under `rules`.
pub open spec fn remapped(rules: Seq<Mapping>, message: Message) -> Message {
    match message.params() {
        Some((kind, primary, secondary)) => match first_match(rules, kind, primary) {
            Some(i) => rewritten(rules[i], primary, secondary),
            None => message,
        },
        None => message,
    }
}

/// `first_match_from` returns the least covering index at or after `from`:
/// a result `Some(i)` names a covering rule with none before it, and `None`
/// says that no rule from `from` on covers the message.
pub proof fn lemma_first_match_from(rules: Seq<Mapping>, kind: MsgType, primary: u8, from: int)
    requires
        0 <= from,
    ensures
        match first_match_from(rules, kind, primary, from) {
            Some(i) => from <= i < rules.len() && rules[i].applies_to(kind, primary) && forall|j: int|
                from <= j < i ==> !#[trigger] rules[j].applies_to(kind, primary),
            None => forall|j: int|
                from <= j < rules.len() ==> !#[trigger] rules[j].applies_to(kind, primary),
        },
    decreases rules.len() - from,
{
    if from < rules.len() && !rules[from].applies_to(kind, primary) {
        lemma_first_match_from(rules, kind, primary, from + 1);
    }
}

/// The first rule that covers a message decides: where rule `i` covers a
/// message and no earlier rule does, `first_match` is `i`.
pub proof fn lemma_first_match_is_least(rules: Seq<Mapping>, kind: MsgType, primary: u8, i: int)
    requires
        0 <= i < rules.len(),
        rules[i].applies_to(kind, primary),
        forall|j: int| 0 <= j < i ==> !#[trigger] rules[j].applies_to(kind, primary),
    ensures
        first_match(rules, kind, primary) == Some(i),
{
    lemma_first_match_from(rules, kind, primary, 0);
}

/// A covered message is rewritten by its rule. Let rule `i` be the first to
/// cover a well-formed message of kind `from` with primary parameter
/// `primary`, and let the shift keep `primary` within seven bits. Then the
/// outbound message has kind `to`, primary parameter
/// `primary - start + to_start`, and the secondary parameter of the inbound
/// message.
pub proof fn law_covered_message_is_shifted(
    rules: Seq<Mapping>,
    i: int,
    primary: u8,
    secondary: u8,
)
    requires
        0 <= i < rules.len(),
        rules[i].start <= primary <= rules[i].stop,
        forall|j: int| 0 <= j < i ==> !#[trigger] rules[j].applies_to(rules[i].from, primary),
        Message::with_params(rules[i].from, primary, secondary).is_well_formed(),
        rules[i].keeps_in_domain(primary),
    ensures
        remapped(rules, Message::with_params(rules[i].from, primary, secondary)).params() == Some(
            (
                rules[i].to,
                (primary - rules[i].start + rules[i].to_start) as u8,
                secondary,
            ),
        ),
        remapped(rules, Message::with_params(rules[i].from, primary, secondary))
            == Message::with_params(
            rules[i].to,
            (primary - rules[i].start + rules[i].to_start) as u8,
            secondary,
        ),
{
    lemma_first_match_is_least(rules, rules[i].from, primary, i);
    lemma_low7(secondary);
}

/// A message that no rule covers passes through unchanged.
pub proof fn law_uncovered_message_passes(rules: Seq<Mapping>, message: Message)
    requires
        match message.params() {
            Some((kind, primary, _)) => forall|j: int|
                0 <= j < rules.len() ==> !#[trigger] rules[j].applies_to(kind, primary),
            None => true,
        },
    ensures
        remapped(rules, message) == message,
{
    match message.params() {
        Some((kind, primary, _)) => {
            lemma_first_match_from(rules, kind, primary, 0);
        },
        None => {},
    }
}

/// A message of a kind that rules never see (program change, channel
/// aftertouch, pitch bend) passes through unchanged under every rule
/// sequence.
pub proof fn law_other_kinds_pass(rules: Seq<Mapping>, message: Message)
    requires
        message.params().is_none(),
    ensures
        remapped(rules, message) == message,
{
}

/// Of two rules that both cover a message, the later one is never applied:
/// the deciding rule stands at or before the earlier of the two, and is the
/// earlier one where nothing before it covers the message.
pub proof fn law_first_match_wins(
    rules: Seq<Mapping>,
    message: Message,
    earlier: int,
    later: int,
)
    requires
        0 <= earlier < later < rules.len(),
        message.params().is_some(),
        rules[earlier].applies_to(message.params().unwrap().0, message.params().unwrap().1),
        rules[later].applies_to(message.params().unwrap().0, message.params().unwrap().1),
    ensures
        first_match(rules, message.params().unwrap().0, message.params().unwrap().1).is_some(),
        first_match(rules, message.params().unwrap().0, message.params().unwrap().1).unwrap()
            <= earlier,
        (forall|j: int|
            0 <= j < earlier ==> !#[trigger] rules[j].applies_to(
                message.params().unwrap().0,
                message.params().unwrap().1,
            )) ==> remapped(rules, message) == rewritten(
            rules[earlier],
            message.params().unwrap().1,
            message.params().unwrap().2,
        ),
{
    lemma_first_match_from(rules, message.params().unwrap().0, message.params().unwrap().1, 0);
}

/// Passing through is idempotent: a message that no rule covers comes out
/// of a second application as it came out of the first.
pub proof fn law_passthrough_is_idempotent(rules: Seq<Mapping>, message: Message)
    requires
        match message.params() {
            Some((kind, primary, _)) => forall|j: int|
                0 <= j < rules.len() ==> !#[trigger] rules[j].applies_to(kind, primary),
            None => true,
        },
    ensures
        remapped(rules, remapped(rules, message)) == remapped(rules, message),
{
    law_uncovered_message_passes(rules, message);
}

impl Mapper {
    pub fn new(mappings: Vec<Mapping>) -> (m: Mapper)
        ensures
            m@ == mappings@,
    {
        Mapper { mappings }
    }

    pub fn mappings(&self) -> (r: &Vec<Mapping>)
        ensures
            r@ == self@,
    {
        &self.mappings
    }

    /// The first rule, in sequence order, that covers the message.
    pub fn find_mapping(&self, kind: MsgType, primary: u8) -> (r: Option<Mapping>)
        ensures
            match first_match(self@, kind, primary) {
                Some(i) => r == Some(self@[i]),
                None => r.is_none(),
            },
    {
        let n: usize = self.mappings.len();
        let mut i: usize = 0;
        while i < n
            invariant
                n == self.mappings@.len(),
                i <= n,
                first_match(self@, kind, primary) == first_match_from(self@, kind, primary, i as int),
            decreases n - i,
        {
            if self.mappings[i].covers(kind, primary) {
                proof {
                    lemma_first_match_from(self@, kind, primary, i as int);
                }
                return Some(self.mappings[i]);
            }
            i += 1;
        }
        None
    }

    /// Rewrites `in_message` by the first rule that covers it, and returns
    /// it unchanged where none does.
    pub fn map_message(&self, in_message: Message) -> (out: Message)
        ensures
            out == remapped(self@, in_message),
    {
        match in_message.two_params() {
            Some((kind, primary, secondary)) => {
                match self.find_mapping(kind, primary) {
                    Some(m) => {
                        let shifted: u8 = m.shifted(primary);
                        proof {
                            lemma_low7(shifted);
                        }
                        midly_2_param(&m.to, shifted, secondary)
                    },
                    None => in_message,
                }
            },
            None => in_message,
        }
    }
}

} // verus!
