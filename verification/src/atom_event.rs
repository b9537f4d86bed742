//! The events that the user interface sends to the audio side.

use vstd::prelude::*;
use crate::text::{bool_string, bool_text, decimal, decimal_string};

verus! {

/// What an event asks for.
#[derive(PartialEq, Eq, Structural, Clone, Copy, Debug)]
pub enum Type {
    /// Start (`true`) or stop (`false`) recording.
    Recording(bool),
    /// Move the start address of the wave.
    ChangeStartAdress(usize),
    /// Move the end address of the wave.
    ChangeEndAdress(usize),
    /// Start (`true`) or stop (`false`) playback.
    Playback(bool),
}

/// An event of the sampler, addressed to a channel.
#[derive(PartialEq, Eq, Structural, Clone, Copy, Debug)]
pub struct AtomEvent {
    pub channel: usize,
    pub event_type: Type,
    pub start: bool,
}

/// The text that `{:?}` gives for a `Type`.
pub open spec fn type_debug(t: Type) -> Seq<char> {
    match t {
        Type::Recording(b) => "Recording("@ + bool_text(b) + ")"@,
        Type::ChangeStartAdress(a) => "ChangeStartAdress("@ + decimal(a as nat) + ")"@,
        Type::ChangeEndAdress(a) => "ChangeEndAdress("@ + decimal(a as nat) + ")"@,
        Type::Playback(b) => "Playback("@ + bool_text(b) + ")"@,
    }
}

/// The text that `{:?}` gives for an `AtomEvent`.
pub open spec fn event_debug(e: AtomEvent) -> Seq<char> {
    "AtomEvent { channel: "@ + decimal(e.channel as nat) + ", event_type: "@ + type_debug(
        e.event_type,
    ) + ", start: "@ + bool_text(e.start) + " }"@
}

impl Type {
    /// Renders the event type as `{:?}` does.
    pub fn debug_text(&self) -> (s: String)
        ensures
            s@ == type_debug(*self),
    {
        let (mut s, inner) = match self {
            Type::Recording(b) => (String::from_str("Recording("), bool_string(*b)),
            Type::ChangeStartAdress(a) => (
                String::from_str("ChangeStartAdress("),
                decimal_string(*a as u64),
            ),
            Type::ChangeEndAdress(a) => (
                String::from_str("ChangeEndAdress("),
                decimal_string(*a as u64),
            ),
            Type::Playback(b) => (String::from_str("Playback("), bool_string(*b)),
        };
        s.append(inner.as_str());
        s.append(")");
        s
    }
}

impl AtomEvent {
    /// Renders the event as `{:?}` does.
    pub fn debug_text(&self) -> (s: String)
        ensures
            s@ == event_debug(*self),
    {
        let mut s = String::from_str("AtomEvent { channel: ");
        let channel = decimal_string(self.channel as u64);
        s.append(channel.as_str());
        s.append(", event_type: ");
        let t = self.event_type.debug_text();
        s.append(t.as_str());
        s.append(", start: ");
        let b = bool_string(self.start);
        s.append(b.as_str());
        s.append(" }");
        s
    }
}

} // verus!
