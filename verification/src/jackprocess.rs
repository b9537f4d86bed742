//! The decisions of the audio callback: which of recording and playback
//! is running, as set by the events it receives.

use vstd::prelude::*;
use crate::atom_event::Type;

verus! {

/// The number of values each ring buffer between the audio callback and
/// the recording and playback workers holds.
pub const RING_CAPACITY: usize = 192000;

/// Whether the audio callback records its inputs and plays its outputs.
#[derive(PartialEq, Eq, Structural, Clone, Copy, Debug)]
pub struct TransportState {
    pub recording: bool,
    pub playback: bool,
}

/// The transport after `event`: recording and playback events set their
/// flag, address events change nothing.
pub open spec fn transport_after(t: TransportState, event: Type) -> TransportState {
    match event {
        Type::Recording(state) => TransportState { recording: state, ..t },
        Type::Playback(state) => TransportState { playback: state, ..t },
        _ => t,
    }
}

/// Recording and playback events act on separate flags, so their order
/// does not matter, and a second event of the same kind overrides the first.
pub proof fn law_transport_events(t: TransportState, a: bool, b: bool, c: bool)
    ensures
        transport_after(transport_after(t, Type::Recording(a)), Type::Playback(b))
            == transport_after(transport_after(t, Type::Playback(b)), Type::Recording(a)),
        transport_after(transport_after(t, Type::Recording(a)), Type::Recording(c))
            == transport_after(t, Type::Recording(c)),
        transport_after(transport_after(t, Type::Playback(b)), Type::Playback(c))
            == transport_after(t, Type::Playback(c)),
{
}

/// Address events leave the transport alone.
pub proof fn law_address_events_keep_transport(t: TransportState, address: usize)
    ensures
        transport_after(t, Type::ChangeStartAdress(address)) == t,
        transport_after(t, Type::ChangeEndAdress(address)) == t,
{
}

impl TransportState {
    /// Neither recording nor playing.
    pub fn new() -> (t: TransportState)
        ensures
            !t.recording,
            !t.playback,
    {
        TransportState { recording: false, playback: false }
    }

    /// Applies the event received in this cycle, if any.
    pub fn apply(&mut self, event: Option<Type>)
        ensures
            *final(self) == (match event {
                Some(e) => transport_after(*old(self), e),
                None => *old(self),
            }),
    {
        if let Some(event_type) = event {
            match event_type {
                Type::Recording(state) => {
                    self.recording = state;
                },
                Type::Playback(state) => {
                    self.playback = state;
                },
                Type::ChangeStartAdress(_) => {},
                Type::ChangeEndAdress(_) => {},
            }
        }
    }
}

} // verus!
