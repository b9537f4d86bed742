//! The decisions of the sampler window: what pressing and releasing the
//! pad sends, where the play position moves, and what the console says.

use vstd::prelude::*;
use crate::atom_event::{event_debug, AtomEvent, Type};
use crate::jackprocess::{transport_after, TransportState};
use crate::text::{decimal, decimal_string};

verus! {

/// How far the play position moves in one frame while the pad is held.
pub const POSITION_STEP: usize = 1000;

/// What a change of the pad calls for: the event to send, the words the
/// console reports it with, and whether the wave displays start afresh.
pub struct PadTransition {
    pub event: AtomEvent,
    pub label: String,
    pub reset_plots: bool,
}

/// The event a change of the pad sends: pressing starts, releasing stops,
/// recording in record mode and playback otherwise.
pub open spec fn pad_event(pressed: bool, record_mode: bool) -> AtomEvent {
    AtomEvent {
        channel: 0,
        event_type: if record_mode {
            Type::Recording(pressed)
        } else {
            Type::Playback(pressed)
        },
        start: pressed,
    }
}

/// Pressing and then releasing the pad leaves the audio callback as it
/// was before, with the mode's activity off: in record mode recording
/// starts and stops, otherwise playback does, and the other flag is
/// untouched.
pub proof fn law_press_release_round_trip(t: TransportState, record_mode: bool)
    ensures
        ({
            let pressed = transport_after(t, pad_event(true, record_mode).event_type);
            let released = transport_after(pressed, pad_event(false, record_mode).event_type);
            &&& record_mode ==> pressed.recording && !released.recording
            &&& !record_mode ==> pressed.playback && !released.playback
            &&& record_mode ==> released.playback == t.playback
            &&& !record_mode ==> released.recording == t.recording
        }),
{
}

/// The console words for a change of the pad. A release reports
/// `stop recording` in either mode.
pub open spec fn pad_label(pressed: bool, record_mode: bool) -> Seq<char> {
    if !pressed {
        "stop recording"@
    } else if record_mode {
        "start recording"@
    } else {
        "start playback"@
    }
}

/// What the pad calls for when it was held in the last frame
/// (`was_pressed`) and is held now (`is_pressed`): nothing when it did not
/// change, else the event of `pad_event`; a press in record mode also
/// clears the wave displays.
pub fn pad_transition(was_pressed: bool, is_pressed: bool, record_mode: bool) -> (t: Option<
    PadTransition,
>)
    ensures
        (was_pressed == is_pressed) <==> t is None,
        t matches Some(tr) ==> {
            &&& tr.event == pad_event(is_pressed, record_mode)
            &&& tr.label@ == pad_label(is_pressed, record_mode)
            &&& tr.reset_plots == (is_pressed && record_mode)
        },
{
    if was_pressed == is_pressed {
        return None;
    }
    let event_type = if record_mode {
        Type::Recording(is_pressed)
    } else {
        Type::Playback(is_pressed)
    };
    let label = if !is_pressed {
        String::from_str("stop recording")
    } else if record_mode {
        String::from_str("start recording")
    } else {
        String::from_str("start playback")
    };
    Some(
        PadTransition {
            event: AtomEvent { channel: 0, event_type, start: is_pressed },
            label,
            reset_plots: is_pressed && record_mode,
        },
    )
}

/// The console line for a sent event, as `{:?}` shows the outcome of the
/// send: `Ok(())`, or the event handed back in `Err(..)`.
pub open spec fn send_report_text(label: Seq<char>, event: AtomEvent, sent: bool) -> Seq<char> {
    label + " "@ + if sent {
        "Ok(())"@
    } else {
        "Err("@ + event_debug(event) + ")"@
    }
}

/// Renders the console line for an event that was, or was not, sent.
pub fn send_report(label: &str, event: &AtomEvent, sent: bool) -> (s: String)
    ensures
        s@ == send_report_text(label@, *event, sent),
{
    let mut s = String::from_str(label);
    s.append(" ");
    if sent {
        s.append("Ok(())");
    } else {
        s.append("Err(");
        let e = event.debug_text();
        s.append(e.as_str());
        s.append(")");
    }
    s
}

/// The play position after a frame: while the pad is held it moves on by
/// `POSITION_STEP`, but not past the end of the wave; released, it goes
/// back to the start.
pub fn next_wave_pos(pos: usize, pressed: bool, max_len: usize) -> (next: usize)
    requires
        pressed ==> pos + POSITION_STEP <= usize::MAX,
    ensures
        next == (if pressed {
            if pos + POSITION_STEP < max_len {
                (pos + POSITION_STEP) as usize
            } else {
                max_len
            }
        } else {
            0
        }),
        next <= max_len,
{
    if pressed {
        let moved = pos + POSITION_STEP;
        if moved < max_len {
            moved
        } else {
            max_len
        }
    } else {
        0
    }
}

/// The console line after a wave was loaded.
pub fn wave_loaded_message(num_samples: usize) -> (s: String)
    ensures
        s@ == "wave loaded: "@ + decimal(num_samples as nat) + " samples"@,
{
    let mut s = String::from_str("wave loaded: ");
    let n = decimal_string(num_samples as u64);
    s.append(n.as_str());
    s.append(" samples");
    s
}

} // verus!
