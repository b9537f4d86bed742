//! The wave manager's decisions: how an event from the user interface
//! changes the wave handler and which worker action it calls for.

use vstd::prelude::*;
use crate::atom_event::Type;
use crate::dsp::sample::Sample;
use crate::wave_handler::{RecordingLaunch, WaveHandler};

verus! {

/// What the caller does after an event has been handled.
pub enum ManagerAction {
    /// Nothing.
    Nothing,
    /// Start a recording worker (with peak reports or without) and keep a
    /// stop channel to it.
    LaunchRecording { with_visuals: bool },
    /// Send a stop message to the recording worker.
    StopRecording,
    /// Start a playback worker that plays this sample, and keep a stop
    /// channel to it.
    LaunchPlayback(Sample),
    /// Send a stop message to the playback worker.
    StopPlayback,
}

/// The handler `new` and the action after `old` handled `event`.
pub open spec fn handle_event_post(
    old: WaveHandler,
    event: Type,
    rec_inputs: bool,
    rec_visuals: bool,
    play_outputs: bool,
    new: WaveHandler,
    action: ManagerAction,
) -> bool {
    match event {
        Type::Recording(true) => {
            &&& (if rec_inputs {
                action == ManagerAction::LaunchRecording { with_visuals: rec_visuals }
            } else {
                action == ManagerAction::Nothing
            })
            &&& rec_inputs ==> new == (WaveHandler {
                state_recording: true,
                rec_processing: true,
                tx_stop_rec_bus: true,
                ..old
            })
            &&& !rec_inputs ==> new == old
        },
        Type::Recording(false) => {
            &&& (if old.tx_stop_rec_bus {
                action == ManagerAction::StopRecording
            } else {
                action == ManagerAction::Nothing
            })
            &&& new == old
        },
        Type::Playback(true) => {
            &&& (if play_outputs && old.sample is Some {
                action == ManagerAction::LaunchPlayback(old.sample->0)
            } else {
                action == ManagerAction::Nothing
            })
            &&& (play_outputs && old.sample is Some) ==> new == (WaveHandler {
                sample: None,
                state_playback: true,
                play_processing: true,
                tx_stop_play_bus: true,
                ..old
            })
            &&& !(play_outputs && old.sample is Some) ==> new == (WaveHandler {
                sample: None,
                state_playback: true,
                ..old
            })
        },
        Type::Playback(false) => {
            &&& (if old.tx_stop_play_bus {
                action == ManagerAction::StopPlayback
            } else {
                action == ManagerAction::Nothing
            })
            &&& new == old
        },
        Type::ChangeStartAdress(address) => {
            &&& action == ManagerAction::Nothing
            &&& new == (WaveHandler { start_address: address, ..old })
        },
        Type::ChangeEndAdress(address) => {
            &&& action == ManagerAction::Nothing
            &&& new == (WaveHandler { end_address: address, ..old })
        },
    }
}

/// A recording that an event started can be stopped by the next event:
/// `Recording(true)` with the inputs there launches a recording worker,
/// and a following `Recording(false)` sends it a stop message.
pub proof fn law_started_recording_stops(
    h0: WaveHandler,
    h1: WaveHandler,
    h2: WaveHandler,
    visuals: bool,
    a1: ManagerAction,
    a2: ManagerAction,
    ri: bool,
    rv: bool,
    po1: bool,
    po2: bool,
)
    requires
        handle_event_post(h0, Type::Recording(true), true, visuals, po1, h1, a1),
        handle_event_post(h1, Type::Recording(false), ri, rv, po2, h2, a2),
    ensures
        a1 == (ManagerAction::LaunchRecording { with_visuals: visuals }),
        a2 == ManagerAction::StopRecording,
        h2.state_recording,
{
}

/// A playback start marks the handler as playing, whether or not a
/// playback worker was launched, so that the worker is watched until it
/// ends; when one is launched, the handler holds it and a stop channel to
/// it, and the sample it plays is the one the handler held.
pub proof fn law_playback_start_marks_playing(
    h0: WaveHandler,
    h1: WaveHandler,
    ri: bool,
    rv: bool,
    po: bool,
    action: ManagerAction,
)
    requires
        handle_event_post(h0, Type::Playback(true), ri, rv, po, h1, action),
    ensures
        h1.state_playback,
        h1.sample is None,
        h1.state_recording == h0.state_recording,
        action is LaunchPlayback ==> h1.play_processing && h1.tx_stop_play_bus && h0.sample
            == Some(action->0),
        (po && h0.sample is Some) <==> action is LaunchPlayback,
{
}

/// Stop events never start anything and change no state: after
/// `Recording(false)` or `Playback(false)` the handler is as it was, and
/// the only action is a stop message.
pub proof fn law_stop_events_change_nothing(
    h0: WaveHandler,
    h1: WaveHandler,
    stop_playback: bool,
    ri: bool,
    rv: bool,
    po: bool,
    action: ManagerAction,
)
    requires
        handle_event_post(
            h0,
            if stop_playback {
                Type::Playback(false)
            } else {
                Type::Recording(false)
            },
            ri,
            rv,
            po,
            h1,
            action,
        ),
    ensures
        h1 == h0,
        action is Nothing || action is StopRecording || action is StopPlayback,
{
}

/// Handles one event. `rec_inputs` and `rec_visuals` say whether the
/// recording inputs and display outputs are there, `play_outputs` whether
/// the playback outputs are.
///
/// - `Recording(true)` starts a recording (see `WaveHandler::start_recording`);
/// - `Recording(false)` stops it when a stop channel is held;
/// - `Playback(true)` starts playback (see `WaveHandler::start_playback`) and
///   marks playback as running, started or not;
/// - `Playback(false)` stops it when a stop channel is held;
/// - the address events move the start or the end address.
pub fn handle_event(
    handler: &mut WaveHandler,
    event: Type,
    rec_inputs: bool,
    rec_visuals: bool,
    play_outputs: bool,
) -> (action: ManagerAction)
    ensures
        handle_event_post(*old(handler), event, rec_inputs, rec_visuals, play_outputs, *final(handler), action),
{
    match event {
        Type::Recording(state) => {
            if state {
                match handler.start_recording(rec_inputs, rec_visuals) {
                    RecordingLaunch::NotStarted => ManagerAction::Nothing,
                    RecordingLaunch::WithVisuals => ManagerAction::LaunchRecording {
                        with_visuals: true,
                    },
                    RecordingLaunch::WithoutVisuals => ManagerAction::LaunchRecording {
                        with_visuals: false,
                    },
                }
            } else if handler.stop_recording() {
                ManagerAction::StopRecording
            } else {
                ManagerAction::Nothing
            }
        },
        Type::Playback(state) => {
            if state {
                let played = handler.start_playback(play_outputs);
                handler.state_playback = state;
                match played {
                    Some(sample) => ManagerAction::LaunchPlayback(sample),
                    None => ManagerAction::Nothing,
                }
            } else if handler.stop_playback() {
                ManagerAction::StopPlayback
            } else {
                ManagerAction::Nothing
            }
        },
        Type::ChangeStartAdress(address) => {
            handler.change_start_address(address);
            ManagerAction::Nothing
        },
        Type::ChangeEndAdress(address) => {
            handler.change_end_address(address);
            ManagerAction::Nothing
        },
    }
}

} // verus!
