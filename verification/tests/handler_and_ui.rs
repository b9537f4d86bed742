use atom_sampler::atom_event::{AtomEvent, Type};
use atom_sampler::jackprocess::TransportState;
use atom_sampler::mockup::MockupGUI;
use atom_sampler::ui::elements::{
    pad_press_logged, pad_pressed_after, status_after, DebugConsole, DroppedFileInfo,
};
use atom_sampler::ui::sampler::{next_wave_pos, pad_transition, send_report, wave_loaded_message};
use atom_sampler::wave_handler::{RecordingLaunch, RecordingPoll, WaveHandler};
use atom_sampler::wave_manager::{handle_event, ManagerAction};

#[test]
fn handler_starts_idle() {
    let h = WaveHandler::new();
    assert!(h.sample.is_none());
    assert!(!h.state_recording && !h.state_playback);
    assert!(!h.rec_processing && !h.play_processing);
    assert!(!h.tx_stop_rec_bus && !h.tx_stop_play_bus);
    assert_eq!((h.start_address, h.end_address), (0, 0));
    assert!(h.path.is_none());
    assert!(!h.is_loaded);
}

#[test]
fn handler_recording_lifecycle() {
    let mut h = WaveHandler::new();
    assert!(!h.stop_recording());
    assert_eq!(h.start_recording(false, true), RecordingLaunch::NotStarted);
    assert!(!h.state_recording);
    assert_eq!(h.start_recording(true, false), RecordingLaunch::WithoutVisuals);
    assert!(h.state_recording && h.rec_processing && h.tx_stop_rec_bus);
    assert!(h.stop_recording());
    h.get_recording(RecordingPoll::Running);
    assert!(h.state_recording);
    h.get_recording(RecordingPoll::Finished(Some((vec![1, 2], vec![3, 4]))));
    assert!(!h.state_recording && !h.rec_processing);
    let s = h.sample.as_ref().unwrap();
    assert_eq!(s.data_left, vec![1, 2]);
    assert_eq!(s.data_right, vec![3, 4]);
}

#[test]
fn handler_failed_recording_keeps_sample() {
    let mut h = WaveHandler::new();
    assert_eq!(h.start_recording(true, true), RecordingLaunch::WithVisuals);
    h.get_recording(RecordingPoll::Finished(None));
    assert!(!h.state_recording);
    assert!(h.sample.is_none());
}

#[test]
fn handler_ignores_poll_without_worker() {
    let mut h = WaveHandler::new();
    h.get_recording(RecordingPoll::Finished(Some((vec![1], vec![1]))));
    assert!(h.sample.is_none());
}

#[test]
fn recording_is_played_back() {
    let mut h = WaveHandler::new();
    h.start_recording(true, true);
    h.get_recording(RecordingPoll::Finished(Some((vec![5, 6, 7], vec![8]))));
    let played = h.start_playback(true).unwrap();
    assert_eq!(played.data_left, vec![5, 6, 7]);
    assert_eq!(played.data_right, vec![8]);
    assert!(h.play_processing && h.tx_stop_play_bus);
    assert!(h.stop_playback());
    assert!(h.start_playback(true).is_none());
}

#[test]
fn playback_without_outputs_drops_sample() {
    let mut h = WaveHandler::new();
    h.start_recording(true, true);
    h.get_recording(RecordingPoll::Finished(Some((vec![5], vec![8]))));
    assert!(h.start_playback(false).is_none());
    assert!(h.sample.is_none());
    assert!(!h.play_processing);
}

#[test]
fn playback_finishes_only_with_worker() {
    let mut h = WaveHandler::new();
    h.state_playback = true;
    h.get_playback_finished(true);
    assert!(h.state_playback);
    h.play_processing = true;
    h.get_playback_finished(false);
    assert!(h.state_playback && h.play_processing);
    h.get_playback_finished(true);
    assert!(!h.state_playback && !h.play_processing);
}

#[test]
fn handler_addresses() {
    let mut h = WaveHandler::new();
    h.change_start_address(12);
    h.change_end_address(34);
    assert_eq!((h.start_address, h.end_address), (12, 34));
}

#[test]
fn manager_start_then_stop_recording() {
    let mut h = WaveHandler::new();
    let a = handle_event(&mut h, Type::Recording(true), true, true, true);
    assert!(matches!(a, ManagerAction::LaunchRecording { with_visuals: true }));
    let a = handle_event(&mut h, Type::Recording(false), true, true, true);
    assert!(matches!(a, ManagerAction::StopRecording));
    assert!(h.state_recording);
}

#[test]
fn manager_stop_without_start_does_nothing() {
    let mut h = WaveHandler::new();
    assert!(matches!(handle_event(&mut h, Type::Recording(false), true, true, true), ManagerAction::Nothing));
    assert!(matches!(handle_event(&mut h, Type::Playback(false), true, true, true), ManagerAction::Nothing));
    assert!(matches!(handle_event(&mut h, Type::Recording(true), false, true, true), ManagerAction::Nothing));
    assert!(!h.state_recording);
}

#[test]
fn manager_playback_marks_running_even_without_sample() {
    let mut h = WaveHandler::new();
    let a = handle_event(&mut h, Type::Playback(true), false, false, true);
    assert!(matches!(a, ManagerAction::Nothing));
    assert!(h.state_playback);
    assert!(!h.play_processing);
}

#[test]
fn manager_playback_launches_sample() {
    let mut h = WaveHandler::new();
    handle_event(&mut h, Type::Recording(true), true, false, false);
    h.get_recording(RecordingPoll::Finished(Some((vec![9], vec![10]))));
    match handle_event(&mut h, Type::Playback(true), false, false, true) {
        ManagerAction::LaunchPlayback(s) => assert_eq!(s.data_left, vec![9]),
        _ => panic!("playback not launched"),
    }
    assert!(matches!(handle_event(&mut h, Type::Playback(false), false, false, true), ManagerAction::StopPlayback));
}

#[test]
fn manager_addresses() {
    let mut h = WaveHandler::new();
    assert!(matches!(handle_event(&mut h, Type::ChangeStartAdress(5), false, false, false), ManagerAction::Nothing));
    assert!(matches!(handle_event(&mut h, Type::ChangeEndAdress(9), false, false, false), ManagerAction::Nothing));
    assert_eq!((h.start_address, h.end_address), (5, 9));
}

#[test]
fn transport_follows_events() {
    let mut t = TransportState::new();
    assert!(!t.recording && !t.playback);
    t.apply(Some(Type::Recording(true)));
    assert!(t.recording && !t.playback);
    t.apply(Some(Type::Playback(true)));
    t.apply(Some(Type::ChangeStartAdress(3)));
    t.apply(None);
    assert!(t.recording && t.playback);
    t.apply(Some(Type::Recording(false)));
    assert!(!t.recording && t.playback);
}

#[test]
fn press_release_round_trip_on_transport() {
    let mut t = TransportState::new();
    let press = pad_transition(false, true, true).unwrap();
    t.apply(Some(press.event.event_type));
    assert!(t.recording);
    let release = pad_transition(true, false, true).unwrap();
    t.apply(Some(release.event.event_type));
    assert!(!t.recording && !t.playback);
}

#[test]
fn console_add_entry_counts() {
    let mut c = DebugConsole { n_items: 0, msgs: Vec::new() };
    c.add_entry("a".to_string());
    c.add_entry("b".to_string());
    assert_eq!(c.n_items, 2);
    assert_eq!(c.msgs, vec!["a".to_string(), "b".to_string()]);
    assert_eq!(c.row_text(1), "1 b");
    assert_eq!(c.row_text(0), format!("{} {}", 0, "a"));
}

#[test]
fn console_dropped_files() {
    let mut c = DebugConsole { n_items: 0, msgs: Vec::new() };
    c.log_dropped_files(&Vec::new());
    assert_eq!(c.n_items, 0);
    let files = vec![
        DroppedFileInfo { name: "a.wav".into(), mime: "audio/wav".into(), path: "/tmp/a.wav".into() },
        DroppedFileInfo { name: "b".into(), mime: "".into(), path: "/b".into() },
    ];
    c.log_dropped_files(&files);
    assert_eq!(
        c.msgs,
        vec![
            "droped file:".to_string(),
            "file 0: a.wav - Mime: audio/wav, Filepath: /tmp/a.wav".to_string(),
            "file 1: b - Mime: , Filepath: /b".to_string(),
        ]
    );
    assert_eq!(c.n_items, 3);
}

#[test]
fn console_pointer_reports() {
    let mut c = DebugConsole { n_items: 0, msgs: Vec::new() };
    c.log_pointer(false, false);
    c.log_pointer(true, true);
    c.log_pointer(false, true);
    assert_eq!(c.msgs, vec!["clicked".to_string(), "released".to_string()]);
}

#[test]
fn pad_press_and_release() {
    // press on the pad holds it
    assert!(pad_pressed_after(false, true, true, false, true, false));
    // press elsewhere keeps the state
    assert!(!pad_pressed_after(false, true, false, false, true, false));
    assert!(pad_pressed_after(true, true, false, false, true, false));
    // release anywhere, while the pointer is known, lets go
    assert!(!pad_pressed_after(true, false, false, true, true, false));
    // release without a known pointer keeps it
    assert!(pad_pressed_after(true, false, false, true, false, false));
}

#[test]
fn status_flips_on_click() {
    assert!(status_after(false, true));
    assert!(!status_after(true, true));
    assert!(status_after(true, false));
}

#[test]
fn pad_transitions() {
    assert!(pad_transition(true, true, true).is_none());
    assert!(pad_transition(false, false, false).is_none());
    let t = pad_transition(false, true, true).unwrap();
    assert_eq!(t.event, AtomEvent { channel: 0, event_type: Type::Recording(true), start: true });
    assert_eq!(t.label, "start recording");
    assert!(t.reset_plots);
    let t = pad_transition(false, true, false).unwrap();
    assert_eq!(t.event.event_type, Type::Playback(true));
    assert_eq!(t.label, "start playback");
    assert!(!t.reset_plots);
    let t = pad_transition(true, false, false).unwrap();
    assert_eq!(t.event.event_type, Type::Playback(false));
    assert!(!t.event.start);
    assert_eq!(t.label, "stop recording");
    let t = pad_transition(true, false, true).unwrap();
    assert_eq!(t.event.event_type, Type::Recording(false));
    assert_eq!(t.label, "stop recording");
}

#[test]
fn send_reports_match_debug() {
    let e = AtomEvent { channel: 0, event_type: Type::Recording(true), start: true };
    let ok: Result<(), AtomEvent> = Ok(());
    let err: Result<(), AtomEvent> = Err(e);
    assert_eq!(send_report("start recording", &e, true), format!("start recording {:?}", ok));
    assert_eq!(send_report("start recording", &e, false), format!("start recording {:?}", err));
}

#[test]
fn wave_position() {
    assert_eq!(next_wave_pos(0, true, 5000), 1000);
    assert_eq!(next_wave_pos(4500, true, 5000), 5000);
    assert_eq!(next_wave_pos(4000, true, 5000), 5000);
    assert_eq!(next_wave_pos(4500, false, 5000), 0);
    assert_eq!(next_wave_pos(0, true, 0), 0);
}

#[test]
fn wave_loaded_text() {
    assert_eq!(wave_loaded_message(48000), "wave loaded: 48000 samples");
}

#[test]
fn mockup_input() {
    let mut g = MockupGUI::default();
    assert!(!g.wave_loaded && !g.pad_button_is_pressed && g.console.n_items == 0);
    let files = vec![DroppedFileInfo { name: "x".into(), mime: "m".into(), path: "/x".into() }];
    g.apply_input(true, false, false, &files);
    assert!(g.pad_button_is_pressed);
    assert_eq!(
        g.console.msgs,
        vec![
            "droped file:".to_string(),
            "file 0: x - Mime: m, Filepath: /x".to_string(),
            "clicked".to_string(),
        ]
    );
    g.apply_input(false, true, true, &Vec::new());
    assert!(!g.pad_button_is_pressed);
    assert_eq!(g.console.msgs.last().unwrap(), "released");
    g.apply_input(false, false, false, &Vec::new());
    assert!(!g.pad_button_is_pressed);
    assert_eq!(g.console.n_items, 4);
}

#[test]
fn load_window_pad_logging() {
    let mut c = DebugConsole { n_items: 0, msgs: Vec::new() };
    assert!(pad_press_logged(&mut c, false, true, false));
    assert!(pad_press_logged(&mut c, true, false, false));
    // a release anywhere lets go and is reported
    assert!(!pad_press_logged(&mut c, true, false, true));
    assert_eq!(c.msgs, vec!["clicked".to_string(), "released".to_string()]);
    assert_eq!(c.n_items, 2);
}
