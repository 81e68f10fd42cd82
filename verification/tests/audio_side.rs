use imbolc::action::{Action, AutomationAction, AutomationTarget, ServerAction, VstParamAction};
use imbolc::keymap::{KeyCode, Keymap};
use imbolc::server::{
    after_recording_stopped, record_plan, recording_file_name, recording_saved_report, recording_started_report,
    AudioDevice, AudioDeviceConfig, RecordPlan, RecordSource, ServerPane, ServerPaneFocus, ServerStatus, StatusEvent,
};
use imbolc::voices::{admit_voice, count_voices, steal_oldest, take_voice, VoiceChain, VoiceEntry, MAX_VOICES_PER_MODULE};
use imbolc::vst_param::{VstParamInfo, VstParamPane};

fn device(name: &str, ins: Option<u32>, outs: Option<u32>) -> AudioDevice {
    AudioDevice { name: name.to_string(), sample_rate: None, input_channels: ins, output_channels: outs }
}

fn devices() -> Vec<AudioDevice> {
    vec![
        device("Mic", Some(1), Some(0)),
        device("Interface", Some(2), Some(2)),
        device("Speakers", None, Some(2)),
    ]
}

#[test]
fn server_pane_restores_saved_devices() {
    let config = AudioDeviceConfig { input_device: Some("Interface".to_string()), output_device: Some("Speakers".to_string()) };
    let p = ServerPane::new(Keymap::new(), devices(), &config);
    // Outputs offered: Interface, Speakers; inputs offered: Mic, Interface.
    assert_eq!(p.output_devices(), vec![1, 2]);
    assert_eq!(p.input_devices(), vec![0, 1]);
    assert_eq!(p.selected_output, 2);
    assert_eq!(p.selected_input, 2);
    assert_eq!(p.selected_output_device(), Some("Speakers".to_string()));
    assert_eq!(p.selected_input_device(), Some("Interface".to_string()));
}

#[test]
fn server_pane_unknown_device_falls_back_to_default() {
    let config = AudioDeviceConfig { input_device: Some("Gone".to_string()), output_device: None };
    let p = ServerPane::new(Keymap::new(), devices(), &config);
    assert_eq!(p.selected_input, 0);
    assert_eq!(p.selected_input_device(), None);
    assert_eq!(p.id(), "server");
}

#[test]
fn server_pane_device_list_wraps_and_confirms() {
    let config = AudioDeviceConfig { input_device: None, output_device: None };
    let mut p = ServerPane::new(Keymap::new(), devices(), &config);
    p.cycle_focus();
    assert_eq!(p.focus, ServerPaneFocus::OutputDevice);
    p.handle_raw_input(KeyCode::Up);
    assert_eq!(p.selected_output, 2);
    p.handle_raw_input(KeyCode::Down);
    assert_eq!(p.selected_output, 0);
    p.handle_raw_input(KeyCode::Down);
    let (a, saved) = p.handle_raw_input(KeyCode::Enter);
    assert!(matches!(a, Action::NoOp));
    assert!(p.device_config_dirty);
    let saved = saved.expect("the choice is returned to be saved");
    assert_eq!(saved.output_device, Some("Interface".to_string()));
    assert_eq!(saved.input_device, None);

    p.set_server_running(true, None);
    let (a, _) = p.handle_raw_input(KeyCode::Enter);
    match a {
        Action::Server(ServerAction::Restart { input_device, output_device }) => {
            assert_eq!(input_device, None);
            assert_eq!(output_device, Some("Interface".to_string()));
        }
        _ => panic!("expected a restart"),
    }
    assert!(!p.device_config_dirty);
}

#[test]
fn server_pane_refresh_keeps_choice_by_name() {
    let config = AudioDeviceConfig { input_device: None, output_device: Some("Speakers".to_string()) };
    let mut p = ServerPane::new(Keymap::new(), devices(), &config);
    p.refresh_devices(vec![device("Speakers", None, Some(2))]);
    assert_eq!(p.selected_output, 1);
    p.refresh_devices(vec![device("Other", None, Some(2))]);
    assert_eq!(p.selected_output, 0);
}

#[test]
fn server_pane_start_action() {
    let config = AudioDeviceConfig { input_device: Some("Mic".to_string()), output_device: None };
    let mut p = ServerPane::new(Keymap::new(), devices(), &config);
    match p.handle_action("start", None) {
        Action::Server(ServerAction::Start { input_device, output_device }) => {
            assert_eq!(input_device, Some("Mic".to_string()));
            assert_eq!(output_device, None);
        }
        _ => panic!("expected a start"),
    }
    assert!(matches!(p.handle_action("stop", None), Action::Server(ServerAction::Stop)));
}

#[test]
fn server_pane_status_events_and_log_tail() {
    let config = AudioDeviceConfig { input_device: None, output_device: None };
    let mut p = ServerPane::new(Keymap::new(), Vec::new(), &config);
    let events = vec![
        StatusEvent { status: ServerStatus::Starting, message: "booting".to_string(), server_running: Some(true) },
        StatusEvent { status: ServerStatus::Running, message: "up".to_string(), server_running: None },
    ];
    let lines: Vec<String> = (0..60).map(|i| format!("line {}", i)).collect();
    p.apply_status_events(&events, Some(lines));
    assert_eq!(p.status, ServerStatus::Running);
    assert_eq!(p.message, "up");
    assert!(p.server_running);
    assert_eq!(p.log_lines.len(), 50);
    assert_eq!(p.log_lines[0], "line 10");
    assert_eq!(p.log_lines[49], "line 59");

    p.apply_status_events(&Vec::new(), Some(vec!["x".to_string()]));
    assert_eq!(p.log_lines.len(), 50);
    p.set_status(ServerStatus::Error, "failed", None);
    assert_eq!(p.log_lines.len(), 50);
    p.set_status(ServerStatus::Error, "failed", Some(vec!["a".to_string(), "b".to_string()]));
    assert_eq!(p.log_lines, vec!["a".to_string(), "b".to_string()]);
    p.set_server_running(false, Some(vec!["c".to_string()]));
    assert!(!p.server_running);
    assert_eq!(p.log_lines, vec!["c".to_string()]);
}

fn params() -> Vec<VstParamInfo> {
    vec![
        VstParamInfo { index: 0, name: "Cutoff".chars().collect() },
        VstParamInfo { index: 1, name: "Volume".chars().collect() },
        VstParamInfo { index: 7, name: "MASTER VOLUME".chars().collect() },
    ]
}

#[test]
fn vst_search_is_case_insensitive() {
    let mut p = VstParamPane::new(Keymap::new());
    let ps = params();
    p.handle_action("search", Some(4), Some(&ps));
    assert!(p.search_active);
    for c in "vOl".chars() {
        p.handle_raw_input(KeyCode::Char(c), Some(4), Some(&ps));
    }
    assert_eq!(p.filtered_indices, vec![1, 2]);
    p.handle_raw_input(KeyCode::Enter, Some(4), Some(&ps));
    assert!(!p.search_active);
    p.handle_action("down", Some(4), Some(&ps));
    assert!(matches!(
        p.handle_action("right", Some(4), Some(&ps)),
        Action::VstParam(VstParamAction::AdjustParam(4, 7, 1))
    ));
    assert!(matches!(
        p.handle_action("coarse_left", Some(4), Some(&ps)),
        Action::VstParam(VstParamAction::AdjustParam(4, 7, -10))
    ));
    assert!(matches!(
        p.handle_action("automate", Some(4), Some(&ps)),
        Action::Automation(AutomationAction::AddLane(AutomationTarget::VstParam(4, 7)))
    ));
}

#[test]
fn vst_cancel_clears_search() {
    let mut p = VstParamPane::new(Keymap::new());
    let ps = params();
    p.handle_action("search", Some(4), Some(&ps));
    p.handle_raw_input(KeyCode::Char('c'), Some(4), Some(&ps));
    assert_eq!(p.filtered_indices, vec![0]);
    p.handle_raw_input(KeyCode::Backspace, Some(4), Some(&ps));
    assert_eq!(p.filtered_indices, vec![0, 1, 2]);
    p.handle_raw_input(KeyCode::Char('c'), Some(4), Some(&ps));
    p.handle_action("cancel", Some(4), Some(&ps));
    assert!(!p.search_active);
    assert!(p.search_text.is_empty());
    assert_eq!(p.filtered_indices, vec![0, 1, 2]);
}

#[test]
fn vst_instrument_change_resets_view() {
    let mut p = VstParamPane::new(Keymap::new());
    let ps = params();
    p.handle_action("goto_bottom", Some(4), Some(&ps));
    assert_eq!(p.selected_param, 2);
    p.handle_action("discover", Some(5), None);
    assert_eq!(p.selected_param, 0);
    assert!(p.filtered_indices.is_empty());
    assert!(matches!(p.handle_action("discover", Some(5), None), Action::VstParam(VstParamAction::DiscoverParams(5))));
    assert!(matches!(p.handle_action("reset", Some(5), None), Action::NoOp));
    assert!(matches!(p.handle_action("down", None, None), Action::NoOp));
    assert_eq!(p.get_param_index(2, Some(&ps)), Some(7));
    assert_eq!(p.get_param_index(3, Some(&ps)), None);
}

fn voice(module_id: u32, pitch: u8, node_id: i32) -> VoiceEntry {
    VoiceEntry { module_id, pitch, node_id }
}

#[test]
fn voice_limit_steals_oldest_of_module() {
    let mut voices: Vec<VoiceEntry> = Vec::new();
    voices.push(voice(2, 40, 900));
    for i in 0..MAX_VOICES_PER_MODULE {
        assert!(admit_voice(&mut voices, voice(1, 60 + i as u8, 100 + i as i32)).is_none());
    }
    assert_eq!(count_voices(&voices, 1), MAX_VOICES_PER_MODULE);
    let stolen = admit_voice(&mut voices, voice(1, 90, 500));
    assert_eq!(stolen, Some(voice(1, 60, 100)));
    assert_eq!(count_voices(&voices, 1), MAX_VOICES_PER_MODULE);
    assert_eq!(count_voices(&voices, 2), 1);
    assert_eq!(voices.last(), Some(&voice(1, 90, 500)));
}

#[test]
fn steal_below_limit_takes_nothing() {
    let mut voices = vec![voice(1, 60, 1)];
    assert_eq!(steal_oldest(&mut voices, 1), None);
    assert_eq!(voices.len(), 1);
}

#[test]
fn release_takes_first_matching_voice() {
    let mut chains = vec![
        VoiceChain { midi_module_id: 1, pitch: 60, group_id: 10, midi_node_id: 11 },
        VoiceChain { midi_module_id: 1, pitch: 64, group_id: 20, midi_node_id: 21 },
        VoiceChain { midi_module_id: 1, pitch: 64, group_id: 30, midi_node_id: 31 },
    ];
    let taken = take_voice(&mut chains, 1, 64);
    assert_eq!(taken.map(|c| c.group_id), Some(20));
    assert_eq!(chains.len(), 2);
    assert_eq!(take_voice(&mut chains, 2, 64), None);
    assert_eq!(chains.len(), 2);
}

#[test]
fn vst_highlight_stays_on_a_listed_row() {
    let mut p = VstParamPane::new(Keymap::new());
    let ps = params();
    p.handle_action("goto_bottom", Some(4), Some(&ps));
    assert_eq!(p.selected_param, 2);
    p.handle_action("down", Some(4), Some(&ps));
    p.handle_action("next", Some(4), Some(&ps));
    assert_eq!(p.selected_param, 2);
    assert!(p.scroll_offset <= p.selected_param);
    p.scroll_offset = 2;
    p.handle_action("up", Some(4), Some(&ps));
    assert_eq!((p.selected_param, p.scroll_offset), (1, 1));
    p.handle_action("prev", Some(4), Some(&ps));
    p.handle_action("prev", Some(4), Some(&ps));
    assert_eq!((p.selected_param, p.scroll_offset), (0, 0));
    p.handle_action("goto_bottom", Some(4), Some(&ps));
    p.handle_action("goto_top", Some(4), Some(&ps));
    assert_eq!((p.selected_param, p.scroll_offset), (0, 0));
    let empty: Vec<VstParamInfo> = Vec::new();
    let mut q = VstParamPane::new(Keymap::new());
    q.handle_action("goto_bottom", Some(4), Some(&empty));
    assert_eq!(q.selected_param, 0);
}

#[test]
fn record_keys_start_and_stop_recordings() {
    let mic = RecordSource { id: 7, audio_input: true, active: false };
    let synth = RecordSource { id: 3, audio_input: false, active: true };
    assert_eq!(record_plan(false, true, true, Some(mic)), RecordPlan::Stop);
    assert_eq!(record_plan(true, false, false, Some(mic)), RecordPlan::Nothing);
    assert_eq!(record_plan(true, false, true, None), RecordPlan::Nothing);
    assert_eq!(
        record_plan(false, false, true, Some(mic)),
        RecordPlan::Start { activate: Some(7), label: "master".to_string() }
    );
    assert_eq!(
        record_plan(true, false, true, Some(synth)),
        RecordPlan::Start { activate: None, label: "input_3".to_string() }
    );
    assert_eq!(record_plan(false, false, true, None), RecordPlan::Start { activate: None, label: "master".to_string() });
    assert_eq!(after_recording_stopped(Some(RecordSource { id: 7, audio_input: true, active: true })), Some(7));
    assert_eq!(after_recording_stopped(Some(mic)), None);
    assert_eq!(after_recording_stopped(None), None);
    assert_eq!(recording_file_name("input_3", 1700000000), "input_3_1700000000.wav");
    let saved = recording_saved_report(ServerStatus::Connected, "/tmp/master_1.wav");
    assert_eq!(saved.message, "Recording saved: /tmp/master_1.wav");
    assert_eq!(saved.server_running, None);
    let ok = recording_started_report(ServerStatus::Connected, &Ok(()), "/tmp/m.wav");
    assert_eq!(ok.message, "Recording to /tmp/m.wav");
    let err = recording_started_report(ServerStatus::Error, &Err("disk full".to_string()), "/tmp/m.wav");
    assert_eq!(err.message, "Record error: disk full");
    assert_eq!(err.status, ServerStatus::Error);
}
