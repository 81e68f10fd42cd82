use imbolc::action::{Action, MixerAction, MixerSelection, PianoRollAction};
use imbolc::piano_roll::Note;
use imbolc::playback::{ActiveNote, Transport};
use imbolc::session::{Bus, Channel, EngineCommand, SendLevel, SessionState, Track};

fn state() -> SessionState {
    SessionState {
        channels: vec![
            Channel { id: 1, level: 80, pan: 0, mute: false, solo: false, sends: vec![SendLevel { bus_id: 2, level: 0, enabled: false }] },
            Channel { id: 2, level: 50, pan: -90, mute: false, solo: false, sends: Vec::new() },
        ],
        buses: vec![
            Bus { id: 1, level: 100, pan: 0, mute: false, solo: false },
            Bus { id: 2, level: 40, pan: 0, mute: false, solo: false },
        ],
        master_level: 90,
        master_mute: false,
        selection: MixerSelection::Instrument(0),
        tracks: vec![Track { module_id: 1, polyphonic: true, notes: Vec::new() }],
        transport: Transport {
            playing: false,
            recording: false,
            looping: false,
            playhead: 0,
            loop_start: 0,
            loop_end: 1920,
            time_signature: (4, 4),
        },
        active_notes: Vec::new(),
    }
}

fn mixer(m: MixerAction) -> Action {
    Action::Mixer(m)
}

#[test]
fn levels_and_pans_stay_in_range() {
    let mut s = state();
    assert_eq!(s.apply_action(&mixer(MixerAction::AdjustLevel(50)), true), vec![EngineCommand::RebuildRouting]);
    assert_eq!(s.channels[0].level, 100);
    s.apply_action(&mixer(MixerAction::AdjustLevel(-5)), false);
    assert_eq!(s.channels[0].level, 95);
    s.selection = MixerSelection::Instrument(1);
    s.apply_action(&mixer(MixerAction::AdjustPan(-20)), false);
    assert_eq!(s.channels[1].pan, -100);
    s.selection = MixerSelection::Master;
    s.apply_action(&mixer(MixerAction::AdjustLevel(-95)), false);
    assert_eq!(s.master_level, 0);
    assert_eq!(s.channels[1].level, 50);
}

#[test]
fn mute_and_solo_update_the_buses() {
    let mut s = state();
    s.selection = MixerSelection::Bus(2);
    let cmds = s.apply_action(&mixer(MixerAction::ToggleMute), true);
    assert_eq!(cmds, vec![EngineCommand::SetBusMixer { bus: 2, level: 40, mute: true, pan: 0 }, EngineCommand::RebuildRouting]);
    assert!(s.buses[1].mute);
    s.selection = MixerSelection::Bus(1);
    let cmds = s.apply_action(&mixer(MixerAction::ToggleSolo), true);
    assert_eq!(cmds, vec![
        EngineCommand::SetBusMixer { bus: 1, level: 100, mute: false, pan: 0 },
        EngineCommand::SetBusMixer { bus: 2, level: 40, mute: true, pan: 0 },
        EngineCommand::RebuildRouting,
    ]);
    s.selection = MixerSelection::Bus(9);
    assert_eq!(s.apply_action(&mixer(MixerAction::ToggleMute), true), vec![EngineCommand::RebuildRouting]);
    s.selection = MixerSelection::Instrument(0);
    s.apply_action(&mixer(MixerAction::ToggleMute), false);
    assert!(s.channels[0].mute);
    assert_eq!(s.toggle_master_mute(true), vec![EngineCommand::RebuildRouting]);
    assert!(s.master_mute);
    assert_eq!(s.selection, MixerSelection::Instrument(0));
}

#[test]
fn sends_switch_on_at_half_level() {
    let mut s = state();
    assert_eq!(s.apply_action(&mixer(MixerAction::ToggleSend(2)), false), vec![]);
    assert_eq!(s.channels[0].sends[0], SendLevel { bus_id: 2, level: 50, enabled: true });
    s.apply_action(&mixer(MixerAction::AdjustSend(2, 70)), true);
    assert_eq!(s.channels[0].sends[0].level, 100);
    s.apply_action(&mixer(MixerAction::AdjustSend(7, 10)), true);
    assert_eq!(s.channels[0].sends.len(), 1);
    s.apply_action(&mixer(MixerAction::SelectAt(MixerSelection::Bus(1))), false);
    assert_eq!(s.selection, MixerSelection::Bus(1));
    assert!(s.apply_action(&mixer(MixerAction::Move(1)), true).is_empty());
    assert_eq!(s.selection, MixerSelection::Bus(1));
}

#[test]
fn notes_toggle_and_transport_switches() {
    let mut s = state();
    let toggle = Action::PianoRoll(PianoRollAction::ToggleNote { pitch: 60, tick: 480, duration: 240, velocity: 100, track: 0 });
    s.apply_action(&toggle, false);
    assert_eq!(s.tracks[0].notes, vec![Note { pitch: 60, tick: 480, duration: 240, velocity: 100 }]);
    s.apply_action(&toggle, false);
    assert!(s.tracks[0].notes.is_empty());
    s.apply_action(&Action::PianoRoll(PianoRollAction::SetLoopStart(960)), false);
    s.apply_action(&Action::PianoRoll(PianoRollAction::SetLoopEnd(3840)), false);
    s.apply_action(&Action::PianoRoll(PianoRollAction::ToggleLoop), false);
    assert_eq!((s.transport.loop_start, s.transport.loop_end, s.transport.looping), (960, 3840, true));
    s.apply_action(&Action::PianoRoll(PianoRollAction::TogglePolyMode(0)), false);
    assert!(!s.tracks[0].polyphonic);
    assert!(s.apply_action(&Action::PianoRoll(PianoRollAction::PlayStop), true).is_empty());
    s.transport.playhead = 700;
    s.active_notes.push(ActiveNote { module_id: 1, pitch: 60, remaining: 100 });
    assert_eq!(s.apply_action(&Action::PianoRoll(PianoRollAction::PlayStop), true), vec![EngineCommand::ReleaseAllVoices]);
    assert!(!s.transport.playing);
    assert_eq!(s.transport.playhead, 0);
    assert!(s.active_notes.is_empty());
    s.apply_action(&Action::PianoRoll(PianoRollAction::CycleTimeSig), false);
    assert_eq!(s.transport.time_signature, (3, 4));
}
