use imbolc::action::{Action, PianoRollAction};
use imbolc::keymap::Keymap;
use imbolc::piano_roll::PianoRollPane;

#[test]
fn cursor_moves_with_arrow_actions() {
    let mut pane = PianoRollPane::new(Keymap::new());
    let tracks: Vec<u32> = Vec::new();

    let start_pitch = pane.cursor_pitch;
    pane.handle_action("up", &tracks, false);
    assert_eq!(pane.cursor_pitch, start_pitch + 1);

    pane.handle_action("down", &tracks, false);
    assert_eq!(pane.cursor_pitch, start_pitch);

    let start_tick = pane.cursor_tick;
    pane.handle_action("right", &tracks, false);
    assert!(pane.cursor_tick > start_tick);

    pane.handle_action("left", &tracks, false);
    assert_eq!(pane.cursor_tick, start_tick);
}

#[test]
fn zoom_in_out_clamps() {
    let mut pane = PianoRollPane::new(Keymap::new());
    let tracks: Vec<u32> = Vec::new();

    pane.zoom_level = 1;
    pane.handle_action("zoom_in", &tracks, false);
    assert_eq!(pane.zoom_level, 1);

    pane.handle_action("zoom_out", &tracks, false);
    assert_eq!(pane.zoom_level, 2);
}

#[test]
fn home_resets_cursor_and_view() {
    let mut pane = PianoRollPane::new(Keymap::new());
    let tracks: Vec<u32> = Vec::new();

    pane.cursor_tick = 960;
    pane.view_start_tick = 480;
    pane.handle_action("home", &tracks, false);
    assert_eq!(pane.cursor_tick, 0);
    assert_eq!(pane.view_start_tick, 0);
}

#[test]
fn toggle_note_returns_action() {
    let mut pane = PianoRollPane::new(Keymap::new());
    let tracks: Vec<u32> = Vec::new();

    let action = pane.handle_action("toggle_note", &tracks, false);
    assert!(matches!(action, Action::PianoRoll(PianoRollAction::ToggleNote { .. })));
}

#[test]
fn can_handle_refuses_a_step_past_the_last_tick() {
    let mut pane = PianoRollPane::new(Keymap::new());
    assert!(pane.can_handle("up"));
    assert!(pane.can_handle("right"));
    assert!(pane.can_handle("toggle_note"));
    pane.cursor_tick = u32::MAX - 100;
    pane.view_start_tick = u32::MAX - 100;
    assert!(!pane.can_handle("right"));
    assert!(pane.can_handle("home"));
}

#[test]
fn note_settings_stay_in_midi_range() {
    let mut pane = PianoRollPane::new(Keymap::new());
    let tracks: Vec<u32> = Vec::new();
    for _ in 0..100 {
        pane.handle_action("octave_up", &tracks, false);
        pane.handle_action("vel_up", &tracks, false);
        pane.handle_action("shrink_duration", &tracks, false);
    }
    assert_eq!(pane.cursor_pitch(), 127);
    assert_eq!(pane.default_velocity, 127);
    assert_eq!(pane.default_duration, 240);
    for _ in 0..100 {
        pane.handle_action("vel_down", &tracks, false);
    }
    assert_eq!(pane.default_velocity, 1);
}
