use imbolc::navigation::{
    editor_pane, global_command, help_title, is_editor_family, parse_usize, select_instrument,
    select_step, selection_for_number, sync_pane_layer, sync_piano_roll_to_selection, track_of_instrument, DigitOutcome,
    GlobalCommand, InstrumentKind, InstrumentSelectMode, SelectionSync, ViewHistory, ViewState,
};

fn view(pane_id: &'static str) -> ViewState {
    ViewState { pane_id, inst_selection: None, edit_tab: 0 }
}

#[test]
fn history_back_then_forward_returns() {
    let mut h = ViewHistory::new();
    h.record_switch(view("piano_roll"), view("mixer"));
    h.record_switch(view("mixer"), view("server"));
    assert_eq!(h.views.len(), 3);
    assert_eq!(h.cursor, 2);

    let back = h.nav_back(view("server"));
    assert_eq!(back.map(|v| v.pane_id), Some("mixer"));
    assert_eq!(h.cursor, 1);

    let fwd = h.nav_forward(view("mixer"));
    assert_eq!(fwd.map(|v| v.pane_id), Some("server"));
    assert_eq!(h.cursor, 2);
}

#[test]
fn history_back_on_empty_does_nothing() {
    let mut h = ViewHistory::new();
    assert!(h.nav_back(view("mixer")).is_none());
    assert!(h.nav_forward(view("mixer")).is_none());
    assert_eq!(h.views.len(), 0);
}

#[test]
fn switch_drops_forward_history() {
    let mut h = ViewHistory::new();
    h.record_switch(view("a"), view("b"));
    h.record_switch(view("b"), view("c"));
    h.nav_back(view("c"));
    h.record_switch(view("b"), view("d"));
    let ids: Vec<&str> = h.views.iter().map(|v| v.pane_id).collect();
    assert_eq!(ids, vec!["a", "b", "d"]);
    assert_eq!(h.cursor, 2);
}

#[test]
fn two_digit_selection() {
    let (m, o) = select_step(InstrumentSelectMode::WaitingFirstDigit, Some('1'));
    assert_eq!(m, InstrumentSelectMode::WaitingSecondDigit(1));
    assert_eq!(o, DigitOutcome::Consumed);
    let (m, o) = select_step(m, Some('2'));
    assert_eq!(m, InstrumentSelectMode::Normal);
    assert_eq!(o, DigitOutcome::Select(12));
}

#[test]
fn two_digit_double_zero_selects_ten() {
    let (m, _) = select_step(InstrumentSelectMode::WaitingFirstDigit, Some('0'));
    let (_, o) = select_step(m, Some('0'));
    assert_eq!(o, DigitOutcome::Select(10));
}

#[test]
fn two_digit_non_digit_cancels() {
    let (m, o) = select_step(InstrumentSelectMode::WaitingFirstDigit, Some('x'));
    assert_eq!(m, InstrumentSelectMode::Normal);
    assert_eq!(o, DigitOutcome::PassThrough);
    let (m, o) = select_step(InstrumentSelectMode::WaitingSecondDigit(3), None);
    assert_eq!(m, InstrumentSelectMode::Normal);
    assert_eq!(o, DigitOutcome::PassThrough);
    let (_, o) = select_step(InstrumentSelectMode::Normal, Some('5'));
    assert_eq!(o, DigitOutcome::PassThrough);
}

#[test]
fn select_by_number() {
    assert_eq!(selection_for_number(1, 3), Some(0));
    assert_eq!(selection_for_number(3, 3), Some(2));
    assert_eq!(selection_for_number(4, 3), None);
    assert_eq!(selection_for_number(0, 3), Some(0));
    assert_eq!(selection_for_number(10, 10), Some(9));
}

#[test]
fn track_lookup() {
    let order = vec![7u32, 3, 9];
    assert_eq!(track_of_instrument(&order, 9), Some(2));
    assert_eq!(track_of_instrument(&order, 4), None);
}

#[test]
fn editor_pane_follows_source() {
    assert_eq!(editor_pane(true, false, false), "sequencer");
    assert_eq!(editor_pane(false, true, false), "waveform");
    assert_eq!(editor_pane(false, false, true), "waveform");
    assert_eq!(editor_pane(false, false, false), "piano_roll");
    assert!(is_editor_family("waveform"));
    assert!(!is_editor_family("mixer"));
}

#[test]
fn help_titles() {
    assert_eq!(help_title("mixer"), "Mixer");
    assert_eq!(help_title("eq"), "Parametric EQ");
    assert_eq!(help_title("custom_pane"), "custom_pane");
}

#[test]
fn parses_numbers() {
    assert_eq!(parse_usize("42"), Some(42));
    assert_eq!(parse_usize("+7"), Some(7));
    assert_eq!(parse_usize(""), None);
    assert_eq!(parse_usize("4x"), None);
    assert_eq!(parse_usize("-1"), None);
}

#[test]
fn global_commands() {
    assert_eq!(global_command("quit"), GlobalCommand::Quit);
    assert_eq!(global_command("select:3"), GlobalCommand::Select(3));
    assert_eq!(global_command("select:x"), GlobalCommand::SelectInvalid);
    assert_eq!(global_command("switch:mixer"), GlobalCommand::SwitchTo("mixer"));
    assert_eq!(global_command("escape"), GlobalCommand::NotHandled);
}

fn kinds() -> Vec<InstrumentKind> {
    vec![
        InstrumentKind { id: 10, is_kit: false, is_audio_input: false, is_bus_in: false },
        InstrumentKind { id: 11, is_kit: true, is_audio_input: false, is_bus_in: false },
        InstrumentKind { id: 12, is_kit: false, is_audio_input: true, is_bus_in: false },
    ]
}

#[test]
fn selection_moves_track_mixer_and_editor() {
    let order = vec![11, 10];
    let s = sync_piano_roll_to_selection(Some(0), &kinds(), &order, "piano_roll", false);
    assert_eq!(s, SelectionSync { track: Some(1), mixer_instrument: None, switch_to: None });
    let s = sync_piano_roll_to_selection(Some(1), &kinds(), &order, "piano_roll", false);
    assert_eq!(s.track, Some(0));
    assert_eq!(s.switch_to, Some("sequencer"));
    let s = sync_piano_roll_to_selection(Some(2), &kinds(), &order, "sequencer", false);
    assert_eq!(s.track, None);
    assert_eq!(s.switch_to, Some("waveform"));
    let s = sync_piano_roll_to_selection(Some(0), &kinds(), &order, "mixer", true);
    assert_eq!(s.mixer_instrument, Some(0));
    assert_eq!(s.switch_to, None);
    let none = SelectionSync { track: None, mixer_instrument: None, switch_to: None };
    assert_eq!(sync_piano_roll_to_selection(None, &kinds(), &order, "mixer", true), none);
    assert_eq!(sync_piano_roll_to_selection(Some(5), &kinds(), &order, "mixer", true), none);
}

#[test]
fn select_instrument_by_number() {
    let order = vec![11, 10];
    let (i, s, reload) = select_instrument(2, &kinds(), &order, "instrument_edit", false).unwrap();
    assert_eq!(i, 1);
    assert_eq!(s.track, Some(0));
    assert!(reload);
    assert_eq!(select_instrument(0, &kinds(), &order, "track", false).map(|r| r.0), Some(0));
    assert!(select_instrument(4, &kinds(), &order, "track", false).is_none());
}

#[test]
fn pane_switch_carries_or_drops_performance_modes() {
    let r = sync_pane_layer(true, false, true);
    assert!(r.activate_piano && !r.activate_pad && !r.drop_modes);
    let r = sync_pane_layer(false, true, false);
    assert!(!r.activate_piano && !r.activate_pad && r.drop_modes);
    let r = sync_pane_layer(false, false, false);
    assert!(!r.activate_piano && !r.activate_pad && !r.drop_modes);
}

#[test]
fn entering_the_mixer_selects_the_instrument_channel() {
    let mut h = ViewHistory::new();
    assert_eq!(h.switch_to_pane(view("piano_roll"), view("mixer"), Some(3)), Some(3));
    assert_eq!(h.views.len(), 2);
    assert_eq!(h.cursor, 1);
    assert_eq!(h.switch_to_pane(view("mixer"), view("server"), Some(3)), None);
    assert_eq!(h.switch_to_pane(view("server"), view("mixer"), None), None);
    assert_eq!(h.views.len(), 4);
    assert_eq!(h.cursor, 3);
}
