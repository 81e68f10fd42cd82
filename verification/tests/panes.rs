use imbolc::action::{
    Action, FileSelectAction, InstrumentAction, MidiAction, NavAction, SessionAction, StepSize,
};
use imbolc::add_effect::{AddEffectOption, AddEffectPane};
use imbolc::command_palette::CommandPalettePane;
use imbolc::confirm::{ConfirmPane, PendingAction};
use imbolc::effects::EffectType;
use imbolc::eq::{step_of, EqPane, EqTarget};
use imbolc::keymap::{KeyCode, Keymap};
use imbolc::midi_settings::{CcMapping, MidiSection, MidiSettingsPane};
use imbolc::screen::ScreenRect;

fn palette_with_commands() -> CommandPalettePane {
    let mut p = CommandPalettePane::new(Keymap::new());
    p.open(vec![
        ("save".to_string(), "Save project".to_string(), "Ctrl-s".to_string()),
        ("save_as".to_string(), "Save project as".to_string(), "".to_string()),
        ("load".to_string(), "Load project".to_string(), "Ctrl-o".to_string()),
        ("switch:mixer".to_string(), "Go to MIXER".to_string(), "F4".to_string()),
    ]);
    p
}

fn type_text(p: &mut CommandPalettePane, text: &str) {
    for c in text.chars() {
        p.handle_raw_input(KeyCode::Char(c));
    }
}

#[test]
fn palette_open_lists_everything() {
    let p = palette_with_commands();
    assert_eq!(p.filtered, vec![0, 1, 2, 3]);
    assert_eq!(p.selected, 0);
}

#[test]
fn palette_filters_case_insensitively() {
    let mut p = palette_with_commands();
    type_text(&mut p, "MIX");
    assert_eq!(p.filtered, vec![3]);
}

#[test]
fn palette_filter_matches_description_lowercased() {
    let mut p = palette_with_commands();
    type_text(&mut p, "go to mixer");
    assert_eq!(p.filtered, vec![3]);
}

#[test]
fn palette_tab_completes_common_prefix() {
    let mut p = palette_with_commands();
    type_text(&mut p, "sav");
    assert_eq!(p.filtered, vec![0, 1]);
    p.handle_raw_input(KeyCode::Tab);
    let typed: String = p.input.iter().collect();
    assert_eq!(typed, "save");
}

#[test]
fn palette_confirm_hands_out_command() {
    let mut p = palette_with_commands();
    type_text(&mut p, "load");
    let a = p.handle_action("palette:confirm");
    assert!(matches!(a, Action::Nav(NavAction::PopPane)));
    assert_eq!(p.take_command(), Some("load".to_string()));
    assert_eq!(p.take_command(), None);
}

#[test]
fn palette_cancel_hands_out_nothing() {
    let mut p = palette_with_commands();
    let a = p.handle_action("palette:cancel");
    assert!(matches!(a, Action::Nav(NavAction::PopPane)));
    assert_eq!(p.take_command(), None);
}

#[test]
fn confirm_pane_yes_gives_pending_action() {
    let mut p = ConfirmPane::new(Keymap::new());
    p.set_confirm("Discard changes?", PendingAction::LoadFrom("a.sqlite".to_string()));
    assert!(!p.selected);
    match p.confirm_action() {
        Action::Session(SessionAction::LoadFrom(path)) => assert_eq!(path, "a.sqlite"),
        _ => panic!("expected LoadFrom"),
    }
    p.set_confirm("Quit?", PendingAction::Quit);
    assert!(matches!(p.confirm_action(), Action::Quit));
    assert_eq!(p.id(), "confirm");
}

#[test]
fn eq_pane_moves_and_clamps() {
    let mut p = EqPane::new(Keymap::new());
    let target = EqTarget { id: 4, band_enabled: Some(vec![true; 12]) };
    assert!(matches!(p.handle_action("prev_band", Some(&target)), Action::NoOp));
    assert_eq!(p.selected_band, 0);
    p.handle_action("next_param", Some(&target));
    p.handle_action("next_param", Some(&target));
    p.handle_action("next_param", Some(&target));
    assert_eq!(p.selected_param, 3);
    assert_eq!(p.id(), "eq");
}

#[test]
fn eq_pane_without_target_does_nothing() {
    let mut p = EqPane::new(Keymap::new());
    assert!(matches!(p.handle_action("next_band", None), Action::NoOp));
    assert_eq!(p.selected_band, 0);
}

#[test]
fn eq_step_sizes() {
    assert_eq!(step_of("increase_big"), StepSize::Big);
    assert_eq!(step_of("decrease_tiny"), StepSize::Tiny);
    assert_eq!(step_of("increase"), StepSize::Normal);
}

#[test]
fn eq_nudge_names_band_and_param() {
    let mut p = EqPane::new(Keymap::new());
    let target = EqTarget { id: 4, band_enabled: Some(vec![true; 12]) };
    match p.handle_action("increase", Some(&target)) {
        Action::Instrument(InstrumentAction::AdjustEqParam { instrument, band, param, increase, step }) => {
            assert_eq!(instrument, 4);
            assert_eq!(band, 0);
            assert_eq!(param, 1);
            assert!(increase);
            assert_eq!(step, StepSize::Normal);
        }
        _ => panic!("expected an EQ nudge"),
    }
}

#[test]
fn midi_settings_sections_and_cursor() {
    let mut p = MidiSettingsPane::new(Keymap::new());
    let mappings = vec![CcMapping { cc_number: 7, channel: None }, CcMapping { cc_number: 10, channel: Some(2) }];
    p.handle_action("down", 3, &mappings, None);
    p.handle_action("down", 3, &mappings, None);
    p.handle_action("down", 3, &mappings, None);
    assert_eq!(p.port_cursor, 2);
    assert!(matches!(p.handle_action("connect", 3, &mappings, None), Action::Midi(MidiAction::ConnectPort(2))));
    p.handle_action("switch_section", 3, &mappings, None);
    assert_eq!(p.section, MidiSection::CcMappings);
    p.handle_action("down", 3, &mappings, None);
    match p.handle_action("remove_mapping", 3, &mappings, None) {
        Action::Midi(MidiAction::RemoveCcMapping { cc, channel }) => {
            assert_eq!(cc, 10);
            assert_eq!(channel, Some(2));
        }
        _ => panic!("expected a mapping removal"),
    }
}

#[test]
fn midi_settings_live_instrument() {
    let mut p = MidiSettingsPane::new(Keymap::new());
    let mappings: Vec<CcMapping> = Vec::new();
    assert!(matches!(
        p.handle_action("set_live_instrument", 0, &mappings, Some(5)),
        Action::Midi(MidiAction::SetLiveInputInstrument(Some(5)))
    ));
    assert!(matches!(p.handle_action("set_live_instrument", 0, &mappings, None), Action::NoOp));
    assert!(matches!(p.handle_action("connect", 0, &mappings, None), Action::NoOp));
}

#[test]
fn add_effect_next_skips_separators_and_prev_returns() {
    let mut p = AddEffectPane::new(Keymap::new());
    p.select_next();
    assert!(matches!(p.cached_options[p.selected], AddEffectOption::Effect(EffectType::TapeComp)));
    let here = p.selected;
    p.select_next();
    p.select_prev();
    assert_eq!(p.selected, here);
}

#[test]
fn add_effect_confirm_adds_to_instrument() {
    let mut p = AddEffectPane::new(Keymap::new());
    p.handle_action("next", Some(3));
    assert!(matches!(
        p.handle_action("confirm", Some(3)),
        Action::Instrument(InstrumentAction::AddEffect(3, EffectType::TapeComp))
    ));
    assert!(matches!(p.handle_action("confirm", None), Action::NoOp));
    assert!(matches!(p.handle_action("cancel", None), Action::Nav(NavAction::PopPane)));
}

#[test]
fn add_effect_lists_imported_vsts_then_import() {
    let mut p = AddEffectPane::new(Keymap::new());
    p.update_options(&vec![11, 12]);
    let n = p.cached_options.len();
    assert!(matches!(p.cached_options[n - 1], AddEffectOption::ImportVst));
    assert!(matches!(p.cached_options[n - 2], AddEffectOption::Effect(EffectType::Vst(12))));
    assert!(matches!(p.cached_options[n - 3], AddEffectOption::Effect(EffectType::Vst(11))));
    p.selected = n - 1;
    assert!(matches!(
        p.handle_action("confirm", Some(1)),
        Action::Session(SessionAction::OpenFileBrowser(FileSelectAction::ImportVstEffect))
    ));
}

#[test]
fn add_effect_click_confirms_entry() {
    let mut p = AddEffectPane::new(Keymap::new());
    let area = ScreenRect { x: 0, y: 3, width: 40, height: 20 };
    // The list starts at row 8: row 8 is a separator, row 9 the first effect.
    assert!(matches!(p.handle_click(8, area, Some(2)), Action::NoOp));
    assert_eq!(p.selected, 0);
    assert!(matches!(
        p.handle_click(9, area, Some(2)),
        Action::Instrument(InstrumentAction::AddEffect(2, EffectType::TapeComp))
    ));
    assert_eq!(p.selected, 1);
    assert!(matches!(p.handle_click(2, area, Some(2)), Action::NoOp));
    assert!(matches!(p.handle_click(500, area, Some(2)), Action::NoOp));
}
