use imbolc::action::{Action, FileSelectAction, InstrumentAction, NavAction, OscType, SessionAction, StripAction};
use imbolc::effects::EffectType;
use imbolc::instrument_edit::{
    EditLine, FilterType, InstrumentEditPane, InstrumentSummary, Section, SourceKind, ValueEdit,
};
use imbolc::keymap::{KeyCode, Keymap};
use imbolc::strip::{AddPane, StripEditPane, StripPane, StripState, StripSummary, Tab};

fn summary(source: SourceKind, params: usize, filter: Option<FilterType>, effects: Vec<EffectType>) -> InstrumentSummary {
    InstrumentSummary {
        id: 7,
        name: "Lead".to_string(),
        source,
        sample_name: None,
        source_param_count: params,
        filter,
        effects,
        lfo_enabled: false,
        polyphonic: true,
        active: true,
    }
}

fn editor(s: &InstrumentSummary) -> InstrumentEditPane {
    let mut p = InstrumentEditPane::new(Keymap::new());
    p.set_instrument(s);
    p
}

#[test]
fn row_layout_of_a_synth() {
    // 3 source rows, 3 filter rows, 2 effect rows, 4 LFO rows, 4 envelope rows.
    let s = summary(SourceKind::Synth, 3, Some(FilterType::Lpf), vec![EffectType::Delay, EffectType::Reverb]);
    let p = editor(&s);
    assert_eq!(p.total_rows(), 16);
    assert_eq!(p.row_info(0), (Section::Source, 0));
    assert_eq!(p.row_info(3), (Section::Filter, 0));
    assert_eq!(p.row_info(7), (Section::Effects, 1));
    assert_eq!(p.row_info(8), (Section::Lfo, 0));
    assert_eq!(p.row_info(15), (Section::Envelope, 3));
    assert_eq!(p.section_for_row(11), Section::Lfo);
}

#[test]
fn row_layout_of_sampler_and_vst() {
    let s = summary(SourceKind::Sample, 0, None, vec![]);
    let p = editor(&s);
    // sample row + 1 param row, 1 filter row, 1 effect row, 4 LFO, 4 envelope.
    assert_eq!(p.total_rows(), 12);
    let v = summary(SourceKind::Vst, 2, None, vec![]);
    let p = editor(&v);
    // 2 source, 1 filter, 1 effect, 4 LFO, no envelope.
    assert_eq!(p.total_rows(), 8);
}

#[test]
fn tab_index_round_trips() {
    let s = summary(SourceKind::Synth, 2, None, vec![EffectType::Gate]);
    let mut p = editor(&s);
    for tab in 0u8..5 {
        p.set_tab_index(tab);
        assert_eq!(p.tab_index(), tab);
    }
    p.set_tab_index(9);
    assert_eq!(p.tab_index(), 0);
}

#[test]
fn vst_has_no_envelope_tab() {
    let s = summary(SourceKind::Vst, 2, None, vec![]);
    let mut p = editor(&s);
    p.set_tab_index(3);
    let row = p.selected_row;
    p.set_tab_index(4);
    assert_eq!(p.selected_row, row);
    assert_eq!(p.tab_index(), 3);
}

#[test]
fn next_and_prev_wrap() {
    let s = summary(SourceKind::Synth, 1, None, vec![]);
    let mut p = editor(&s);
    let total = p.total_rows();
    p.handle_action("prev");
    assert_eq!(p.selected_row, total - 1);
    p.handle_action("next");
    assert_eq!(p.selected_row, 0);
}

#[test]
fn next_section_skips_envelope_of_vst() {
    let s = summary(SourceKind::Vst, 1, None, vec![]);
    let mut p = editor(&s);
    p.set_tab_index(3);
    p.handle_action("next_section");
    assert_eq!(p.current_section(), Section::Source);
    p.handle_action("prev_section");
    assert_eq!(p.current_section(), Section::Lfo);
}

#[test]
fn structural_edits_ask_for_update() {
    let s = summary(SourceKind::Synth, 1, None, vec![]);
    let mut p = editor(&s);
    let (a, e) = p.handle_action("toggle_filter");
    assert!(matches!(a, Action::Instrument(InstrumentAction::Update(7))));
    assert_eq!(e, ValueEdit::NewFilter);
    assert_eq!(p.filter, Some(FilterType::Lpf));
    p.handle_action("cycle_filter_type");
    assert_eq!(p.filter, Some(FilterType::Hpf));

    let (_, e) = p.handle_action("add_effect");
    assert_eq!(e, ValueEdit::AppendEffect(EffectType::Delay));
    let (_, e) = p.handle_action("add_effect");
    assert_eq!(e, ValueEdit::AppendEffect(EffectType::Reverb));
    assert_eq!(p.effects, vec![EffectType::Delay, EffectType::Reverb]);

    p.set_tab_index(2);
    p.handle_action("next");
    let (_, e) = p.handle_action("remove_effect");
    assert_eq!(e, ValueEdit::RemoveEffect(1));
    assert_eq!(p.effects, vec![EffectType::Delay]);
}

#[test]
fn remove_effect_outside_effects_does_nothing() {
    let s = summary(SourceKind::Synth, 1, None, vec![EffectType::Delay]);
    let mut p = editor(&s);
    let (a, e) = p.handle_action("remove_effect");
    assert!(matches!(a, Action::NoOp));
    assert_eq!(e, ValueEdit::Nothing);
    assert_eq!(p.effects.len(), 1);
}

#[test]
fn sample_row_opens_file_browser() {
    let s = summary(SourceKind::Sample, 2, None, vec![]);
    let mut p = editor(&s);
    let (a, _) = p.handle_action("enter_edit");
    assert!(matches!(
        a,
        Action::Session(SessionAction::OpenFileBrowser(FileSelectAction::LoadPitchedSample(7)))
    ));
    assert!(!p.is_editing());
    p.handle_action("next");
    let (a, _) = p.handle_action("enter_edit");
    assert!(matches!(a, Action::PushLayer("text_edit")));
    assert!(p.is_editing());
    let (_, e) = p.handle_action("text:confirm");
    assert_eq!(e, ValueEdit::ApplyText);
    assert!(!p.is_editing());
}

#[test]
fn toggle_active_only_for_audio_input() {
    let s = summary(SourceKind::Synth, 1, None, vec![]);
    let mut p = editor(&s);
    let (a, _) = p.handle_action("toggle_active");
    assert!(matches!(a, Action::NoOp));
    assert!(p.active);
    let s = summary(SourceKind::AudioInput, 1, None, vec![]);
    let mut p = editor(&s);
    p.handle_action("toggle_active");
    assert!(!p.active);
}

#[test]
fn zero_lfo_row_switches_lfo_off() {
    let mut s = summary(SourceKind::Synth, 1, None, vec![]);
    s.lfo_enabled = true;
    let mut p = editor(&s);
    p.set_tab_index(3);
    let (_, e) = p.handle_action("zero_param");
    assert_eq!(e, ValueEdit::ZeroParam);
    assert!(!p.lfo_enabled);
}

#[test]
fn apply_to_writes_back_edits() {
    let s = summary(SourceKind::Synth, 1, None, vec![]);
    let mut p = editor(&s);
    p.handle_action("toggle_poly");
    p.handle_action("toggle_lfo");
    let mut target = summary(SourceKind::Sample, 4, None, vec![EffectType::Gate]);
    target.id = 99;
    p.apply_to(&mut target);
    assert_eq!(target.id, 99);
    assert!(!target.polyphonic);
    assert!(target.lfo_enabled);
    assert_eq!(target.source, SourceKind::Synth);
    assert!(target.effects.is_empty());
}

#[test]
fn edit_without_instrument_asks_nothing() {
    let mut p = InstrumentEditPane::new(Keymap::new());
    assert_eq!(p.instrument_id(), None);
    let (a, _) = p.handle_action("done");
    assert!(matches!(a, Action::NoOp));
    assert_eq!(p.id(), "instrument_edit");
}

fn strip() -> StripSummary {
    StripSummary {
        id: 3,
        name: "Bass".to_string(),
        source: OscType::Sqr,
        source_param_count: 2,
        filter: None,
        effects: vec![],
        polyphonic: false,
        has_track: true,
    }
}

#[test]
fn strip_tabs_cycle() {
    let t = Tab::all();
    assert_eq!(t, vec![Tab::Source, Tab::Filter, Tab::Effects, Tab::Envelope]);
    assert_eq!(Tab::Envelope.next(), Tab::Source);
    assert_eq!(Tab::Effects.name(), "Effects");
}

#[test]
fn strip_editor_effects_tab() {
    let mut p = StripEditPane::new();
    p.set_strip(&strip());
    assert_eq!(p.strip_id(), Some(3));
    let (a, e) = p.handle_action("add_effect");
    assert!(matches!(a, Action::NoOp));
    assert_eq!(e, ValueEdit::Nothing);
    p.handle_action("next_tab");
    p.handle_action("next_tab");
    assert_eq!(p.tab, Tab::Effects);
    p.handle_action("add_effect");
    p.handle_action("add_effect");
    p.handle_action("add_effect");
    assert_eq!(p.effects, vec![EffectType::Delay, EffectType::Reverb, EffectType::Delay]);
    p.handle_action("prev");
    assert_eq!(p.selected_row, 2);
    let (a, e) = p.handle_action("remove_effect");
    assert!(matches!(a, Action::Strip(StripAction::Update(3))));
    assert_eq!(e, ValueEdit::RemoveEffect(2));
    assert_eq!(p.selected_row, 1);
    assert_eq!(p.row_count(), 2);
}

#[test]
fn strip_editor_text_entry() {
    let mut p = StripEditPane::new();
    p.set_strip(&strip());
    p.handle_action("enter_edit");
    assert!(p.editing);
    let (a, e) = p.handle_raw_input(KeyCode::Enter);
    assert!(matches!(a, Action::Strip(StripAction::Update(3))));
    assert_eq!(e, ValueEdit::ApplyText);
    assert!(!p.editing);
}

#[test]
fn strip_editor_apply_to() {
    let mut p = StripEditPane::new();
    p.set_strip(&strip());
    p.handle_action("toggle_track");
    let mut s = strip();
    p.apply_to(&mut s);
    assert!(!s.has_track);
    assert_eq!(s.source, OscType::Sqr);
}

#[test]
fn strip_list_navigation() {
    let mut p = StripPane::new();
    let mut state = StripState::new();
    state.strips.push(strip());
    let mut second = strip();
    second.id = 8;
    state.strips.push(second);
    p.set_state(state);
    p.handle_action("next");
    assert_eq!(p.state().selected, Some(0));
    p.handle_action("next");
    p.handle_action("next");
    assert_eq!(p.state().selected, Some(1));
    assert!(matches!(p.handle_action("edit"), Action::Strip(StripAction::Edit(8))));
    p.handle_action("goto_top");
    assert!(matches!(p.handle_action("delete"), Action::Strip(StripAction::Delete(3))));
    assert!(matches!(p.handle_action("add"), Action::Nav(NavAction::SwitchPane("add"))));
    p.state_mut().selected = None;
    assert!(matches!(p.handle_action("edit"), Action::NoOp));
}

#[test]
fn add_strip_dialog_wraps() {
    let mut p = AddPane::new();
    p.handle_action("prev");
    assert_eq!(p.selected, 3);
    assert!(matches!(p.handle_action("confirm"), Action::Strip(StripAction::Add(OscType::Tri))));
    p.handle_action("next");
    assert_eq!(p.selected, 0);
    assert!(matches!(p.handle_action("cancel"), Action::Nav(NavAction::SwitchPane("strip"))));
}

#[test]
fn set_instrument_carries_the_sample_name() {
    let mut s = summary(SourceKind::Sample, 2, None, Vec::new());
    s.sample_name = Some("kick.wav".to_string());
    let mut p = InstrumentEditPane::new(Keymap::new());
    p.set_instrument(&s);
    assert_eq!(p.sample_name.as_deref(), Some("kick.wav"));
    assert_eq!(p.instrument_id(), Some(7));
    assert_eq!(p.selected_row, 0);
    assert_eq!(p.tab_index(), 0);
    let mut back = summary(SourceKind::Synth, 0, None, Vec::new());
    p.apply_to(&mut back);
    assert_eq!(back.sample_name, None);
}

fn row(section: Section, row: usize, placeholder: bool, highlighted: bool) -> EditLine {
    EditLine::Row { section, row, placeholder, highlighted }
}

#[test]
fn editor_lines_group_rows_under_headers() {
    let mut p = editor(&summary(SourceKind::Sample, 0, None, Vec::new()));
    p.selected_row = 2;
    let lines = p.instrument_edit_rows();
    assert_eq!(lines[..4].to_vec(), vec![
        EditLine::Header(Section::Source),
        row(Section::Source, 0, false, false),
        row(Section::Source, 1, true, false),
        EditLine::Header(Section::Filter),
    ]);
    assert_eq!(lines[4], row(Section::Filter, 2, true, true));
    assert_eq!(lines[5], EditLine::Gap);
    assert_eq!(lines[6], EditLine::Header(Section::Effects));
    assert_eq!(lines[7], row(Section::Effects, 3, true, false));
    assert_eq!(lines[8], EditLine::Header(Section::Lfo));
    assert_eq!(lines.len(), 8 + 1 + 4 + 1 + 1 + 4);
    assert_eq!(lines[lines.len() - 1], row(Section::Envelope, 11, false, false));

    let v = editor(&summary(SourceKind::Vst, 2, Some(FilterType::Lpf), vec![EffectType::Delay]));
    let lines = v.instrument_edit_rows();
    assert_eq!(lines[1], row(Section::Source, 0, false, true));
    assert_eq!(lines[3], EditLine::Gap);
    assert_eq!(lines[4], EditLine::Header(Section::Filter));
    assert_eq!(lines[7], row(Section::Filter, 4, false, false));
    assert_eq!(lines[lines.len() - 1], EditLine::Gap);
    assert!(!lines.contains(&EditLine::Header(Section::Envelope)));
}
