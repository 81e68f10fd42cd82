use imbolc::action::{Action, ArrangementAction, NavAction, SessionAction};
use imbolc::keymap::{KeyCode, Keymap};
use imbolc::logo::LogoPane;
use imbolc::project_browser::{format_time_ago, ProjectBrowserPane, ProjectEntry};
use imbolc::save_as::SaveAsPane;
use imbolc::track::{
    clip_info, column_mark, cursor_position, lane_of, lane_scroll, placement_columns, ArrangementView,
    ColumnMark, PlacementInfo, TrackPane,
};
use imbolc::waveform::{mode_after_action, WaveformMode};

fn type_text(p: &mut SaveAsPane, text: &str) {
    for c in text.chars() {
        p.handle_raw_input(KeyCode::Char(c));
    }
}

#[test]
fn save_as_accepts_only_file_name_characters() {
    let mut p = SaveAsPane::new(Keymap::new());
    type_text(&mut p, "my song!/2é");
    let name: String = p.name_buf.iter().collect();
    assert_eq!(name, "my song2é");
    assert_eq!(p.cursor, 9);
}

#[test]
fn save_as_cursor_counts_bytes() {
    let mut p = SaveAsPane::new(Keymap::new());
    p.reset("café");
    assert_eq!(p.cursor, 5);
    p.handle_raw_input(KeyCode::Left);
    p.handle_raw_input(KeyCode::Left);
    assert_eq!(p.cursor, 3);
    p.handle_raw_input(KeyCode::Delete);
    let name: String = p.name_buf.iter().collect();
    assert_eq!(name, "caf");
    assert_eq!(p.cursor, 3);
    p.handle_raw_input(KeyCode::Right);
    assert_eq!(p.cursor, 3);
    p.handle_raw_input(KeyCode::Backspace);
    let name: String = p.name_buf.iter().collect();
    assert_eq!(name, "ca");
    assert_eq!(p.cursor, 2);
    let f = p.render(100, 40);
    assert!(!f.cursor_on_char);
}

#[test]
fn save_as_saves_trimmed_name() {
    let mut p = SaveAsPane::new(Keymap::new());
    p.reset("  demo mix  ");
    assert_eq!(p.cursor, 12);
    match p.handle_raw_input(KeyCode::Enter) {
        Action::Session(SessionAction::SaveAs(file)) => assert_eq!(file, "demo mix.sqlite"),
        _ => panic!("expected a save"),
    }
}

#[test]
fn save_as_refuses_blank_name() {
    let mut p = SaveAsPane::new(Keymap::new());
    p.reset("   ");
    assert!(matches!(p.handle_raw_input(KeyCode::Enter), Action::NoOp));
    assert_eq!(p.error.as_deref(), Some("Name cannot be empty"));
    type_text(&mut p, "x");
    assert_eq!(p.error, None);
}

#[test]
fn save_as_cursor_editing() {
    let mut p = SaveAsPane::new(Keymap::new());
    type_text(&mut p, "abc");
    p.handle_raw_input(KeyCode::Left);
    p.handle_raw_input(KeyCode::Backspace);
    let name: String = p.name_buf.iter().collect();
    assert_eq!(name, "ac");
    assert_eq!(p.cursor, 1);
    p.handle_raw_input(KeyCode::Home);
    p.handle_raw_input(KeyCode::Delete);
    let name: String = p.name_buf.iter().collect();
    assert_eq!(name, "c");
    p.handle_raw_input(KeyCode::End);
    assert_eq!(p.cursor, 1);
    assert!(matches!(p.handle_raw_input(KeyCode::Escape), Action::Nav(NavAction::PopPane)));
    assert_eq!(p.id(), "save_as");
}

#[test]
fn time_ago_texts() {
    assert_eq!(format_time_ago(59, 0), "just now");
    assert_eq!(format_time_ago(60, 0), "1 min ago");
    assert_eq!(format_time_ago(3599, 0), "59 min ago");
    assert_eq!(format_time_ago(7200, 0), "2 hours ago");
    assert_eq!(format_time_ago(3 * 86400 + 5, 0), "3 days ago");
    assert_eq!(format_time_ago(604800, 365 * 86400 * 54), "2024");
}

fn entry(name: &str) -> ProjectEntry {
    ProjectEntry { name: name.to_string(), path: format!("/p/{}.sqlite", name), last_opened_secs: 0 }
}

#[test]
fn project_browser_selection() {
    let mut p = ProjectBrowserPane::new(Keymap::new());
    p.refresh(vec![entry("a"), entry("b"), entry("c")]);
    p.handle_action("down");
    p.handle_action("down");
    p.handle_action("down");
    assert_eq!(p.selected, 2);
    let out = p.handle_action("select");
    match out.action {
        Action::Session(SessionAction::LoadFrom(path)) => assert_eq!(path, "/p/c.sqlite"),
        _ => panic!("expected a load"),
    }
    p.refresh(vec![entry("a")]);
    assert_eq!(p.selected, 0);
    p.refresh(Vec::new());
    assert_eq!(p.selected, 0);
    assert!(matches!(p.handle_action("select").action, Action::NoOp));
}

#[test]
fn project_browser_forget_and_new() {
    let mut p = ProjectBrowserPane::new(Keymap::new());
    p.refresh(vec![entry("a"), entry("b")]);
    p.handle_action("down");
    let out = p.handle_action("delete_entry");
    assert_eq!(out.forget, Some("/p/b.sqlite".to_string()));
    let out = p.handle_raw_input(KeyCode::Char('D'));
    assert_eq!(out.forget, Some("/p/b.sqlite".to_string()));
    assert!(matches!(p.handle_raw_input(KeyCode::Char('n')).action, Action::Session(SessionAction::NewProject)));
    assert!(matches!(p.handle_action("close").action, Action::Nav(NavAction::PopPane)));
}

fn arrangement() -> ArrangementView {
    ArrangementView {
        lane_instruments: vec![10, 20, 30],
        selected_lane: 7,
        cursor_tick: 960,
        ticks_per_col: 120,
        arrangement_length: 4800,
        beats_per_bar: 4,
        clips: vec![100, 101],
        placement_at_cursor: Some(PlacementInfo { id: 5, clip_id: 100, start_tick: 60 }),
        placement_count: 3,
        selected_placement: Some(2),
    }
}

#[test]
fn track_acts_on_clamped_lane() {
    let mut p = TrackPane::new(Keymap::new());
    let v = arrangement();
    assert_eq!(lane_of(7, 3), 2);
    assert!(matches!(p.handle_action("lane_up", &v), Action::Arrangement(ArrangementAction::SelectLane(1))));
    assert!(matches!(p.handle_action("lane_down", &v), Action::NoOp));
    assert!(matches!(
        p.handle_action("new_clip", &v),
        Action::Arrangement(ArrangementAction::CaptureClipFromPianoRoll { instrument_id: 30 })
    ));
}

#[test]
fn track_cursor_jumps() {
    let mut p = TrackPane::new(Keymap::new());
    let v = arrangement();
    assert!(matches!(p.handle_action("cursor_home", &v), Action::Arrangement(ArrangementAction::MoveCursor(-8))));
    assert!(matches!(p.handle_action("cursor_end", &v), Action::Arrangement(ArrangementAction::MoveCursor(32))));
    let mut past_end = arrangement();
    past_end.cursor_tick = 5000;
    assert!(matches!(p.handle_action("cursor_end", &past_end), Action::NoOp));
}

#[test]
fn track_clip_and_placement_requests() {
    let mut p = TrackPane::new(Keymap::new());
    let v = arrangement();
    assert!(matches!(
        p.handle_action("new_empty_clip", &v),
        Action::Arrangement(ArrangementAction::CreateClip { instrument_id: 30, length_ticks: 1920 })
    ));
    p.handle_action("select_prev_clip", &v);
    assert_eq!(p.selected_clip_index, 1);
    assert!(matches!(
        p.handle_action("place_clip", &v),
        Action::Arrangement(ArrangementAction::PlaceClip { clip_id: 101, instrument_id: 30, start_tick: 960 })
    ));
    p.handle_action("select_next_clip", &v);
    assert_eq!(p.selected_clip_index, 0);
    assert!(matches!(
        p.handle_action("move_left", &v),
        Action::Arrangement(ArrangementAction::MovePlacement { placement_id: 5, new_start_tick: 0 })
    ));
    assert!(matches!(
        p.handle_action("move_right", &v),
        Action::Arrangement(ArrangementAction::MovePlacement { placement_id: 5, new_start_tick: 180 })
    ));
    assert!(matches!(
        p.handle_action("select_next_placement", &v),
        Action::Arrangement(ArrangementAction::SelectPlacement(Some(0)))
    ));
    assert!(matches!(
        p.handle_action("select_prev_placement", &v),
        Action::Arrangement(ArrangementAction::SelectPlacement(Some(1)))
    ));
    assert!(matches!(p.handle_action("edit_clip", &v), Action::Arrangement(ArrangementAction::EnterClipEdit(100))));
}

#[test]
fn track_without_instruments_does_nothing() {
    let mut p = TrackPane::new(Keymap::new());
    let mut v = arrangement();
    v.lane_instruments.clear();
    assert!(matches!(p.handle_action("play_stop", &v), Action::NoOp));
    assert_eq!(p.ticks_per_bar(3), 1440);
}

#[test]
fn waveform_modes_cycle() {
    let mut m = WaveformMode::Waveform;
    for _ in 0..4 {
        m = mode_after_action(m, "cycle_mode");
    }
    assert_eq!(m, WaveformMode::Waveform);
    assert_eq!(WaveformMode::LufsMeter.name(), "Level Meter");
    assert_eq!(mode_after_action(WaveformMode::Spectrum, "other"), WaveformMode::Spectrum);
    assert_eq!(WaveformMode::Spectrum.next(), WaveformMode::Oscilloscope);
}

#[test]
fn logo_quits() {
    let p = LogoPane::new(Keymap::new(), "IMBOLC".to_string());
    assert!(matches!(p.handle_action("quit"), Action::Quit));
    assert!(matches!(p.handle_action("other"), Action::NoOp));
    assert_eq!(p.id(), "logo");
}

#[test]
fn track_layout_helpers() {
    assert_eq!(lane_scroll(2, 5), 0);
    assert_eq!(lane_scroll(7, 5), 3);
    assert_eq!(column_mark(1920, 120, 1920), ColumnMark::Bar);
    assert_eq!(column_mark(2400, 120, 1920), ColumnMark::Beat);
    assert_eq!(column_mark(2520, 120, 1920), ColumnMark::Plain);
    assert_eq!(placement_columns(480, 1440, 0, 120, 40), Some((4, 12)));
    assert_eq!(placement_columns(0, 960, 480, 120, 40), Some((0, 4)));
    assert_eq!(placement_columns(0, 480, 480, 120, 40), None);
    assert_eq!(placement_columns(4800, 9600, 0, 120, 40), None);
    assert_eq!(placement_columns(0, 96000, 0, 120, 40), Some((0, 40)));
    assert_eq!(cursor_position(2400, 1920), "Bar 2 Beat 2");
    assert_eq!(cursor_position(0, 1440), "Bar 1 Beat 1");
    let names = vec!["Intro".to_string(), "Verse".to_string()];
    assert_eq!(clip_info(&names, 5), "Clip: Verse [2/2]");
    assert_eq!(clip_info(&names, 0), "Clip: Intro [1/2]");
    assert_eq!(clip_info(&Vec::new(), 0), "No clips");
}

fn browser() -> ProjectBrowserPane {
    let mut p = ProjectBrowserPane::new(Keymap::new());
    p.refresh(vec![
        ProjectEntry { name: "Alpha".to_string(), path: "/p/alpha.sqlite".to_string(), last_opened_secs: 1000 },
        ProjectEntry { name: "Beta song long name".to_string(), path: "/p/beta.sqlite".to_string(), last_opened_secs: 0 },
    ]);
    p.selected = 1;
    p
}

#[test]
fn browser_rows_fit_name_and_time() {
    let p = browser();
    let f = p.render(100, 40, 30, 10, 1030);
    assert_eq!((f.width, f.height), (56, 10));
    assert!(!f.empty_note);
    assert_eq!(f.rows.len(), 2);
    assert_eq!(f.rows[0].entry, 0);
    assert!(!f.rows[0].selected);
    assert_eq!(f.rows[0].time, "just now");
    assert_eq!(f.rows[0].name, "Alpha");
    assert_eq!(f.rows[0].padding, 11);
    assert!(f.rows[1].selected);
    assert_eq!(f.rows[1].time, "17 min ago");
    assert_eq!(f.rows[1].name, "Beta song long");
    assert_eq!(f.rows[1].padding, 0);
}

#[test]
fn browser_scrolls_to_the_highlight() {
    let p = browser();
    let f = p.render(20, 7, 30, 5, 1030);
    assert_eq!((f.width, f.height), (16, 10));
    assert_eq!(f.rows.len(), 1);
    assert_eq!(f.rows[0].entry, 1);
    assert!(p.render(100, 40, 30, 4, 1030).rows.is_empty());
    let empty = ProjectBrowserPane::new(Keymap::new());
    assert!(empty.render(100, 40, 30, 3, 0).empty_note);
    assert!(!empty.render(100, 40, 30, 2, 0).empty_note);
    let mut many = ProjectBrowserPane::new(Keymap::new());
    many.refresh((0..30).map(|i| entry(&format!("p{}", i))).collect());
    assert_eq!(many.render(100, 40, 30, 3, 0).height, 36);
    assert_eq!(many.render(100, 60, 30, 3, 0).height, 38);
}

#[test]
fn save_as_field_fits_the_dialog() {
    let mut p = SaveAsPane::new(Keymap::new());
    type_text(&mut p, "song");
    let f = p.render(100, 40);
    assert_eq!((f.width, f.height), (46, 7));
    assert_eq!(f.text.iter().collect::<String>(), "song");
    assert_eq!(f.cursor_col, Some(4));
    assert!(!f.cursor_on_char);
    let g = p.render(10, 6);
    assert_eq!(g.width, 6);
    assert_eq!(g.text.iter().collect::<String>(), "so");
    assert_eq!(g.cursor_col, None);
    p.cursor = 1;
    p.error = Some("Name cannot be empty".to_string());
    let h = p.render(100, 40);
    assert_eq!(h.height, 8);
    assert_eq!(h.cursor_col, Some(1));
    assert!(h.cursor_on_char);
}

const WHITE_SPACE: [u32; 25] = [
    0x9, 0xA, 0xB, 0xC, 0xD, 0x20, 0x85, 0xA0, 0x1680, 0x2000, 0x2001, 0x2002, 0x2003, 0x2004, 0x2005, 0x2006,
    0x2007, 0x2008, 0x2009, 0x200A, 0x2028, 0x2029, 0x202F, 0x205F, 0x3000,
];

#[test]
fn white_space_is_the_unicode_list() {
    for u in 0..=0x10FFFFu32 {
        if let Some(c) = char::from_u32(u) {
            assert_eq!(c.is_whitespace(), WHITE_SPACE.contains(&u), "U+{:04X}", u);
        }
    }
}

#[test]
fn trimming_drops_every_white_space_character() {
    for &u in WHITE_SPACE.iter() {
        let c = char::from_u32(u).unwrap();
        let mut p = SaveAsPane::new(Keymap::new());
        p.reset(&format!("{c}{c}a b{c}"));
        let t: String = p.trimmed_name().iter().collect();
        assert_eq!(t, "a b");
    }
    let mut p = SaveAsPane::new(Keymap::new());
    p.reset("\u{180E}x\u{200B}");
    let t: String = p.trimmed_name().iter().collect();
    assert_eq!(t, "\u{180E}x\u{200B}");
}
