use imbolc::action::{Action, MixerAction, MixerSelection, PianoRollAction};
use imbolc::keymap::Keymap;
use imbolc::mixer::MixerPane;
use imbolc::piano_roll::PianoRollPane;
use imbolc::screen::ScreenRect;
use imbolc::mixer::{calc_scroll_offset, decode_effect_cursor, format_output, meter_color, MeterZone, MixerSection, OutputTarget};
use imbolc::piano_roll::{is_black_key, note_name};
use imbolc::text::{longest_common_prefix, lowercase_chars, push_decimal, push_signed_decimal, str_contains};

#[test]
fn lowercase_of_mixed_text() {
    let lower: String = lowercase_chars(&"MiXeR Ä".chars().collect()).into_iter().collect();
    assert_eq!(lower, "mixer ä");
}

#[test]
fn common_prefix() {
    assert_eq!(longest_common_prefix("switch:mixer", "switch:track"), "switch:");
    assert_eq!(longest_common_prefix("abc", "xyz"), "");
    assert_eq!(longest_common_prefix("save", "save_as"), "save");
}

#[test]
fn contains_text() {
    assert!(str_contains("master volume", "vol"));
    assert!(str_contains("abc", ""));
    assert!(!str_contains("ab", "abc"));
}

#[test]
fn decimal_text() {
    let mut s = String::new();
    push_decimal(&mut s, 0);
    push_decimal(&mut s, 1234);
    push_signed_decimal(&mut s, -56);
    assert_eq!(s, "01234-56");
}

#[test]
fn note_names() {
    assert_eq!(note_name(60), "C4");
    assert_eq!(note_name(61), "C#4");
    assert_eq!(note_name(0), "C-1");
    assert!(is_black_key(61));
    assert!(!is_black_key(64));
}

#[test]
fn mixer_sections_cycle() {
    let s = MixerSection::Effects;
    assert_eq!(s.next().prev(), s);
}

#[test]
fn mixer_scroll_keeps_selection_visible() {
    assert_eq!(calc_scroll_offset(0, 20, 5), 0);
    assert_eq!(calc_scroll_offset(7, 20, 5), 3);
    assert_eq!(calc_scroll_offset(19, 20, 5), 15);
    assert_eq!(calc_scroll_offset(3, 2, 5), 0);
}

#[test]
fn mixer_effect_cursor_decoding() {
    let counts = vec![2usize, 0, 3];
    assert_eq!(decode_effect_cursor(&counts, 0), Some((0, None)));
    assert_eq!(decode_effect_cursor(&counts, 2), Some((0, Some(1))));
    assert_eq!(decode_effect_cursor(&counts, 3), Some((1, None)));
    assert_eq!(decode_effect_cursor(&counts, 5), Some((2, Some(0))));
    assert_eq!(decode_effect_cursor(&counts, 8), None);
}

#[test]
fn mixer_output_and_meter() {
    assert_eq!(format_output(OutputTarget::Master), ">MST");
    assert_eq!(format_output(OutputTarget::Bus(3)), ">B3");
    assert_eq!(meter_color(0, 10), MeterZone::Low);
    assert_eq!(meter_color(9, 10), MeterZone::High);
    assert_eq!(meter_color(7, 10), MeterZone::Mid);
}

#[test]
fn mixer_click_selects_strip_under_mouse() {
    let mut pane = MixerPane::new(Keymap::new());
    let area = ScreenRect { x: 10, y: 5, width: 96, height: 20 };
    let buses = vec![1u8, 2, 3];
    pane.send_target = Some(2);
    // Third instrument strip: columns 12 + 16 ..= 12 + 23.
    let a = pane.handle_click(30, 10, area, MixerSelection::Instrument(0), 5, &buses);
    assert!(matches!(a, Action::Mixer(MixerAction::SelectAt(MixerSelection::Instrument(2)))));
    assert_eq!(pane.send_target, None);
    // A strip with no instrument behind it.
    assert!(matches!(pane.handle_click(70, 10, area, MixerSelection::Instrument(0), 5, &buses), Action::NoOp));
    // Second visible bus strip, scrolled so that bus 3 is the last visible one.
    let a = pane.handle_click(78 + 8, 10, area, MixerSelection::Bus(3), 5, &buses);
    assert!(matches!(a, Action::Mixer(MixerAction::SelectAt(MixerSelection::Bus(3)))));
    let a = pane.handle_click(100, 10, area, MixerSelection::Master, 5, &buses);
    assert!(matches!(a, Action::Mixer(MixerAction::SelectAt(MixerSelection::Master))));
    assert!(matches!(pane.handle_click(5, 10, area, MixerSelection::Master, 5, &buses), Action::NoOp));
    assert!(matches!(pane.handle_scroll(true), Action::Mixer(MixerAction::AdjustLevel(5))));
    pane.send_target = Some(1);
    assert!(matches!(pane.handle_scroll(false), Action::Mixer(MixerAction::AdjustSend(1, -5))));
}

#[test]
fn piano_roll_click_and_wheel() {
    let mut pane = PianoRollPane::new(Keymap::new());
    let area = ScreenRect { x: 0, y: 0, width: 97, height: 29 };
    let bottom = pane.view_bottom_pitch;
    let tpc = pane.ticks_per_cell();
    // Grid starts at column 5, row 2, and is 24 rows high: row 25 is its lowest.
    let a = pane.handle_click(7, 25, area, false);
    match a {
        Action::PianoRoll(PianoRollAction::ToggleNote { pitch, tick, .. }) => {
            assert_eq!(pitch, bottom);
            assert_eq!(tick, 2 * tpc);
        }
        _ => panic!("expected a note toggle"),
    }
    assert_eq!(pane.cursor_pitch, bottom);
    assert!(matches!(pane.handle_click(9, 24, area, true), Action::NoOp));
    assert_eq!(pane.cursor_pitch, bottom + 1);
    assert_eq!(pane.cursor_tick, 4 * tpc);
    pane.handle_click(2, 23, area, false);
    assert_eq!(pane.cursor_pitch, bottom + 2);
    pane.handle_wheel(true, false);
    assert_eq!(pane.view_bottom_pitch, bottom + 3);
    pane.handle_wheel(false, true);
    assert_eq!(pane.view_start_tick, 4 * tpc);
    pane.handle_wheel(true, true);
    assert_eq!(pane.view_start_tick, 0);
}

#[test]
fn ascii_lowercasing_changes_only_capitals() {
    for u in 0..128u8 {
        let c = u as char;
        let expected = if c.is_ascii_uppercase() { (u + 32) as char } else { c };
        assert_eq!(imbolc::text::lowercase_chars(&vec![c]), vec![expected]);
    }
    let empty: Vec<char> = Vec::new();
    assert!(imbolc::text::lowercase_chars(&empty).is_empty());
    let mixed: Vec<char> = "Play_STOP 2".chars().collect();
    let lowered: String = imbolc::text::lowercase_chars(&mixed).into_iter().collect();
    assert_eq!(lowered, "play_stop 2");
}
