use imbolc::action::{Action, MixerAction, MixerSelection};
use imbolc::keymap::Keymap;
use imbolc::mixer::{output_text, pan_text, send_text};
use imbolc::mixer::{detail_layout, DetailLayout, EffectLine, MixerInstrument, MixerPane, MixerSection};
use imbolc::screen::ScreenRect;

fn no_instruments() -> Vec<MixerInstrument> {
    Vec::new()
}

#[test]
fn send_target_cycles_and_adjusts_send() {
    let mut pane = MixerPane::new(Keymap::new());
    let instruments = no_instruments();
    let selection = MixerSelection::Master;

    let action = pane.handle_action("send_next", selection, &instruments);
    assert!(matches!(action, Action::NoOp));
    assert_eq!(pane.send_target, Some(1));

    let action = pane.handle_action("level_up", selection, &instruments);
    match action {
        Action::Mixer(MixerAction::AdjustSend(bus_id, delta)) => {
            assert_eq!(bus_id, 1);
            assert!(((delta as f64) / 100.0 - 0.05).abs() < 0.0001);
        }
        _ => panic!("Expected AdjustSend when send_target is set"),
    }

    let action = pane.handle_action("clear_send", selection, &instruments);
    assert!(matches!(action, Action::NoOp));
    assert_eq!(pane.send_target, None);
}

#[test]
fn prev_next_clear_send_target() {
    let mut pane = MixerPane::new(Keymap::new());
    let instruments = no_instruments();
    let selection = MixerSelection::Master;

    pane.send_target = Some(3);
    let action = pane.handle_action("prev", selection, &instruments);
    assert!(matches!(action, Action::Mixer(MixerAction::Move(-1))));
    assert_eq!(pane.send_target, None);

    pane.send_target = Some(2);
    let action = pane.handle_action("next", selection, &instruments);
    assert!(matches!(action, Action::Mixer(MixerAction::Move(1))));
    assert_eq!(pane.send_target, None);
}

#[test]
fn detail_box_columns_and_effect_lines() {
    let l = detail_layout(ScreenRect { x: 10, y: 5, width: 90, height: 28 });
    assert_eq!(l, DetailLayout { top: 6, height: 25, effects_x: 12, sends_x: 12 + 34 + 1, output_x: 12 + 34 + 1 + 24 + 1, lower_y: 6 + 12 });

    let mut pane = MixerPane::new(Keymap::new());
    pane.detail_cursor = 2;
    let inst = MixerInstrument { id: 1, effect_param_counts: vec![6, 1], send_buses: Vec::new(), has_filter: false };
    let lines = pane.effect_column_lines(&inst, 25);
    assert_eq!(lines.len(), 1 + 4 + 1 + 1);
    assert_eq!(lines[0], EffectLine { effect: 0, param: None, highlighted: false });
    assert_eq!(lines[2], EffectLine { effect: 0, param: Some(1), highlighted: true });
    assert_eq!(lines[5], EffectLine { effect: 1, param: None, highlighted: false });
    assert_eq!(lines[6], EffectLine { effect: 1, param: Some(0), highlighted: false });
    let short = pane.effect_column_lines(&inst, 4);
    assert_eq!(short.len(), 3);
    pane.detail_section = MixerSection::Sends;
    assert!(pane.effect_column_lines(&inst, 25).iter().all(|l| !l.highlighted));
    assert!(pane.effect_column_lines(&inst, 0).is_empty());
}

#[test]
fn detail_value_texts() {
    assert_eq!(send_text(3, 50, true), "\u{2192}B3 \u{2588}\u{2588}\u{2591}\u{2591}\u{2591} 50%");
    assert_eq!(send_text(1, 100, false), "\u{2192}B1 \u{2588}\u{2588}\u{2588}\u{2588}\u{2588} OFF");
    assert_eq!(send_text(8, 0, true), "\u{2192}B8 \u{2591}\u{2591}\u{2591}\u{2591}\u{2591} 0%");
    assert_eq!(pan_text(0), "Pan: +0.00");
    assert_eq!(pan_text(-5), "Pan: -0.05");
    assert_eq!(pan_text(100), "Pan: +1.00");
    assert_eq!(pan_text(-128), "Pan: -1.28");
    assert_eq!(output_text(None), "\u{25B8} Master");
    assert_eq!(output_text(Some(4)), "\u{25B8} Bus 4");
}
