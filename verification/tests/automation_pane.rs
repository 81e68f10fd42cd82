use imbolc::action::{Action, AutomationAction, AutomationTarget, CurveType};
use imbolc::automation::{lane_list, AutomationFocus, AutomationLaneView, AutomationPane, AutomationPoint, LaneSummary};
use imbolc::keymap::Keymap;

fn no_targets() -> Vec<AutomationTarget> {
    Vec::new()
}

#[test]
fn automation_pane_id() {
    let pane = AutomationPane::new(Keymap::new());
    assert_eq!(pane.id(), "automation");
}

#[test]
fn switch_focus_toggles() {
    let mut pane = AutomationPane::new(Keymap::new());
    let targets = no_targets();
    assert_eq!(pane.focus, AutomationFocus::LaneList);

    pane.handle_action("switch_focus", None, None, &targets, 0);
    assert_eq!(pane.focus, AutomationFocus::Timeline);

    pane.handle_action("switch_focus", None, None, &targets, 0);
    assert_eq!(pane.focus, AutomationFocus::LaneList);
}

#[test]
fn timeline_cursor_moves() {
    let mut pane = AutomationPane::new(Keymap::new());
    let targets = no_targets();
    pane.focus = AutomationFocus::Timeline;

    let start_tick = pane.cursor_tick;
    pane.handle_action("right", None, None, &targets, 0);
    assert!(pane.cursor_tick > start_tick);

    pane.handle_action("left", None, None, &targets, 0);
    assert_eq!(pane.cursor_tick, start_tick);
}

#[test]
fn add_lane_opens_target_picker() {
    let mut pane = AutomationPane::new(Keymap::new());
    let targets = no_targets();
    pane.handle_action("add_lane", None, None, &targets, 0);
    assert!(matches!(pane.target_picker, Some(_)));
}

#[test]
fn target_picker_lists_instrument_then_global_targets() {
    let mut pane = AutomationPane::new(Keymap::new());
    let targets = vec![AutomationTarget::Instrument(4, 0), AutomationTarget::Instrument(4, 1)];
    pane.handle_action("add_lane", None, Some(4), &targets, 2);
    let picker = pane.target_picker.clone().expect("picker open");
    assert_eq!(picker.options.len(), 2 + 2 + 8 + 1);
    assert_eq!(picker.options[2], AutomationTarget::SendLevel(4, 0));
    assert_eq!(picker.options[4], AutomationTarget::BusLevel(1));
    assert_eq!(picker.options[11], AutomationTarget::BusLevel(8));
    assert_eq!(picker.options[12], AutomationTarget::Bpm);
    pane.handle_action("down", None, Some(4), &targets, 2);
    pane.handle_action("down", None, Some(4), &targets, 2);
    let a = pane.handle_action("confirm", None, Some(4), &targets, 2);
    assert!(matches!(a, Action::Automation(AutomationAction::AddLane(AutomationTarget::SendLevel(4, 0)))));
    assert!(pane.target_picker.is_none());
}

#[test]
fn points_are_placed_removed_and_shaped_on_the_grid() {
    let mut pane = AutomationPane::new(Keymap::new());
    let targets = no_targets();
    pane.focus = AutomationFocus::Timeline;
    pane.cursor_tick = 500;
    let lane = AutomationLaneView { id: 9, points: vec![AutomationPoint { tick: 240, curve: CurveType::Step }] };
    let empty = AutomationLaneView { id: 9, points: Vec::new() };
    assert!(matches!(
        pane.handle_action("place_point", Some(&empty), None, &targets, 0),
        Action::Automation(AutomationAction::AddPoint(9, 480, 50))
    ));
    pane.cursor_tick = 300;
    assert!(matches!(
        pane.handle_action("place_point", Some(&lane), None, &targets, 0),
        Action::Automation(AutomationAction::RemovePoint(9, 240))
    ));
    assert!(matches!(
        pane.handle_action("cycle_curve", Some(&lane), None, &targets, 0),
        Action::Automation(AutomationAction::SetCurveType(9, 240, CurveType::SCurve))
    ));
    pane.handle_action("up", Some(&lane), None, &targets, 0);
    assert_eq!(pane.cursor_value, 55);
    pane.handle_action("end", Some(&lane), None, &targets, 0);
    assert_eq!(pane.cursor_tick, 240);
    assert_eq!(pane.view_start_tick, 0);
}

#[test]
fn zoom_is_clamped() {
    let mut pane = AutomationPane::new(Keymap::new());
    let targets = no_targets();
    for _ in 0..5 {
        pane.handle_action("zoom_in", None, None, &targets, 0);
    }
    assert_eq!(pane.zoom_level, 1);
    assert_eq!(pane.ticks_per_cell(), 60);
    for _ in 0..6 {
        pane.handle_action("zoom_out", None, None, &targets, 0);
    }
    assert_eq!(pane.zoom_level, 5);
    assert!(matches!(
        pane.handle_action("up", None, None, &targets, 0),
        Action::Automation(AutomationAction::SelectLane(-1))
    ));
}

fn lanes() -> Vec<LaneSummary> {
    summaries(vec![
        (AutomationTarget::Instrument(1, 0), true, 2, Some(CurveType::Step)),
        (AutomationTarget::BusLevel(3), false, 0, None),
        (AutomationTarget::SendLevel(2, 0), true, 1, Some(CurveType::Linear)),
        (AutomationTarget::Bpm, true, 1, Some(CurveType::Exponential)),
    ])
}

fn summaries(v: Vec<(AutomationTarget, bool, usize, Option<CurveType>)>) -> Vec<LaneSummary> {
    v.into_iter()
        .map(|(target, enabled, point_count, first_curve)| LaneSummary {
            target,
            enabled,
            point_count,
            first_curve,
        })
        .collect()
}

#[test]
fn lane_list_shows_the_instrument_and_global_lanes() {
    let f = lane_list(&lanes(), Some(3), Some(1), 40, 10);
    assert!(f.shown);
    assert!(!f.empty);
    let idx: Vec<usize> = f.rows.iter().map(|r| r.lane).collect();
    assert_eq!(idx, vec![0, 1, 3]);
    assert_eq!(f.rows[0].curve, CurveType::Step);
    assert_eq!(f.rows[0].point_count, 2);
    assert!(!f.rows[1].enabled);
    assert_eq!(f.rows[1].curve, CurveType::Linear);
    assert!(f.rows[2].selected);
    assert!(!f.rows[0].selected);
    assert_eq!(lane_list(&lanes(), None, Some(1), 40, 3).rows.len(), 2);
    let global: Vec<usize> = lane_list(&lanes(), None, None, 40, 10).rows.iter().map(|r| r.lane).collect();
    assert_eq!(global, vec![1, 3]);
    assert!(!lane_list(&lanes(), None, None, 9, 10).shown);
    let none = lane_list(&Vec::new(), None, None, 40, 10);
    assert!(none.empty);
    assert!(none.rows.is_empty());
}
