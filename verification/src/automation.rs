//! The automation pane: a list of automation lanes and a timeline with a cursor
//! (a tick and a value) for placing, removing and shaping points, plus a picker
//! of targets for a new lane.

use vstd::prelude::*;
use crate::action::{Action, AutomationAction, AutomationTarget, CurveType, PianoRollAction};
use crate::keymap::Keymap;
use crate::text::str_eq;

verus! {

/// Which part of the pane the keys act on.
#[derive(Debug, Clone, Copy, PartialEq, Eq, Structural)]
pub enum AutomationFocus {
    LaneList,
    Timeline,
}

/// A point of a lane: where it is and the curve that follows it.
#[derive(Debug, Clone, Copy, PartialEq, Eq)]
pub struct AutomationPoint {
    pub tick: u32,
    pub curve: CurveType,
}

/// The selected lane, as the pane reads it.
#[derive(Debug, Clone)]
pub struct AutomationLaneView {
    pub id: u32,
    /// The lane's points, in tick order.
    pub points: Vec<AutomationPoint>,
}

/// The choice of a target for a new lane.
#[derive(Debug, Clone)]
pub struct TargetPicker {
    pub options: Vec<AutomationTarget>,
    pub cursor: usize,
}

/// The automation pane's state.
pub struct AutomationPane {
    pub keymap: Keymap,
    pub focus: AutomationFocus,
    pub cursor_tick: u32,
    /// The value a placed point gets, in hundredths (0 to 100).
    pub cursor_value: u8,
    pub view_start_tick: u32,
    /// Time zoom, 1 (finest) to 5.
    pub zoom_level: u8,
    pub snap_to_grid: bool,
    /// The open target picker, if any.
    pub target_picker: Option<TargetPicker>,
}

/// Ticks per timeline cell at a zoom level.
pub open spec fn spec_cell_ticks(zoom: u8) -> u32 {
    if zoom == 1 {
        60
    } else if zoom == 2 {
        120
    } else if zoom == 3 {
        240
    } else if zoom == 4 {
        480
    } else if zoom == 5 {
        960
    } else {
        480
    }
}

/// The curve after `c` in the cycle linear, exponential, step, S-curve.
pub open spec fn next_curve(c: CurveType) -> CurveType {
    match c {
        CurveType::Linear => CurveType::Exponential,
        CurveType::Exponential => CurveType::Step,
        CurveType::Step => CurveType::SCurve,
        CurveType::SCurve => CurveType::Linear,
    }
}

/// The first point of `points` at tick `t`, if any.
pub open spec fn point_at(points: Seq<AutomationPoint>, t: u32) -> Option<AutomationPoint>
    decreases points.len(),
{
    if points.len() == 0 {
        None
    } else if points[0].tick == t {
        Some(points[0])
    } else {
        point_at(points.drop_first(), t)
    }
}

/// A point found at tick `t` sits exactly at `t` and belongs to the lane, it is
/// the first such point, and none is found only when no point of the lane has
/// tick `t`.
pub proof fn lemma_point_at(points: Seq<AutomationPoint>, t: u32)
    ensures
        match point_at(points, t) {
            Some(p) => p.tick == t && exists|i: int|
                0 <= i < points.len() && points[i] == p
                    && forall|k: int| 0 <= k < i ==> (#[trigger] points[k]).tick != t,
            None => forall|i: int| 0 <= i < points.len() ==> (#[trigger] points[i]).tick != t,
        },
    decreases points.len(),
{
    if points.len() > 0 && points[0].tick != t {
        let rest = points.drop_first();
        lemma_point_at(rest, t);
        match point_at(rest, t) {
            Some(p) => {
                let i = choose|i: int|
                    0 <= i < rest.len() && rest[i] == p
                        && forall|k: int| 0 <= k < i ==> (#[trigger] rest[k]).tick != t;
                assert(points[i + 1] == p);
                assert forall|k: int| 0 <= k < i + 1 implies (#[trigger] points[k]).tick != t by {
                    if k > 0 {
                        assert(points[k] == rest[k - 1]);
                    }
                }
            },
            None => {
                assert forall|i: int| 0 <= i < points.len() implies (#[trigger] points[i]).tick != t by {
                    if i > 0 {
                        assert(points[i] == rest[i - 1]);
                    }
                }
            },
        }
    } else if points.len() > 0 {
        assert(points[0] == points[0]);
    }
}

/// The picker is open on `options` with the highlight at `cursor`.
pub open spec fn picker_is(p: Option<TargetPicker>, options: Seq<AutomationTarget>, cursor: usize) -> bool {
    match p {
        Some(q) => q.options@ == options && q.cursor == cursor,
        None => false,
    }
}

/// The targets the picker offers: the instrument's own targets and one per send
/// (when an instrument is selected), then each bus level, then the tempo.
pub open spec fn picker_options(instrument: Option<u32>, targets: Seq<AutomationTarget>, sends: nat) -> Seq<AutomationTarget> {
    let own = match instrument {
        Some(id) => targets + Seq::new(sends, |i: int| AutomationTarget::SendLevel(id, i as usize)),
        None => Seq::empty(),
    };
    own + Seq::new(8, |i: int| AutomationTarget::BusLevel((i + 1) as u8)) + seq![AutomationTarget::Bpm]
}

/// A command of the automation pane, named by its action string.
#[derive(Debug, Clone, Copy, PartialEq, Eq, Structural)]
pub enum AutomationCommand {
    SwitchFocus,
    Up,
    Down,
    Left,
    Right,
    AddLane,
    RemoveLane,
    ToggleEnabled,
    PlacePoint,
    DeletePoint,
    CycleCurve,
    ClearLane,
    ToggleRecording,
    ZoomIn,
    ZoomOut,
    Home,
    End,
    PlayStop,
    Confirm,
    Cancel,
    Unknown,
}

/// The command an action string names.
pub open spec fn spec_automation_command(a: Seq<char>) -> AutomationCommand {
    if a == "switch_focus"@ {
        AutomationCommand::SwitchFocus
    } else if a == "up"@ || a == "prev"@ {
        AutomationCommand::Up
    } else if a == "down"@ || a == "next"@ {
        AutomationCommand::Down
    } else if a == "left"@ {
        AutomationCommand::Left
    } else if a == "right"@ {
        AutomationCommand::Right
    } else if a == "add_lane"@ {
        AutomationCommand::AddLane
    } else if a == "remove_lane"@ {
        AutomationCommand::RemoveLane
    } else if a == "toggle_enabled"@ {
        AutomationCommand::ToggleEnabled
    } else if a == "place_point"@ {
        AutomationCommand::PlacePoint
    } else if a == "delete_point"@ {
        AutomationCommand::DeletePoint
    } else if a == "cycle_curve"@ {
        AutomationCommand::CycleCurve
    } else if a == "clear_lane"@ {
        AutomationCommand::ClearLane
    } else if a == "toggle_recording"@ {
        AutomationCommand::ToggleRecording
    } else if a == "zoom_in"@ {
        AutomationCommand::ZoomIn
    } else if a == "zoom_out"@ {
        AutomationCommand::ZoomOut
    } else if a == "home"@ {
        AutomationCommand::Home
    } else if a == "end"@ {
        AutomationCommand::End
    } else if a == "play_stop"@ {
        AutomationCommand::PlayStop
    } else if a == "confirm"@ {
        AutomationCommand::Confirm
    } else if a == "cancel"@ || a == "escape"@ {
        AutomationCommand::Cancel
    } else {
        AutomationCommand::Unknown
    }
}

/// The command an action string names.
pub fn automation_command(a: &str) -> (c: AutomationCommand)
    ensures
        c == spec_automation_command(a@),
{
    if str_eq(a, "switch_focus") {
        AutomationCommand::SwitchFocus
    } else if str_eq(a, "up") || str_eq(a, "prev") {
        AutomationCommand::Up
    } else if str_eq(a, "down") || str_eq(a, "next") {
        AutomationCommand::Down
    } else if str_eq(a, "left") {
        AutomationCommand::Left
    } else if str_eq(a, "right") {
        AutomationCommand::Right
    } else if str_eq(a, "add_lane") {
        AutomationCommand::AddLane
    } else if str_eq(a, "remove_lane") {
        AutomationCommand::RemoveLane
    } else if str_eq(a, "toggle_enabled") {
        AutomationCommand::ToggleEnabled
    } else if str_eq(a, "place_point") {
        AutomationCommand::PlacePoint
    } else if str_eq(a, "delete_point") {
        AutomationCommand::DeletePoint
    } else if str_eq(a, "cycle_curve") {
        AutomationCommand::CycleCurve
    } else if str_eq(a, "clear_lane") {
        AutomationCommand::ClearLane
    } else if str_eq(a, "toggle_recording") {
        AutomationCommand::ToggleRecording
    } else if str_eq(a, "zoom_in") {
        AutomationCommand::ZoomIn
    } else if str_eq(a, "zoom_out") {
        AutomationCommand::ZoomOut
    } else if str_eq(a, "home") {
        AutomationCommand::Home
    } else if str_eq(a, "end") {
        AutomationCommand::End
    } else if str_eq(a, "play_stop") {
        AutomationCommand::PlayStop
    } else if str_eq(a, "confirm") {
        AutomationCommand::Confirm
    } else if str_eq(a, "cancel") || str_eq(a, "escape") {
        AutomationCommand::Cancel
    } else {
        AutomationCommand::Unknown
    }
}

/// The first point at tick `t`.
fn find_point(points: &Vec<AutomationPoint>, t: u32) -> (r: Option<AutomationPoint>)
    ensures
        r == point_at(points@, t),
{
    let mut i: usize = 0;
    assert(points@.subrange(0, points@.len() as int) =~= points@);
    while i < points.len()
        invariant
            i <= points@.len(),
            point_at(points@, t) == point_at(points@.subrange(i as int, points@.len() as int), t),
        decreases points@.len() - i,
    {
        let ghost rest = points@.subrange(i as int, points@.len() as int);
        assert(rest[0] == points@[i as int]);
        if points[i].tick == t {
            return Some(points[i]);
        }
        assert(rest.drop_first() =~= points@.subrange(i + 1, points@.len() as int));
        i = i + 1;
    }
    assert(points@.subrange(i as int, points@.len() as int) =~= Seq::<AutomationPoint>::empty());
    None
}

impl AutomationPane {
    /// A pane on the lane list, with the value cursor in the middle.
    pub fn new(keymap: Keymap) -> (p: AutomationPane)
        ensures
            p.keymap == keymap,
            p.focus == AutomationFocus::LaneList,
            p.cursor_tick == 0,
            p.cursor_value == 50,
            p.view_start_tick == 0,
            p.zoom_level == 3,
            p.snap_to_grid,
            p.target_picker is None,
    {
        AutomationPane {
            keymap,
            focus: AutomationFocus::LaneList,
            cursor_tick: 0,
            cursor_value: 50,
            view_start_tick: 0,
            zoom_level: 3,
            snap_to_grid: true,
            target_picker: None,
        }
    }

    pub fn id(&self) -> (r: &'static str)
        ensures
            r@ == "automation"@,
    {
        "automation"
    }

    /// Ticks per timeline cell.
    pub fn ticks_per_cell(&self) -> (r: u32)
        ensures
            r == spec_cell_ticks(self.zoom_level),
    {
        if self.zoom_level == 1 {
            60
        } else if self.zoom_level == 2 {
            120
        } else if self.zoom_level == 3 {
            240
        } else if self.zoom_level == 4 {
            480
        } else if self.zoom_level == 5 {
            960
        } else {
            480
        }
    }

    /// A tick snapped down to the grid when snapping is on.
    pub fn snap_tick(&self, tick: u32) -> (r: u32)
        ensures
            r == if self.snap_to_grid {
                ((tick / spec_cell_ticks(self.zoom_level)) * spec_cell_ticks(self.zoom_level)) as u32
            } else {
                tick
            },
    {
        if self.snap_to_grid {
            let grid = self.ticks_per_cell();
            assert((tick / grid) * grid <= tick) by (nonlinear_arith)
                requires grid > 0;
            (tick / grid) * grid
        } else {
            tick
        }
    }

    /// Handles one action. `lane` is the selected lane, if any; `instrument` the
    /// selected instrument, with its own automation `targets` and `sends` sends.
    /// While the target picker is open the actions move through it, add a lane for
    /// the chosen target, or close it.
    pub fn handle_action(
        &mut self,
        action: &str,
        lane: Option<&AutomationLaneView>,
        instrument: Option<u32>,
        targets: &Vec<AutomationTarget>,
        sends: usize,
    ) -> (r: Action)
        requires
            spec_automation_command(action@) == AutomationCommand::Right ==> old(self).cursor_tick + 960 <= u32::MAX,
            spec_automation_command(action@) == AutomationCommand::ZoomOut ==> old(self).zoom_level < u8::MAX,
            targets@.len() + sends + 9 <= usize::MAX,
        ensures
            final(self).keymap == old(self).keymap,
            ({
                let cmd = spec_automation_command(action@);
                let o = *old(self);
                let f = *final(self);
                match o.target_picker {
                    Some(picker) => {
                        &&& f.focus == o.focus && f.cursor_tick == o.cursor_tick && f.cursor_value == o.cursor_value
                        &&& f.view_start_tick == o.view_start_tick && f.zoom_level == o.zoom_level
                        &&& f.snap_to_grid == o.snap_to_grid
                        &&& if cmd == AutomationCommand::Up {
                            r == Action::NoOp && picker_is(f.target_picker, picker.options@,
                                if picker.cursor > 0 { (picker.cursor - 1) as usize } else { picker.cursor })
                        } else if cmd == AutomationCommand::Down {
                            r == Action::NoOp && picker_is(f.target_picker, picker.options@,
                                if picker.cursor + 1 < picker.options@.len() { (picker.cursor + 1) as usize } else { picker.cursor })
                        } else if cmd == AutomationCommand::Confirm || cmd == AutomationCommand::AddLane {
                            if picker.cursor < picker.options@.len() {
                                f.target_picker is None
                                    && r == Action::Automation(AutomationAction::AddLane(picker.options@[picker.cursor as int]))
                            } else {
                                r == Action::NoOp && picker_is(f.target_picker, picker.options@, picker.cursor)
                            }
                        } else if cmd == AutomationCommand::Cancel {
                            r == Action::NoOp && f.target_picker is None
                        } else {
                            r == Action::NoOp && picker_is(f.target_picker, picker.options@, picker.cursor)
                        }
                    },
                    None => {
                        let timeline = o.focus == AutomationFocus::Timeline;
                        let tpc = spec_cell_ticks(o.zoom_level);
                        let snapped: u32 = if o.snap_to_grid { ((o.cursor_tick / tpc) * tpc) as u32 } else { o.cursor_tick };
                        &&& cmd == AutomationCommand::AddLane ==> picker_is(f.target_picker, picker_options(instrument, targets@, sends as nat), 0)
                        &&& cmd != AutomationCommand::AddLane ==> f.target_picker is None
                        &&& f.snap_to_grid == o.snap_to_grid
                        &&& f.focus == if cmd == AutomationCommand::SwitchFocus {
                            if timeline { AutomationFocus::LaneList } else { AutomationFocus::Timeline }
                        } else {
                            o.focus
                        }
                        &&& f.cursor_value == match cmd {
                            AutomationCommand::Up => if timeline { if o.cursor_value + 5 > 100 { 100u8 } else { (o.cursor_value + 5) as u8 } } else { o.cursor_value },
                            AutomationCommand::Down => if timeline { if o.cursor_value < 5 { 0u8 } else { (o.cursor_value - 5) as u8 } } else { o.cursor_value },
                            _ => o.cursor_value,
                        }
                        &&& f.zoom_level == match cmd {
                            AutomationCommand::ZoomIn => if o.zoom_level <= 2 { 1u8 } else { (o.zoom_level - 1) as u8 },
                            AutomationCommand::ZoomOut => if o.zoom_level >= 4 { 5u8 } else { (o.zoom_level + 1) as u8 },
                            _ => o.zoom_level,
                        }
                        &&& f.cursor_tick == match cmd {
                            AutomationCommand::Left => if timeline { if o.cursor_tick >= tpc { (o.cursor_tick - tpc) as u32 } else { 0 } } else { o.cursor_tick },
                            AutomationCommand::Right => if timeline { (o.cursor_tick + tpc) as u32 } else { o.cursor_tick },
                            AutomationCommand::Home => 0,
                            AutomationCommand::End => match lane {
                                Some(l) => if l.points@.len() > 0 { l.points@.last().tick } else { o.cursor_tick },
                                None => o.cursor_tick,
                            },
                            _ => o.cursor_tick,
                        }
                        &&& f.view_start_tick == match cmd {
                            AutomationCommand::Left => if timeline && f.cursor_tick < o.view_start_tick { f.cursor_tick } else { o.view_start_tick },
                            AutomationCommand::Home => 0,
                            AutomationCommand::End => match lane {
                                Some(l) => if l.points@.len() > 0 {
                                    if f.cursor_tick >= tpc * 10 { (f.cursor_tick - tpc * 10) as u32 } else { 0 }
                                } else {
                                    o.view_start_tick
                                },
                                None => o.view_start_tick,
                            },
                            _ => o.view_start_tick,
                        }
                        &&& r == match cmd {
                            AutomationCommand::Up => if timeline { Action::NoOp } else { Action::Automation(AutomationAction::SelectLane(-1i8)) },
                            AutomationCommand::Down => if timeline { Action::NoOp } else { Action::Automation(AutomationAction::SelectLane(1i8)) },
                            AutomationCommand::RemoveLane => match lane {
                                Some(l) => Action::Automation(AutomationAction::RemoveLane(l.id)),
                                None => Action::NoOp,
                            },
                            AutomationCommand::ToggleEnabled => match lane {
                                Some(l) => Action::Automation(AutomationAction::ToggleLaneEnabled(l.id)),
                                None => Action::NoOp,
                            },
                            AutomationCommand::PlacePoint => match lane {
                                Some(l) => if timeline {
                                    match point_at(l.points@, snapped) {
                                        Some(_) => Action::Automation(AutomationAction::RemovePoint(l.id, snapped)),
                                        None => Action::Automation(AutomationAction::AddPoint(l.id, snapped, o.cursor_value)),
                                    }
                                } else {
                                    Action::NoOp
                                },
                                None => Action::NoOp,
                            },
                            AutomationCommand::DeletePoint => match lane {
                                Some(l) => if timeline { Action::Automation(AutomationAction::RemovePoint(l.id, snapped)) } else { Action::NoOp },
                                None => Action::NoOp,
                            },
                            AutomationCommand::CycleCurve => match lane {
                                Some(l) => if timeline {
                                    match point_at(l.points@, snapped) {
                                        Some(pt) => Action::Automation(AutomationAction::SetCurveType(l.id, snapped, next_curve(pt.curve))),
                                        None => Action::NoOp,
                                    }
                                } else {
                                    Action::NoOp
                                },
                                None => Action::NoOp,
                            },
                            AutomationCommand::ClearLane => match lane {
                                Some(l) => Action::Automation(AutomationAction::ClearLane(l.id)),
                                None => Action::NoOp,
                            },
                            AutomationCommand::ToggleRecording => Action::Automation(AutomationAction::ToggleRecording),
                            AutomationCommand::PlayStop => Action::PianoRoll(PianoRollAction::PlayStop),
                            _ => Action::NoOp,
                        }
                    },
                }
            }),
    {
        let cmd = automation_command(action);
        match self.target_picker.take() {
            Some(mut picker) => {
                if cmd == AutomationCommand::Up {
                    if picker.cursor > 0 {
                        picker.cursor = picker.cursor - 1;
                    }
                    self.target_picker = Some(picker);
                    Action::NoOp
                } else if cmd == AutomationCommand::Down {
                    if picker.cursor < picker.options.len() && picker.cursor < picker.options.len() - 1 {
                        picker.cursor = picker.cursor + 1;
                    }
                    self.target_picker = Some(picker);
                    Action::NoOp
                } else if cmd == AutomationCommand::Confirm || cmd == AutomationCommand::AddLane {
                    if picker.cursor < picker.options.len() {
                        Action::Automation(AutomationAction::AddLane(picker.options[picker.cursor]))
                    } else {
                        self.target_picker = Some(picker);
                        Action::NoOp
                    }
                } else if cmd == AutomationCommand::Cancel {
                    Action::NoOp
                } else {
                    self.target_picker = Some(picker);
                    Action::NoOp
                }
            },
            None => self.handle_pane_command(cmd, lane, instrument, targets, sends),
        }
    }

    fn handle_pane_command(
        &mut self,
        cmd: AutomationCommand,
        lane: Option<&AutomationLaneView>,
        instrument: Option<u32>,
        targets: &Vec<AutomationTarget>,
        sends: usize,
    ) -> (r: Action)
        requires
            old(self).target_picker is None,
            cmd == AutomationCommand::Right ==> old(self).cursor_tick + 960 <= u32::MAX,
            cmd == AutomationCommand::ZoomOut ==> old(self).zoom_level < u8::MAX,
            targets@.len() + sends + 9 <= usize::MAX,
        ensures
            final(self).keymap == old(self).keymap,
            ({
                let o = *old(self);
                let f = *final(self);
                let timeline = o.focus == AutomationFocus::Timeline;
                let tpc = spec_cell_ticks(o.zoom_level);
                let snapped: u32 = if o.snap_to_grid { ((o.cursor_tick / tpc) * tpc) as u32 } else { o.cursor_tick };
                &&& cmd == AutomationCommand::AddLane ==> picker_is(f.target_picker, picker_options(instrument, targets@, sends as nat), 0)
                &&& cmd != AutomationCommand::AddLane ==> f.target_picker is None
                &&& f.snap_to_grid == o.snap_to_grid
                &&& f.focus == if cmd == AutomationCommand::SwitchFocus {
                    if timeline { AutomationFocus::LaneList } else { AutomationFocus::Timeline }
                } else {
                    o.focus
                }
                &&& f.cursor_value == match cmd {
                    AutomationCommand::Up => if timeline { if o.cursor_value + 5 > 100 { 100u8 } else { (o.cursor_value + 5) as u8 } } else { o.cursor_value },
                    AutomationCommand::Down => if timeline { if o.cursor_value < 5 { 0u8 } else { (o.cursor_value - 5) as u8 } } else { o.cursor_value },
                    _ => o.cursor_value,
                }
                &&& f.zoom_level == match cmd {
                    AutomationCommand::ZoomIn => if o.zoom_level <= 2 { 1u8 } else { (o.zoom_level - 1) as u8 },
                    AutomationCommand::ZoomOut => if o.zoom_level >= 4 { 5u8 } else { (o.zoom_level + 1) as u8 },
                    _ => o.zoom_level,
                }
                &&& f.cursor_tick == match cmd {
                    AutomationCommand::Left => if timeline { if o.cursor_tick >= tpc { (o.cursor_tick - tpc) as u32 } else { 0 } } else { o.cursor_tick },
                    AutomationCommand::Right => if timeline { (o.cursor_tick + tpc) as u32 } else { o.cursor_tick },
                    AutomationCommand::Home => 0,
                    AutomationCommand::End => match lane {
                        Some(l) => if l.points@.len() > 0 { l.points@.last().tick } else { o.cursor_tick },
                        None => o.cursor_tick,
                    },
                    _ => o.cursor_tick,
                }
                &&& f.view_start_tick == match cmd {
                    AutomationCommand::Left => if timeline && f.cursor_tick < o.view_start_tick { f.cursor_tick } else { o.view_start_tick },
                    AutomationCommand::Home => 0,
                    AutomationCommand::End => match lane {
                        Some(l) => if l.points@.len() > 0 {
                            if f.cursor_tick >= tpc * 10 { (f.cursor_tick - tpc * 10) as u32 } else { 0 }
                        } else {
                            o.view_start_tick
                        },
                        None => o.view_start_tick,
                    },
                    _ => o.view_start_tick,
                }
                &&& r == match cmd {
                    AutomationCommand::Up => if timeline { Action::NoOp } else { Action::Automation(AutomationAction::SelectLane(-1i8)) },
                    AutomationCommand::Down => if timeline { Action::NoOp } else { Action::Automation(AutomationAction::SelectLane(1i8)) },
                    AutomationCommand::RemoveLane => match lane {
                        Some(l) => Action::Automation(AutomationAction::RemoveLane(l.id)),
                        None => Action::NoOp,
                    },
                    AutomationCommand::ToggleEnabled => match lane {
                        Some(l) => Action::Automation(AutomationAction::ToggleLaneEnabled(l.id)),
                        None => Action::NoOp,
                    },
                    AutomationCommand::PlacePoint => match lane {
                        Some(l) => if timeline {
                            match point_at(l.points@, snapped) {
                                Some(_) => Action::Automation(AutomationAction::RemovePoint(l.id, snapped)),
                                None => Action::Automation(AutomationAction::AddPoint(l.id, snapped, o.cursor_value)),
                            }
                        } else {
                            Action::NoOp
                        },
                        None => Action::NoOp,
                    },
                    AutomationCommand::DeletePoint => match lane {
                        Some(l) => if timeline { Action::Automation(AutomationAction::RemovePoint(l.id, snapped)) } else { Action::NoOp },
                        None => Action::NoOp,
                    },
                    AutomationCommand::CycleCurve => match lane {
                        Some(l) => if timeline {
                            match point_at(l.points@, snapped) {
                                Some(pt) => Action::Automation(AutomationAction::SetCurveType(l.id, snapped, next_curve(pt.curve))),
                                None => Action::NoOp,
                            }
                        } else {
                            Action::NoOp
                        },
                        None => Action::NoOp,
                    },
                    AutomationCommand::ClearLane => match lane {
                        Some(l) => Action::Automation(AutomationAction::ClearLane(l.id)),
                        None => Action::NoOp,
                    },
                    AutomationCommand::ToggleRecording => Action::Automation(AutomationAction::ToggleRecording),
                    AutomationCommand::PlayStop => Action::PianoRoll(PianoRollAction::PlayStop),
                    _ => Action::NoOp,
                }
            }),
    {
        let timeline = self.focus == AutomationFocus::Timeline;
        match cmd {
            AutomationCommand::SwitchFocus => {
                self.focus = if timeline { AutomationFocus::LaneList } else { AutomationFocus::Timeline };
                Action::NoOp
            },
            AutomationCommand::Up => if timeline {
                self.cursor_value = if self.cursor_value > 95 { 100 } else { self.cursor_value + 5 };
                Action::NoOp
            } else {
                Action::Automation(AutomationAction::SelectLane(-1))
            },
            AutomationCommand::Down => if timeline {
                self.cursor_value = if self.cursor_value < 5 { 0 } else { self.cursor_value - 5 };
                Action::NoOp
            } else {
                Action::Automation(AutomationAction::SelectLane(1))
            },
            AutomationCommand::Left => {
                if timeline {
                    let tpc = self.ticks_per_cell();
                    self.cursor_tick = self.cursor_tick.saturating_sub(tpc);
                    if self.cursor_tick < self.view_start_tick {
                        self.view_start_tick = self.cursor_tick;
                    }
                }
                Action::NoOp
            },
            AutomationCommand::Right => {
                if timeline {
                    let tpc = self.ticks_per_cell();
                    self.cursor_tick = self.cursor_tick + tpc;
                }
                Action::NoOp
            },
            AutomationCommand::AddLane => {
                let mut options: Vec<AutomationTarget> = Vec::new();
                match instrument {
                    Some(id) => {
                        let mut i: usize = 0;
                        while i < targets.len()
                            invariant
                                i <= targets@.len(),
                                options@ == targets@.subrange(0, i as int),
                            decreases targets@.len() - i,
                        {
                            options.push(targets[i]);
                            i = i + 1;
                            assert(options@ =~= targets@.subrange(0, i as int));
                        }
                        let mut k: usize = 0;
                        while k < sends
                            invariant
                                i == targets@.len(),
                                k <= sends,
                                options@ == targets@ + Seq::new(k as nat, |j: int| AutomationTarget::SendLevel(id, j as usize)),
                            decreases sends - k,
                        {
                            options.push(AutomationTarget::SendLevel(id, k));
                            k = k + 1;
                            assert(options@ =~= targets@ + Seq::new(k as nat, |j: int| AutomationTarget::SendLevel(id, j as usize)));
                        }
                    },
                    None => {},
                }
                let ghost own = options@;
                let mut bus: u8 = 1;
                while bus <= 8
                    invariant
                        1 <= bus <= 9,
                        options@ == own + Seq::new((bus - 1) as nat, |i: int| AutomationTarget::BusLevel((i + 1) as u8)),
                    decreases 9 - bus,
                {
                    options.push(AutomationTarget::BusLevel(bus));
                    bus = bus + 1;
                    assert(options@ =~= own + Seq::new((bus - 1) as nat, |i: int| AutomationTarget::BusLevel((i + 1) as u8)));
                }
                options.push(AutomationTarget::Bpm);
                proof {
                    assert(options@ =~= picker_options(instrument, targets@, sends as nat));
                }
                self.target_picker = Some(TargetPicker { options, cursor: 0 });
                Action::NoOp
            },
            AutomationCommand::RemoveLane => match lane {
                Some(l) => Action::Automation(AutomationAction::RemoveLane(l.id)),
                None => Action::NoOp,
            },
            AutomationCommand::ToggleEnabled => match lane {
                Some(l) => Action::Automation(AutomationAction::ToggleLaneEnabled(l.id)),
                None => Action::NoOp,
            },
            AutomationCommand::PlacePoint => match lane {
                Some(l) => if timeline {
                    let t = self.snap_tick(self.cursor_tick);
                    match find_point(&l.points, t) {
                        Some(_) => Action::Automation(AutomationAction::RemovePoint(l.id, t)),
                        None => Action::Automation(AutomationAction::AddPoint(l.id, t, self.cursor_value)),
                    }
                } else {
                    Action::NoOp
                },
                None => Action::NoOp,
            },
            AutomationCommand::DeletePoint => match lane {
                Some(l) => if timeline {
                    let t = self.snap_tick(self.cursor_tick);
                    Action::Automation(AutomationAction::RemovePoint(l.id, t))
                } else {
                    Action::NoOp
                },
                None => Action::NoOp,
            },
            AutomationCommand::CycleCurve => match lane {
                Some(l) => if timeline {
                    let t = self.snap_tick(self.cursor_tick);
                    match find_point(&l.points, t) {
                        Some(pt) => {
                            let c = match pt.curve {
                                CurveType::Linear => CurveType::Exponential,
                                CurveType::Exponential => CurveType::Step,
                                CurveType::Step => CurveType::SCurve,
                                CurveType::SCurve => CurveType::Linear,
                            };
                            Action::Automation(AutomationAction::SetCurveType(l.id, t, c))
                        },
                        None => Action::NoOp,
                    }
                } else {
                    Action::NoOp
                },
                None => Action::NoOp,
            },
            AutomationCommand::ClearLane => match lane {
                Some(l) => Action::Automation(AutomationAction::ClearLane(l.id)),
                None => Action::NoOp,
            },
            AutomationCommand::ToggleRecording => Action::Automation(AutomationAction::ToggleRecording),
            AutomationCommand::ZoomIn => {
                self.zoom_level = if self.zoom_level <= 2 { 1 } else { self.zoom_level - 1 };
                Action::NoOp
            },
            AutomationCommand::ZoomOut => {
                self.zoom_level = if self.zoom_level >= 4 { 5 } else { self.zoom_level + 1 };
                Action::NoOp
            },
            AutomationCommand::Home => {
                self.cursor_tick = 0;
                self.view_start_tick = 0;
                Action::NoOp
            },
            AutomationCommand::End => {
                match lane {
                    Some(l) => {
                        let n = l.points.len();
                        if n > 0 {
                            self.cursor_tick = l.points[n - 1].tick;
                            let tpc = self.ticks_per_cell();
                            self.view_start_tick = self.cursor_tick.saturating_sub(tpc * 10);
                        }
                    },
                    None => {},
                }
                Action::NoOp
            },
            AutomationCommand::PlayStop => Action::PianoRoll(PianoRollAction::PlayStop),
            _ => Action::NoOp,
        }
    }
}

} // verus!

verus! {

/// A lane as the lane list shows it.
#[derive(Debug, Clone, Copy, PartialEq, Eq)]
pub struct LaneSummary {
    pub target: AutomationTarget,
    pub enabled: bool,
    pub point_count: usize,
    /// The curve of the lane's first point, if it has points.
    pub first_curve: Option<CurveType>,
}

/// A row of the lane list.
#[derive(Debug, Clone, Copy, PartialEq, Eq)]
pub struct LaneListRow {
    /// Index of the lane among all lanes.
    pub lane: usize,
    pub selected: bool,
    pub enabled: bool,
    pub point_count: usize,
    /// The first point's curve (linear for a lane without points).
    pub curve: CurveType,
}

/// What the lane list shows.
pub struct LaneListFrame {
    /// The area is large enough to show anything.
    pub shown: bool,
    /// No lane is listed: "(no automation lanes)" is shown.
    pub empty: bool,
    pub rows: Vec<LaneListRow>,
}

/// The instrument a target belongs to; none for global targets.
pub open spec fn target_instrument(t: AutomationTarget) -> Option<u32> {
    match t {
        AutomationTarget::Instrument(id, _) => Some(id),
        AutomationTarget::SendLevel(id, _) => Some(id),
        AutomationTarget::VstParam(id, _) => Some(id),
        AutomationTarget::BusLevel(_) => None,
        AutomationTarget::Bpm => None,
    }
}

/// A lane is listed: it is global, or it belongs to the selected instrument.
pub open spec fn lane_listed(l: LaneSummary, instrument: Option<u32>) -> bool {
    match target_instrument(l.target) {
        Some(id) => instrument == Some(id),
        None => true,
    }
}

/// The indices, in order, of the listed lanes among the first `n`.
pub open spec fn listed_lanes(lanes: Seq<LaneSummary>, instrument: Option<u32>, n: int) -> Seq<usize>
    decreases n,
{
    if n <= 0 {
        Seq::empty()
    } else if lane_listed(lanes[n - 1], instrument) {
        listed_lanes(lanes, instrument, n - 1).push((n - 1) as usize)
    } else {
        listed_lanes(lanes, instrument, n - 1)
    }
}

proof fn lemma_listed_lanes_bounds(lanes: Seq<LaneSummary>, instrument: Option<u32>, n: int)
    requires
        0 <= n <= lanes.len(),
    ensures
        listed_lanes(lanes, instrument, n).len() <= n,
        forall|i: int|
            0 <= i < listed_lanes(lanes, instrument, n).len() ==> #[trigger] listed_lanes(lanes, instrument, n)[i] < n,
    decreases n,
{
    if n > 0 {
        lemma_listed_lanes_bounds(lanes, instrument, n - 1);
    }
}

/// The instrument a target belongs to.
fn instrument_of_target(t: AutomationTarget) -> (r: Option<u32>)
    ensures
        r == target_instrument(t),
{
    match t {
        AutomationTarget::Instrument(id, _) => Some(id),
        AutomationTarget::SendLevel(id, _) => Some(id),
        AutomationTarget::VstParam(id, _) => Some(id),
        AutomationTarget::BusLevel(_) => None,
        AutomationTarget::Bpm => None,
    }
}

/// The lane list in an area `width` by `height`: the lanes of the selected
/// `instrument` and the global ones, in order, as many as fit under the header.
pub fn lane_list(lanes: &Vec<LaneSummary>, selected_lane: Option<usize>, instrument: Option<u32>, width: u16, height: u16) -> (f: LaneListFrame)
    ensures
        f.shown == (height >= 2 && width >= 10),
        ({
            let listed = listed_lanes(lanes@, instrument, lanes@.len() as int);
            let count = if !f.shown { 0 } else if listed.len() < height - 1 { listed.len() as int } else { height - 1 };
            &&& f.empty == (f.shown && listed.len() == 0)
            &&& f.rows@.len() == count
            &&& forall|v: int|
                0 <= v < count ==> {
                    let l = lanes@[listed[v] as int];
                    &&& (#[trigger] f.rows@[v]).lane == listed[v]
                    &&& f.rows@[v].selected == (selected_lane == Some(listed[v]))
                    &&& f.rows@[v].enabled == l.enabled
                    &&& f.rows@[v].point_count == l.point_count
                    &&& f.rows@[v].curve == match l.first_curve {
                        Some(c) => c,
                        None => CurveType::Linear,
                    }
                }
        }),
{
    if height < 2 || width < 10 {
        return LaneListFrame { shown: false, empty: false, rows: Vec::new() };
    }
    let mut listed: Vec<usize> = Vec::new();
    let mut i: usize = 0;
    while i < lanes.len()
        invariant
            i <= lanes@.len(),
            listed@ == listed_lanes(lanes@, instrument, i as int),
        decreases lanes@.len() - i,
    {
        let keep = match instrument_of_target(lanes[i].target) {
            Some(id) => instrument == Some(id),
            None => true,
        };
        if keep {
            listed.push(i);
        }
        i = i + 1;
    }
    proof {
        lemma_listed_lanes_bounds(lanes@, instrument, lanes@.len() as int);
    }
    let room: usize = (height - 1) as usize;
    let count: usize = if listed.len() < room { listed.len() } else { room };
    let mut rows: Vec<LaneListRow> = Vec::new();
    let mut v: usize = 0;
    while v < count
        invariant
            listed@ == listed_lanes(lanes@, instrument, lanes@.len() as int),
            forall|q: int| 0 <= q < listed@.len() ==> #[trigger] listed@[q] < lanes@.len(),
            count <= listed@.len(),
            v <= count,
            rows@.len() == v,
            forall|q: int|
                0 <= q < v ==> {
                    let l = lanes@[listed@[q] as int];
                    &&& (#[trigger] rows@[q]).lane == listed@[q]
                    &&& rows@[q].selected == (selected_lane == Some(listed@[q]))
                    &&& rows@[q].enabled == l.enabled
                    &&& rows@[q].point_count == l.point_count
                    &&& rows@[q].curve == match l.first_curve {
                        Some(c) => c,
                        None => CurveType::Linear,
                    }
                },
        decreases count - v,
    {
        let idx = listed[v];
        let l = lanes[idx];
        let curve = match l.first_curve {
            Some(c) => c,
            None => CurveType::Linear,
        };
        rows.push(LaneListRow {
            lane: idx,
            selected: selected_lane == Some(idx),
            enabled: l.enabled,
            point_count: l.point_count,
            curve,
        });
        v = v + 1;
    }
    LaneListFrame { shown: true, empty: listed.len() == 0, rows }
}

} // verus!
