//! The track (arrangement) view: one lane per instrument, a cursor on the
//! timeline, and clips placed on the lanes. The pane reads the arrangement and
//! answers each key with an arrangement request.

use vstd::prelude::*;
use crate::action::{Action, ArrangementAction};
use crate::keymap::Keymap;
use crate::text::{decimal, push_decimal, str_eq};

verus! {

/// Ticks in one beat.
pub const TICKS_PER_BEAT: u32 = 480;

/// A clip placed on a lane.
#[derive(Debug, Clone, Copy, PartialEq, Eq)]
pub struct PlacementInfo {
    pub id: u32,
    pub clip_id: u32,
    pub start_tick: u32,
}

/// What the track pane reads of the arrangement. The clip and placement fields
/// describe the instrument of the selected lane (see `lane_of`).
#[derive(Debug, Clone)]
pub struct ArrangementView {
    /// The instrument of each lane, in lane order.
    pub lane_instruments: Vec<u32>,
    pub selected_lane: usize,
    pub cursor_tick: u32,
    pub ticks_per_col: u32,
    /// The tick where the last placement ends.
    pub arrangement_length: u32,
    /// Beats in a bar (the time signature's numerator).
    pub beats_per_bar: u8,
    /// The clips of the lane's instrument, in order.
    pub clips: Vec<u32>,
    /// The placement of the lane's instrument under the cursor, if any.
    pub placement_at_cursor: Option<PlacementInfo>,
    /// How many placements the lane's instrument has.
    pub placement_count: usize,
    /// The selected placement, if any.
    pub selected_placement: Option<usize>,
}

impl ArrangementView {
    /// Tick counts fit in the signed column arithmetic, and a selected placement
    /// index has a successor.
    pub open spec fn wf(&self) -> bool {
        &&& self.cursor_tick <= i32::MAX
        &&& self.ticks_per_col <= i32::MAX
        &&& self.arrangement_length <= i32::MAX
        &&& match self.selected_placement {
            Some(i) => i < usize::MAX,
            None => true,
        }
    }
}

/// The lane the pane acts on: the selected lane, or the last one when the
/// selection lies past the end.
pub open spec fn spec_lane_of(selected_lane: usize, lanes: nat) -> usize {
    if selected_lane < lanes { selected_lane } else { (lanes - 1) as usize }
}

/// The lane the pane acts on (`lanes` is at least 1).
pub fn lane_of(selected_lane: usize, lanes: usize) -> (r: usize)
    requires
        lanes > 0,
    ensures
        r == spec_lane_of(selected_lane, lanes as nat),
        r < lanes,
{
    if selected_lane < lanes { selected_lane } else { lanes - 1 }
}

/// A command of the track pane, named by its action string.
#[derive(Debug, Clone, Copy, PartialEq, Eq, Structural)]
pub enum TrackCommand {
    LaneUp,
    LaneDown,
    CursorLeft,
    CursorRight,
    CursorHome,
    CursorEnd,
    NewClip,
    NewEmptyClip,
    PlaceClip,
    EditClip,
    Delete,
    DeleteClip,
    Duplicate,
    ToggleMode,
    PlayStop,
    MoveLeft,
    MoveRight,
    ZoomIn,
    ZoomOut,
    SelectNextPlacement,
    SelectPrevPlacement,
    SelectNextClip,
    SelectPrevClip,
    Unknown,
}

/// The command an action string names.
pub open spec fn spec_track_command(a: Seq<char>) -> TrackCommand {
    if a == "lane_up"@ {
        TrackCommand::LaneUp
    } else if a == "lane_down"@ {
        TrackCommand::LaneDown
    } else if a == "cursor_left"@ {
        TrackCommand::CursorLeft
    } else if a == "cursor_right"@ {
        TrackCommand::CursorRight
    } else if a == "cursor_home"@ {
        TrackCommand::CursorHome
    } else if a == "cursor_end"@ {
        TrackCommand::CursorEnd
    } else if a == "new_clip"@ {
        TrackCommand::NewClip
    } else if a == "new_empty_clip"@ {
        TrackCommand::NewEmptyClip
    } else if a == "place_clip"@ {
        TrackCommand::PlaceClip
    } else if a == "edit_clip"@ {
        TrackCommand::EditClip
    } else if a == "delete"@ {
        TrackCommand::Delete
    } else if a == "delete_clip"@ {
        TrackCommand::DeleteClip
    } else if a == "duplicate"@ {
        TrackCommand::Duplicate
    } else if a == "toggle_mode"@ {
        TrackCommand::ToggleMode
    } else if a == "play_stop"@ {
        TrackCommand::PlayStop
    } else if a == "move_left"@ {
        TrackCommand::MoveLeft
    } else if a == "move_right"@ {
        TrackCommand::MoveRight
    } else if a == "zoom_in"@ {
        TrackCommand::ZoomIn
    } else if a == "zoom_out"@ {
        TrackCommand::ZoomOut
    } else if a == "select_next_placement"@ {
        TrackCommand::SelectNextPlacement
    } else if a == "select_prev_placement"@ {
        TrackCommand::SelectPrevPlacement
    } else if a == "select_next_clip"@ {
        TrackCommand::SelectNextClip
    } else if a == "select_prev_clip"@ {
        TrackCommand::SelectPrevClip
    } else {
        TrackCommand::Unknown
    }
}

/// The command an action string names.
pub fn track_command(a: &str) -> (c: TrackCommand)
    ensures
        c == spec_track_command(a@),
{
    if str_eq(a, "lane_up") {
        TrackCommand::LaneUp
    } else if str_eq(a, "lane_down") {
        TrackCommand::LaneDown
    } else if str_eq(a, "cursor_left") {
        TrackCommand::CursorLeft
    } else if str_eq(a, "cursor_right") {
        TrackCommand::CursorRight
    } else if str_eq(a, "cursor_home") {
        TrackCommand::CursorHome
    } else if str_eq(a, "cursor_end") {
        TrackCommand::CursorEnd
    } else if str_eq(a, "new_clip") {
        TrackCommand::NewClip
    } else if str_eq(a, "new_empty_clip") {
        TrackCommand::NewEmptyClip
    } else if str_eq(a, "place_clip") {
        TrackCommand::PlaceClip
    } else if str_eq(a, "edit_clip") {
        TrackCommand::EditClip
    } else if str_eq(a, "delete") {
        TrackCommand::Delete
    } else if str_eq(a, "delete_clip") {
        TrackCommand::DeleteClip
    } else if str_eq(a, "duplicate") {
        TrackCommand::Duplicate
    } else if str_eq(a, "toggle_mode") {
        TrackCommand::ToggleMode
    } else if str_eq(a, "play_stop") {
        TrackCommand::PlayStop
    } else if str_eq(a, "move_left") {
        TrackCommand::MoveLeft
    } else if str_eq(a, "move_right") {
        TrackCommand::MoveRight
    } else if str_eq(a, "zoom_in") {
        TrackCommand::ZoomIn
    } else if str_eq(a, "zoom_out") {
        TrackCommand::ZoomOut
    } else if str_eq(a, "select_next_placement") {
        TrackCommand::SelectNextPlacement
    } else if str_eq(a, "select_prev_placement") {
        TrackCommand::SelectPrevPlacement
    } else if str_eq(a, "select_next_clip") {
        TrackCommand::SelectNextClip
    } else if str_eq(a, "select_prev_clip") {
        TrackCommand::SelectPrevClip
    } else {
        TrackCommand::Unknown
    }
}

/// Ticks in a bar of `beats` beats.
pub open spec fn spec_ticks_per_bar(beats: u8) -> u32 {
    (beats * 480) as u32
}

/// The clip `place_clip` and `delete_clip` act on: the chosen one, or the last.
pub open spec fn chosen_clip(clips: Seq<u32>, index: usize) -> u32 {
    clips[if index < clips.len() { index as int } else { clips.len() - 1 }]
}

/// The track pane's state.
pub struct TrackPane {
    pub keymap: Keymap,
    /// Position in the lane instrument's clip list of the clip to place.
    pub selected_clip_index: usize,
}

/// What a command asks of the arrangement for instrument `id` on view `v`; the
/// clip cycling commands ask nothing.
pub open spec fn track_request(cmd: TrackCommand, v: ArrangementView, lane: usize, id: u32, clip_index: usize) -> Action {
    let n = v.lane_instruments@.len();
    let tpc: int = if v.ticks_per_col > 0 { v.ticks_per_col as int } else { 1 };
    match cmd {
        TrackCommand::LaneUp => if lane > 0 {
            Action::Arrangement(ArrangementAction::SelectLane((lane - 1) as usize))
        } else {
            Action::NoOp
        },
        TrackCommand::LaneDown => if lane + 1 < n {
            Action::Arrangement(ArrangementAction::SelectLane((lane + 1) as usize))
        } else {
            Action::NoOp
        },
        TrackCommand::CursorLeft => Action::Arrangement(ArrangementAction::MoveCursor(-1i32)),
        TrackCommand::CursorRight => Action::Arrangement(ArrangementAction::MoveCursor(1i32)),
        TrackCommand::CursorHome => Action::Arrangement(ArrangementAction::MoveCursor((-((v.cursor_tick as int) / tpc)) as i32)),
        TrackCommand::CursorEnd => if v.arrangement_length > v.cursor_tick {
            Action::Arrangement(ArrangementAction::MoveCursor((((v.arrangement_length - v.cursor_tick) as int) / tpc) as i32))
        } else {
            Action::NoOp
        },
        TrackCommand::NewClip => Action::Arrangement(ArrangementAction::CaptureClipFromPianoRoll { instrument_id: id }),
        TrackCommand::NewEmptyClip => Action::Arrangement(
            ArrangementAction::CreateClip { instrument_id: id, length_ticks: spec_ticks_per_bar(v.beats_per_bar) },
        ),
        TrackCommand::PlaceClip => if v.clips@.len() > 0 {
            Action::Arrangement(ArrangementAction::PlaceClip {
                clip_id: chosen_clip(v.clips@, clip_index),
                instrument_id: id,
                start_tick: v.cursor_tick,
            })
        } else {
            Action::NoOp
        },
        TrackCommand::EditClip => match v.placement_at_cursor {
            Some(p) => Action::Arrangement(ArrangementAction::EnterClipEdit(p.clip_id)),
            None => Action::NoOp,
        },
        TrackCommand::Delete => match v.placement_at_cursor {
            Some(p) => Action::Arrangement(ArrangementAction::RemovePlacement(p.id)),
            None => Action::NoOp,
        },
        TrackCommand::DeleteClip => if v.clips@.len() > 0 {
            Action::Arrangement(ArrangementAction::DeleteClip(chosen_clip(v.clips@, clip_index)))
        } else {
            Action::NoOp
        },
        TrackCommand::Duplicate => match v.placement_at_cursor {
            Some(p) => Action::Arrangement(ArrangementAction::DuplicatePlacement(p.id)),
            None => Action::NoOp,
        },
        TrackCommand::ToggleMode => Action::Arrangement(ArrangementAction::TogglePlayMode),
        TrackCommand::PlayStop => Action::Arrangement(ArrangementAction::PlayStop),
        TrackCommand::MoveLeft => match v.placement_at_cursor {
            Some(p) => Action::Arrangement(ArrangementAction::MovePlacement {
                placement_id: p.id,
                new_start_tick: if p.start_tick > v.ticks_per_col { (p.start_tick - v.ticks_per_col) as u32 } else { 0 },
            }),
            None => Action::NoOp,
        },
        TrackCommand::MoveRight => match v.placement_at_cursor {
            Some(p) => Action::Arrangement(ArrangementAction::MovePlacement {
                placement_id: p.id,
                new_start_tick: (p.start_tick + v.ticks_per_col) as u32,
            }),
            None => Action::NoOp,
        },
        TrackCommand::ZoomIn => Action::Arrangement(ArrangementAction::ZoomIn),
        TrackCommand::ZoomOut => Action::Arrangement(ArrangementAction::ZoomOut),
        TrackCommand::SelectNextPlacement => if v.placement_count == 0 {
            Action::NoOp
        } else {
            Action::Arrangement(ArrangementAction::SelectPlacement(Some(match v.selected_placement {
                Some(i) => if i + 1 < v.placement_count { (i + 1) as usize } else { 0 },
                None => 0,
            })))
        },
        TrackCommand::SelectPrevPlacement => if v.placement_count == 0 {
            Action::NoOp
        } else {
            Action::Arrangement(ArrangementAction::SelectPlacement(Some(match v.selected_placement {
                Some(i) => if i == 0 { (v.placement_count - 1) as usize } else { (i - 1) as usize },
                None => 0,
            })))
        },
        _ => Action::NoOp,
    }
}

impl TrackPane {
    /// A pane with the first clip chosen.
    pub fn new(keymap: Keymap) -> (p: TrackPane)
        ensures
            p.keymap == keymap,
            p.selected_clip_index == 0,
    {
        TrackPane { keymap, selected_clip_index: 0 }
    }

    pub fn id(&self) -> (r: &'static str)
        ensures
            r@ == "track"@,
    {
        "track"
    }

    /// Ticks in a bar of the arrangement's time signature.
    pub fn ticks_per_bar(&self, beats_per_bar: u8) -> (r: u32)
        ensures
            r == spec_ticks_per_bar(beats_per_bar),
            r == beats_per_bar * 480,
    {
        beats_per_bar as u32 * TICKS_PER_BEAT
    }

    /// Handles one action on the arrangement `v`. With no instruments nothing
    /// happens; otherwise it acts on the lane `lane_of` names, asking for a
    /// request as `track_request` says, and the clip cycling commands move the
    /// chosen clip through the lane instrument's clips, wrapping around.
    pub fn handle_action(&mut self, action: &str, v: &ArrangementView) -> (r: Action)
        requires
            v.wf(),
            v.lane_instruments@.len() > 0 && spec_track_command(action@) == TrackCommand::MoveRight
                ==> match v.placement_at_cursor {
                Some(p) => p.start_tick + v.ticks_per_col <= u32::MAX,
                None => true,
            },
        ensures
            final(self).keymap == old(self).keymap,
            ({
                let n = v.lane_instruments@.len();
                let cmd = spec_track_command(action@);
                let clips = v.clips@.len();
                let k = old(self).selected_clip_index;
                if n == 0 {
                    r == Action::NoOp && final(self).selected_clip_index == k
                } else {
                    let lane = spec_lane_of(v.selected_lane, n);
                    &&& r == track_request(cmd, *v, lane, v.lane_instruments@[lane as int], k)
                    &&& final(self).selected_clip_index == if clips > 0 && cmd == TrackCommand::SelectNextClip {
                        ((k + 1) % (clips as int)) as usize
                    } else if clips > 0 && cmd == TrackCommand::SelectPrevClip {
                        if k == 0 { (clips - 1) as usize } else { (k - 1) as usize }
                    } else {
                        k
                    }
                }
            }),
    {
        let n = v.lane_instruments.len();
        if n == 0 {
            return Action::NoOp;
        }
        let lane = lane_of(v.selected_lane, n);
        let id = v.lane_instruments[lane];
        let cmd = track_command(action);
        let tpc: u32 = if v.ticks_per_col > 0 { v.ticks_per_col } else { 1 };
        let clips = v.clips.len();
        let clip_idx = if clips > 0 {
            if self.selected_clip_index < clips { self.selected_clip_index } else { clips - 1 }
        } else {
            0
        };
        match cmd {
            TrackCommand::LaneUp => if lane > 0 {
                Action::Arrangement(ArrangementAction::SelectLane(lane - 1))
            } else {
                Action::NoOp
            },
            TrackCommand::LaneDown => if lane < n - 1 {
                Action::Arrangement(ArrangementAction::SelectLane(lane + 1))
            } else {
                Action::NoOp
            },
            TrackCommand::CursorLeft => Action::Arrangement(ArrangementAction::MoveCursor(-1)),
            TrackCommand::CursorRight => Action::Arrangement(ArrangementAction::MoveCursor(1)),
            TrackCommand::CursorHome => {
                assert(v.cursor_tick / tpc <= v.cursor_tick) by (nonlinear_arith)
                    requires tpc >= 1;
                let cols = (v.cursor_tick / tpc) as i32;
                Action::Arrangement(ArrangementAction::MoveCursor(-cols))
            },
            TrackCommand::CursorEnd => if v.arrangement_length > v.cursor_tick {
                let d = v.arrangement_length - v.cursor_tick;
                assert(d / tpc <= d) by (nonlinear_arith)
                    requires tpc >= 1;
                let cols = (d / tpc) as i32;
                Action::Arrangement(ArrangementAction::MoveCursor(cols))
            } else {
                Action::NoOp
            },
            TrackCommand::NewClip => Action::Arrangement(ArrangementAction::CaptureClipFromPianoRoll { instrument_id: id }),
            TrackCommand::NewEmptyClip => {
                let tpb = self.ticks_per_bar(v.beats_per_bar);
                Action::Arrangement(ArrangementAction::CreateClip { instrument_id: id, length_ticks: tpb })
            },
            TrackCommand::PlaceClip => if clips > 0 {
                Action::Arrangement(ArrangementAction::PlaceClip {
                    clip_id: v.clips[clip_idx],
                    instrument_id: id,
                    start_tick: v.cursor_tick,
                })
            } else {
                Action::NoOp
            },
            TrackCommand::EditClip => match v.placement_at_cursor {
                Some(p) => Action::Arrangement(ArrangementAction::EnterClipEdit(p.clip_id)),
                None => Action::NoOp,
            },
            TrackCommand::Delete => match v.placement_at_cursor {
                Some(p) => Action::Arrangement(ArrangementAction::RemovePlacement(p.id)),
                None => Action::NoOp,
            },
            TrackCommand::DeleteClip => if clips > 0 {
                Action::Arrangement(ArrangementAction::DeleteClip(v.clips[clip_idx]))
            } else {
                Action::NoOp
            },
            TrackCommand::Duplicate => match v.placement_at_cursor {
                Some(p) => Action::Arrangement(ArrangementAction::DuplicatePlacement(p.id)),
                None => Action::NoOp,
            },
            TrackCommand::ToggleMode => Action::Arrangement(ArrangementAction::TogglePlayMode),
            TrackCommand::PlayStop => Action::Arrangement(ArrangementAction::PlayStop),
            TrackCommand::MoveLeft => match v.placement_at_cursor {
                Some(p) => Action::Arrangement(ArrangementAction::MovePlacement {
                    placement_id: p.id,
                    new_start_tick: p.start_tick.saturating_sub(v.ticks_per_col),
                }),
                None => Action::NoOp,
            },
            TrackCommand::MoveRight => match v.placement_at_cursor {
                Some(p) => Action::Arrangement(ArrangementAction::MovePlacement {
                    placement_id: p.id,
                    new_start_tick: p.start_tick + v.ticks_per_col,
                }),
                None => Action::NoOp,
            },
            TrackCommand::ZoomIn => Action::Arrangement(ArrangementAction::ZoomIn),
            TrackCommand::ZoomOut => Action::Arrangement(ArrangementAction::ZoomOut),
            TrackCommand::SelectNextPlacement => if v.placement_count == 0 {
                Action::NoOp
            } else {
                let next = match v.selected_placement {
                    Some(i) => if i < v.placement_count - 1 { i + 1 } else { 0 },
                    None => 0,
                };
                Action::Arrangement(ArrangementAction::SelectPlacement(Some(next)))
            },
            TrackCommand::SelectPrevPlacement => if v.placement_count == 0 {
                Action::NoOp
            } else {
                let prev = match v.selected_placement {
                    Some(i) => if i == 0 { v.placement_count - 1 } else { i - 1 },
                    None => 0,
                };
                Action::Arrangement(ArrangementAction::SelectPlacement(Some(prev)))
            },
            TrackCommand::SelectNextClip => {
                if clips > 0 {
                    proof {
                        vstd::arithmetic::div_mod::lemma_add_mod_noop_right(1, self.selected_clip_index as int, clips as int);
                        vstd::arithmetic::div_mod::lemma_mod_bound(self.selected_clip_index as int, clips as int);
                    }
                    self.selected_clip_index = (self.selected_clip_index % clips + 1) % clips;
                }
                Action::NoOp
            },
            TrackCommand::SelectPrevClip => {
                if clips > 0 {
                    self.selected_clip_index = if self.selected_clip_index == 0 {
                        clips - 1
                    } else {
                        self.selected_clip_index - 1
                    };
                }
                Action::NoOp
            },
            TrackCommand::Unknown => Action::NoOp,
        }
    }
}

} // verus!

verus! {

/// The first lane shown when `max_visible` lanes fit and lane `selected` is
/// selected: 0 while it fits on the first page, else it is the last lane shown.
pub open spec fn spec_lane_scroll(selected: usize, max_visible: usize) -> usize {
    if selected >= max_visible { (selected - max_visible + 1) as usize } else { 0 }
}

/// The first lane shown.
pub fn lane_scroll(selected: usize, max_visible: usize) -> (r: usize)
    requires
        selected < usize::MAX,
    ensures
        r == spec_lane_scroll(selected, max_visible),
{
    if selected >= max_visible { selected - max_visible + 1 } else { 0 }
}

/// How a timeline column is marked.
#[derive(Debug, Clone, Copy, PartialEq, Eq, Structural)]
pub enum ColumnMark {
    /// The column holds the first tick of a bar.
    Bar,
    /// The column holds the first tick of a beat.
    Beat,
    Plain,
}

/// The mark of the column starting at `tick`, `tpc` ticks wide, with bars of
/// `ticks_per_bar` ticks: a bar line where a bar starts inside the column (when a
/// bar is at least a column wide), else a beat mark where a beat starts inside it
/// (when a beat is at least a column wide).
pub open spec fn spec_column_mark(tick: u32, tpc: u32, ticks_per_bar: u32) -> ColumnMark {
    if ticks_per_bar / tpc > 0 && tick % ticks_per_bar < tpc {
        ColumnMark::Bar
    } else if 480u32 / tpc > 0 && tick % 480u32 < tpc {
        ColumnMark::Beat
    } else {
        ColumnMark::Plain
    }
}

/// The mark of a timeline column.
pub fn column_mark(tick: u32, tpc: u32, ticks_per_bar: u32) -> (r: ColumnMark)
    requires
        tpc > 0,
        ticks_per_bar > 0,
    ensures
        r == spec_column_mark(tick, tpc, ticks_per_bar),
{
    if ticks_per_bar / tpc > 0 && tick % ticks_per_bar < tpc {
        ColumnMark::Bar
    } else if TICKS_PER_BEAT / tpc > 0 && tick % TICKS_PER_BEAT < tpc {
        ColumnMark::Beat
    } else {
        ColumnMark::Plain
    }
}

/// The columns `[first, last)` of a timeline `width` columns wide, starting at
/// `view_start` with `tpc` ticks per column, that show a placement covering ticks
/// `[start, end)`; none when it lies outside the view.
pub open spec fn spec_placement_columns(start: u32, end: u32, view_start: u32, tpc: u32, width: u16) -> Option<(u16, u16)> {
    let start_col = (if start > view_start { start - view_start } else { 0 }) / (tpc as int);
    let end_col = (if end > view_start { end - view_start } else { 0 }) / (tpc as int);
    let first: u16 = if start < view_start { 0 } else { start_col as u16 };
    let last: u16 = if (end_col as u16) < width { end_col as u16 } else { width };
    if end <= view_start || start >= view_start + width * tpc || first >= last {
        None
    } else {
        Some((first, last))
    }
}

/// The columns that show a placement.
pub fn placement_columns(start: u32, end: u32, view_start: u32, tpc: u32, width: u16) -> (r: Option<(u16, u16)>)
    requires
        tpc > 0,
    ensures
        r == spec_placement_columns(start, end, view_start, tpc, width),
{
    if end <= view_start {
        return None;
    }
    proof {
        vstd::arithmetic::mul::lemma_mul_upper_bound(width as int, u16::MAX as int, tpc as int, u32::MAX as int);
    }
    let span: u64 = width as u64 * tpc as u64;
    if start as u64 >= view_start as u64 + span {
        return None;
    }
    let start_col = start.saturating_sub(view_start) / tpc;
    let end_col = end.saturating_sub(view_start) / tpc;
    let first: u16 = if start < view_start { 0 } else { start_col as u16 };
    let e = end_col as u16;
    let last: u16 = if e < width { e } else { width };
    if first >= last {
        None
    } else {
        Some((first, last))
    }
}

/// "Bar b Beat c" for a cursor at `tick`, counting both from 1.
pub open spec fn position_text(tick: u32, ticks_per_bar: u32) -> Seq<char> {
    "Bar "@ + decimal((tick / ticks_per_bar + 1) as nat) + " Beat "@ + decimal(((tick % ticks_per_bar) / 480 + 1) as nat)
}

/// Where the cursor is, in bars and beats.
pub fn cursor_position(tick: u32, ticks_per_bar: u32) -> (r: String)
    requires
        ticks_per_bar > 0,
    ensures
        r@ == position_text(tick, ticks_per_bar),
{
    let mut s = String::from_str("Bar ");
    push_decimal(&mut s, (tick / ticks_per_bar) as u64 + 1);
    s.append(" Beat ");
    push_decimal(&mut s, ((tick % ticks_per_bar) / TICKS_PER_BEAT) as u64 + 1);
    s
}

/// The chosen clip of the lane, as the footer shows it: "No clips", or its name
/// and its place among the clips (the last when the choice is past the end).
pub open spec fn clip_info_text(names: Seq<Seq<char>>, index: usize) -> Seq<char> {
    if names.len() == 0 {
        "No clips"@
    } else {
        let i = if index < names.len() { index as int } else { names.len() - 1 };
        "Clip: "@ + names[i] + " ["@ + decimal((i + 1) as nat) + "/"@ + decimal(names.len()) + "]"@
    }
}

/// The footer text for the chosen clip.
pub fn clip_info(names: &Vec<String>, index: usize) -> (r: String)
    ensures
        r@ == clip_info_text(names@.map_values(|n: String| n@), index),
{
    let n = names.len();
    if n == 0 {
        proof {
            reveal_strlit("No clips");
        }
        return String::from_str("No clips");
    }
    let i = if index < n { index } else { n - 1 };
    let mut s = String::from_str("Clip: ");
    s.append(names[i].as_str());
    s.append(" [");
    push_decimal(&mut s, i as u64 + 1);
    s.append("/");
    push_decimal(&mut s, n as u64);
    s.append("]");
    s
}

/// Lane moves stay among the lanes: with `n` lanes and the highlight on
/// `selected_lane` (the last lane when it is past the end), moving up asks for
/// the lane above unless on the first lane, moving down for the lane below
/// unless on the last, and a lane that is asked for always exists.
pub proof fn lemma_lane_moves_stay_in_lanes(v: ArrangementView, selected_lane: usize, id: u32, clip_index: usize)
    requires
        v.lane_instruments@.len() > 0,
    ensures
        ({
            let n = v.lane_instruments@.len();
            let lane = spec_lane_of(selected_lane, n);
            &&& lane < n
            &&& track_request(TrackCommand::LaneUp, v, lane, id, clip_index) == if lane > 0 {
                Action::Arrangement(ArrangementAction::SelectLane((lane - 1) as usize))
            } else {
                Action::NoOp
            }
            &&& track_request(TrackCommand::LaneDown, v, lane, id, clip_index) == if lane + 1 < n {
                Action::Arrangement(ArrangementAction::SelectLane((lane + 1) as usize))
            } else {
                Action::NoOp
            }
            &&& forall|cmd: TrackCommand|
                (cmd == TrackCommand::LaneUp || cmd == TrackCommand::LaneDown) ==> (
                #[trigger] track_request(cmd, v, lane, id, clip_index) matches Action::Arrangement(
                    ArrangementAction::SelectLane(j),
                ) ==> j < n)
        }),
{
}

} // verus!
