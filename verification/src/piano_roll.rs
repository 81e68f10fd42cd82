//! The piano-roll pane: a pitch × time grid with a cursor, a scrolled view,
//! a time zoom, and the defaults used when placing notes.
//!
//! Time is measured in ticks (480 per beat). The view shows 24 pitch rows and
//! 60 time columns; one column spans `ticks_per_cell` ticks at the current zoom.

use vstd::prelude::*;
use crate::action::{Action, PianoRollAction};
use crate::keymap::Keymap;
use crate::screen::ScreenRect;
use crate::text::{decimal, push_signed_decimal, signed_decimal, str_eq};

verus! {

/// Rows of pitches the grid shows.
pub const VISIBLE_ROWS: u8 = 24;

/// Columns of time cells the grid shows.
pub const VISIBLE_COLS: u32 = 60;

/// Where "end" puts the cursor: 16 bars of 4/4 at 480 ticks per beat.
pub const END_TICK: u32 = 30720;

/// Ticks per grid cell at a zoom level (1 = finest); unknown levels act as level 3.
pub open spec fn spec_ticks_per_cell(zoom: u8) -> u32 {
    if zoom == 1 {
        60
    } else if zoom == 2 {
        120
    } else if zoom == 3 {
        240
    } else if zoom == 4 {
        480
    } else if zoom == 5 {
        960
    } else {
        240
    }
}

/// `tick` rounded down to a multiple of `grid`.
pub open spec fn snap(tick: u32, grid: u32) -> u32 {
    ((tick / grid) * grid) as u32
}

/// `a + b`, or 255 when that does not fit in a byte.
pub open spec fn sat_add_u8(a: u8, b: u8) -> u8 {
    if a + b > 255 {
        255
    } else {
        (a + b) as u8
    }
}

/// `a - b`, or 0 when that is negative.
pub open spec fn sat_sub_u8(a: u8, b: u8) -> u8 {
    if a < b {
        0
    } else {
        (a - b) as u8
    }
}

/// `a - b`, or 0 when that is negative.
pub open spec fn sat_sub_u32(a: u32, b: u32) -> u32 {
    if a < b {
        0
    } else {
        (a - b) as u32
    }
}

/// A command of the piano-roll pane, named by its action string.
#[derive(Debug, Clone, Copy, PartialEq, Eq)]
pub enum PianoRollCommand {
    Up,
    Down,
    Right,
    Left,
    SelectUp,
    SelectDown,
    SelectRight,
    SelectLeft,
    ToggleNote,
    GrowDuration,
    ShrinkDuration,
    VelUp,
    VelDown,
    PlayStop,
    Loop,
    LoopStart,
    LoopEnd,
    OctaveUp,
    OctaveDown,
    Home,
    End,
    ZoomIn,
    ZoomOut,
    TimeSig,
    TogglePoly,
    RenderToWav,
    BounceToWav,
    ExportStems,
    ToggleAutomation,
    AutomationLanePrev,
    AutomationLaneNext,
    PlayStopRecord,
    Unknown,
}

/// The command an action string names.
pub open spec fn spec_command_of(s: Seq<char>) -> PianoRollCommand {
    if s == "up"@ {
        PianoRollCommand::Up
    } else if s == "down"@ {
        PianoRollCommand::Down
    } else if s == "right"@ {
        PianoRollCommand::Right
    } else if s == "left"@ {
        PianoRollCommand::Left
    } else if s == "select_up"@ {
        PianoRollCommand::SelectUp
    } else if s == "select_down"@ {
        PianoRollCommand::SelectDown
    } else if s == "select_right"@ {
        PianoRollCommand::SelectRight
    } else if s == "select_left"@ {
        PianoRollCommand::SelectLeft
    } else if s == "toggle_note"@ {
        PianoRollCommand::ToggleNote
    } else if s == "grow_duration"@ {
        PianoRollCommand::GrowDuration
    } else if s == "shrink_duration"@ {
        PianoRollCommand::ShrinkDuration
    } else if s == "vel_up"@ {
        PianoRollCommand::VelUp
    } else if s == "vel_down"@ {
        PianoRollCommand::VelDown
    } else if s == "play_stop"@ {
        PianoRollCommand::PlayStop
    } else if s == "loop"@ {
        PianoRollCommand::Loop
    } else if s == "loop_start"@ {
        PianoRollCommand::LoopStart
    } else if s == "loop_end"@ {
        PianoRollCommand::LoopEnd
    } else if s == "octave_up"@ {
        PianoRollCommand::OctaveUp
    } else if s == "octave_down"@ {
        PianoRollCommand::OctaveDown
    } else if s == "home"@ {
        PianoRollCommand::Home
    } else if s == "end"@ {
        PianoRollCommand::End
    } else if s == "zoom_in"@ {
        PianoRollCommand::ZoomIn
    } else if s == "zoom_out"@ {
        PianoRollCommand::ZoomOut
    } else if s == "time_sig"@ {
        PianoRollCommand::TimeSig
    } else if s == "toggle_poly"@ {
        PianoRollCommand::TogglePoly
    } else if s == "render_to_wav"@ {
        PianoRollCommand::RenderToWav
    } else if s == "bounce_to_wav"@ {
        PianoRollCommand::BounceToWav
    } else if s == "export_stems"@ {
        PianoRollCommand::ExportStems
    } else if s == "toggle_automation"@ {
        PianoRollCommand::ToggleAutomation
    } else if s == "automation_lane_prev"@ {
        PianoRollCommand::AutomationLanePrev
    } else if s == "automation_lane_next"@ {
        PianoRollCommand::AutomationLaneNext
    } else if s == "piano:space"@ {
        PianoRollCommand::PlayStopRecord
    } else {
        PianoRollCommand::Unknown
    }
}

/// The command an action string names.
pub fn command_of(s: &str) -> (c: PianoRollCommand)
    ensures
        c == spec_command_of(s@),
{
    if str_eq(s, "up") {
        PianoRollCommand::Up
    } else if str_eq(s, "down") {
        PianoRollCommand::Down
    } else if str_eq(s, "right") {
        PianoRollCommand::Right
    } else if str_eq(s, "left") {
        PianoRollCommand::Left
    } else if str_eq(s, "select_up") {
        PianoRollCommand::SelectUp
    } else if str_eq(s, "select_down") {
        PianoRollCommand::SelectDown
    } else if str_eq(s, "select_right") {
        PianoRollCommand::SelectRight
    } else if str_eq(s, "select_left") {
        PianoRollCommand::SelectLeft
    } else if str_eq(s, "toggle_note") {
        PianoRollCommand::ToggleNote
    } else if str_eq(s, "grow_duration") {
        PianoRollCommand::GrowDuration
    } else if str_eq(s, "shrink_duration") {
        PianoRollCommand::ShrinkDuration
    } else if str_eq(s, "vel_up") {
        PianoRollCommand::VelUp
    } else if str_eq(s, "vel_down") {
        PianoRollCommand::VelDown
    } else if str_eq(s, "play_stop") {
        PianoRollCommand::PlayStop
    } else if str_eq(s, "loop") {
        PianoRollCommand::Loop
    } else if str_eq(s, "loop_start") {
        PianoRollCommand::LoopStart
    } else if str_eq(s, "loop_end") {
        PianoRollCommand::LoopEnd
    } else if str_eq(s, "octave_up") {
        PianoRollCommand::OctaveUp
    } else if str_eq(s, "octave_down") {
        PianoRollCommand::OctaveDown
    } else if str_eq(s, "home") {
        PianoRollCommand::Home
    } else if str_eq(s, "end") {
        PianoRollCommand::End
    } else if str_eq(s, "zoom_in") {
        PianoRollCommand::ZoomIn
    } else if str_eq(s, "zoom_out") {
        PianoRollCommand::ZoomOut
    } else if str_eq(s, "time_sig") {
        PianoRollCommand::TimeSig
    } else if str_eq(s, "toggle_poly") {
        PianoRollCommand::TogglePoly
    } else if str_eq(s, "render_to_wav") {
        PianoRollCommand::RenderToWav
    } else if str_eq(s, "bounce_to_wav") {
        PianoRollCommand::BounceToWav
    } else if str_eq(s, "export_stems") {
        PianoRollCommand::ExportStems
    } else if str_eq(s, "toggle_automation") {
        PianoRollCommand::ToggleAutomation
    } else if str_eq(s, "automation_lane_prev") {
        PianoRollCommand::AutomationLanePrev
    } else if str_eq(s, "automation_lane_next") {
        PianoRollCommand::AutomationLaneNext
    } else if str_eq(s, "piano:space") {
        PianoRollCommand::PlayStopRecord
    } else {
        PianoRollCommand::Unknown
    }
}

/// The piano-roll pane's cursor, view, zoom and note defaults.
pub struct PianoRollPane {
    pub keymap: Keymap,
    /// MIDI pitch under the cursor.
    pub cursor_pitch: u8,
    /// Tick under the cursor.
    pub cursor_tick: u32,
    /// Index of the track being edited.
    pub current_track: usize,
    /// Lowest visible pitch.
    pub view_bottom_pitch: u8,
    /// Leftmost visible tick.
    pub view_start_tick: u32,
    /// Time zoom, 1 (finest) to 5.
    pub zoom_level: u8,
    /// Duration of placed notes, in ticks.
    pub default_duration: u32,
    /// Velocity of placed notes.
    pub default_velocity: u8,
    /// Whether notes played on the piano keyboard are recorded.
    pub recording: bool,
    pub automation_overlay_visible: bool,
    pub automation_overlay_lane_idx: Option<usize>,
    /// Where a shift-selection started: (tick, pitch).
    pub selection_anchor: Option<(u32, u8)>,
}

impl PianoRollPane {
    /// The view after scrolling so that the cursor is visible.
    pub open spec fn scrolled(self) -> Self {
        let tpc = spec_ticks_per_cell(self.zoom_level);
        let visible_ticks = (VISIBLE_COLS * tpc) as u32;
        let bottom = if self.cursor_pitch < self.view_bottom_pitch {
            self.cursor_pitch
        } else if self.cursor_pitch >= sat_add_u8(self.view_bottom_pitch, VISIBLE_ROWS) {
            sat_sub_u8(self.cursor_pitch, (VISIBLE_ROWS - 1) as u8)
        } else {
            self.view_bottom_pitch
        };
        let start = if self.cursor_tick < self.view_start_tick {
            snap(self.cursor_tick, tpc)
        } else if self.cursor_tick >= self.view_start_tick + visible_ticks {
            snap(sat_sub_u32(self.cursor_tick, (visible_ticks - tpc) as u32), tpc)
        } else {
            self.view_start_tick
        };
        PianoRollPane { view_bottom_pitch: bottom, view_start_tick: start, ..self }
    }

    /// Scrolling the view does not overflow a tick counter.
    pub open spec fn can_scroll(self) -> bool {
        self.cursor_tick < self.view_start_tick || self.view_start_tick + VISIBLE_COLS
            * spec_ticks_per_cell(self.zoom_level) <= u32::MAX
    }

    /// The cursor lies inside the visible grid.
    pub open spec fn cursor_visible(self) -> bool {
        &&& self.view_bottom_pitch <= self.cursor_pitch
        &&& self.cursor_pitch < self.view_bottom_pitch + VISIBLE_ROWS
        &&& self.view_start_tick <= self.cursor_tick
        &&& self.cursor_tick < self.view_start_tick + VISIBLE_COLS * spec_ticks_per_cell(
            self.zoom_level,
        )
    }

    /// A pane with the cursor on C4 at tick 0, the view from C3, zoom level 3,
    /// one-beat notes at velocity 100, on the first track.
    pub fn new(keymap: Keymap) -> (p: Self)
        ensures
            p.keymap == keymap,
            p.cursor_pitch == 60,
            p.cursor_tick == 0,
            p.current_track == 0,
            p.view_bottom_pitch == 48,
            p.view_start_tick == 0,
            p.zoom_level == 3,
            p.default_duration == 480,
            p.default_velocity == 100,
            !p.recording,
            !p.automation_overlay_visible,
            p.automation_overlay_lane_idx is None,
            p.selection_anchor is None,
            p.in_range(),
    {
        PianoRollPane {
            keymap,
            cursor_pitch: 60,
            cursor_tick: 0,
            current_track: 0,
            view_bottom_pitch: 48,
            view_start_tick: 0,
            zoom_level: 3,
            default_duration: 480,
            default_velocity: 100,
            recording: false,
            automation_overlay_visible: false,
            automation_overlay_lane_idx: None,
            selection_anchor: None,
        }
    }

    pub fn cursor_pitch(&self) -> (r: u8)
        ensures
            r == self.cursor_pitch,
            self.in_range() ==> r <= 127,
    {
        self.cursor_pitch
    }

    pub fn cursor_tick(&self) -> (r: u32)
        ensures
            r == self.cursor_tick,
    {
        self.cursor_tick
    }

    pub fn default_duration(&self) -> (r: u32)
        ensures
            r == self.default_duration,
            self.in_range() ==> r >= 60,
    {
        self.default_duration
    }

    pub fn default_velocity(&self) -> (r: u8)
        ensures
            r == self.default_velocity,
            self.in_range() ==> 1 <= r <= 127,
    {
        self.default_velocity
    }

    pub fn current_track(&self) -> (r: usize)
        ensures
            r == self.current_track,
    {
        self.current_track
    }

    pub fn is_recording(&self) -> (r: bool)
        ensures
            r == self.recording,
    {
        self.recording
    }

    pub fn set_recording(&mut self, recording: bool)
        ensures
            *final(self) == (PianoRollPane { recording, ..*old(self) }),
    {
        self.recording = recording;
    }

    /// Sets the edited track directly (to follow the global instrument selection).
    pub fn set_current_track(&mut self, idx: usize)
        ensures
            *final(self) == (PianoRollPane { current_track: idx, ..*old(self) }),
    {
        self.current_track = idx;
    }

    /// Ticks per grid cell at the current zoom.
    pub fn ticks_per_cell(&self) -> (r: u32)
        ensures
            r == spec_ticks_per_cell(self.zoom_level),
            60 <= r <= 960,
    {
        if self.zoom_level == 1 {
            60
        } else if self.zoom_level == 2 {
            120
        } else if self.zoom_level == 3 {
            240
        } else if self.zoom_level == 4 {
            480
        } else if self.zoom_level == 5 {
            960
        } else {
            240
        }
    }

    /// `tick` rounded down to the grid of the current zoom.
    pub fn snap_tick(&self, tick: u32) -> (r: u32)
        ensures
            r == snap(tick, spec_ticks_per_cell(self.zoom_level)),
            r <= tick,
            tick < r + spec_ticks_per_cell(self.zoom_level),
            r % spec_ticks_per_cell(self.zoom_level) == 0,
    {
        let grid = self.ticks_per_cell();
        let q = tick / grid;
        proof {
            vstd::arithmetic::div_mod::lemma_fundamental_div_mod(tick as int, grid as int);
            vstd::arithmetic::div_mod::lemma_mod_multiples_basic(q as int, grid as int);
            vstd::arithmetic::mul::lemma_mul_is_commutative(q as int, grid as int);
        }
        q * grid
    }

    /// Scrolls the view so that the cursor is visible.
    pub fn scroll_to_cursor(&mut self)
        requires
            old(self).can_scroll(),
        ensures
            *final(self) == old(self).scrolled(),
            final(self).cursor_visible(),
    {
        let visible_rows: u8 = VISIBLE_ROWS;
        if self.cursor_pitch < self.view_bottom_pitch {
            self.view_bottom_pitch = self.cursor_pitch;
        } else if self.cursor_pitch >= self.view_bottom_pitch.saturating_add(visible_rows) {
            self.view_bottom_pitch = self.cursor_pitch.saturating_sub(visible_rows - 1);
        }
        let tpc = self.ticks_per_cell();
        let visible_ticks = VISIBLE_COLS * tpc;
        if self.cursor_tick < self.view_start_tick {
            self.view_start_tick = self.snap_tick(self.cursor_tick);
        } else if self.cursor_tick >= self.view_start_tick + visible_ticks {
            let back = self.cursor_tick.saturating_sub(visible_ticks - tpc);
            self.view_start_tick = self.snap_tick(back);
        }
        proof {
            lemma_scrolled_shows_cursor(*old(self));
        }
    }

    /// Changes the duration of placed notes by `delta` ticks, never below one cell.
    pub fn adjust_default_duration(&mut self, delta: i32)
        requires
            old(self).default_duration <= i32::MAX,
            old(self).default_duration + delta <= i32::MAX,
        ensures
            *final(self) == (PianoRollPane {
                default_duration: if old(self).default_duration + delta < spec_ticks_per_cell(
                    old(self).zoom_level,
                ) {
                    spec_ticks_per_cell(old(self).zoom_level)
                } else {
                    (old(self).default_duration + delta) as u32
                },
                ..*old(self)
            }),
            old(self).in_range() ==> final(self).in_range(),
    {
        let tpc = self.ticks_per_cell() as i32;
        let sum = self.default_duration as i32 + delta;
        let new_dur = if sum < tpc {
            tpc
        } else {
            sum
        };
        self.default_duration = new_dur as u32;
    }

    /// Changes the velocity of placed notes by `delta`, kept within 1..=127.
    pub fn adjust_default_velocity(&mut self, delta: i8)
        ensures
            *final(self) == (PianoRollPane {
                default_velocity: if old(self).default_velocity + delta < 1 {
                    1u8
                } else if old(self).default_velocity + delta > 127 {
                    127u8
                } else {
                    (old(self).default_velocity + delta) as u8
                },
                ..*old(self)
            }),
            old(self).in_range() ==> final(self).in_range(),
    {
        let v = self.default_velocity as i16 + delta as i16;
        let clamped: i16 = if v < 1 {
            1
        } else if v > 127 {
            127
        } else {
            v
        };
        self.default_velocity = clamped as u8;
    }

    /// Moves to another track by `delta`, kept within the `track_count` tracks;
    /// nothing changes when there are no tracks.
    pub fn change_track(&mut self, delta: i8, track_count: usize)
        requires
            track_count <= i32::MAX,
            old(self).current_track <= i32::MAX,
            old(self).current_track + delta <= i32::MAX,
        ensures
            track_count == 0 ==> *final(self) == *old(self),
            track_count > 0 ==> *final(self) == (PianoRollPane {
                current_track: if old(self).current_track + delta < 0 {
                    0usize
                } else if old(self).current_track + delta > track_count - 1 {
                    (track_count - 1) as usize
                } else {
                    (old(self).current_track + delta) as usize
                },
                ..*old(self)
            }),
            old(self).in_range() ==> final(self).in_range(),
    {
        if track_count == 0 {
            return;
        }
        let idx = self.current_track as i32 + delta as i32;
        let max = track_count as i32 - 1;
        let clamped = if idx < 0 {
            0
        } else if idx > max {
            max
        } else {
            idx
        };
        self.current_track = clamped as usize;
    }

    /// Puts the cursor 16 bars in and scrolls to it.
    pub fn jump_to_end(&mut self)
        requires
            (PianoRollPane { cursor_tick: END_TICK, ..*old(self) }).can_scroll(),
        ensures
            *final(self) == (PianoRollPane { cursor_tick: END_TICK, ..*old(self) }).scrolled(),
            final(self).cursor_visible(),
            old(self).in_range() ==> final(self).in_range(),
    {
        self.cursor_tick = END_TICK;
        self.scroll_to_cursor();
    }

    /// Moves the view so that the octave starting at `octave`'s C sits in the middle,
    /// and puts the cursor on that C (C4 is pitch 60).
    pub fn center_view_on_octave(&mut self, octave: i8)
        ensures
            *final(self) == (PianoRollPane {
                view_bottom_pitch: sat_sub_u8(octave_base_pitch(octave), 12),
                cursor_pitch: octave_base_pitch(octave),
                ..*old(self)
            }),
            old(self).in_range() ==> final(self).in_range(),
    {
        let raw = (octave as i16 + 1) * 12;
        let base: i16 = if raw < 0 {
            0
        } else if raw > 127 {
            127
        } else {
            raw
        };
        let base = base as u8;
        self.view_bottom_pitch = base.saturating_sub(VISIBLE_ROWS / 2);
        self.cursor_pitch = base;
    }
}

/// The pitch of the C that starts `octave`, kept within 0..=127.
pub open spec fn octave_base_pitch(octave: i8) -> u8 {
    let raw = (octave + 1) * 12;
    if raw < 0 {
        0
    } else if raw > 127 {
        127
    } else {
        raw as u8
    }
}

/// Proof that scrolling always leaves the cursor inside the view.
pub proof fn lemma_scrolled_shows_cursor(p: PianoRollPane)
    requires
        p.can_scroll(),
    ensures
        p.scrolled().cursor_visible(),
{
    let tpc = spec_ticks_per_cell(p.zoom_level);
    let t = p.cursor_tick;
    vstd::arithmetic::div_mod::lemma_fundamental_div_mod(t as int, tpc as int);
    let back = sat_sub_u32(t, (VISIBLE_COLS * tpc - tpc) as u32);
    vstd::arithmetic::div_mod::lemma_fundamental_div_mod(back as int, tpc as int);
}

/// Placing or removing a note acts at the cursor: it asks for a note at the
/// cursor's pitch and tick, with the pane's default duration and velocity, on
/// the current track, and leaves the pane as it is. Loop points are set at the
/// cursor's tick.
pub proof fn lemma_notes_placed_at_cursor(p: PianoRollPane, instrument: u32, exporting: bool)
    ensures
        p.emits(PianoRollCommand::ToggleNote, instrument, exporting) == Action::PianoRoll(
            PianoRollAction::ToggleNote {
                pitch: p.cursor_pitch,
                tick: p.cursor_tick,
                duration: p.default_duration,
                velocity: p.default_velocity,
                track: p.current_track,
            },
        ),
        p.after(PianoRollCommand::ToggleNote) == p,
        p.emits(PianoRollCommand::LoopStart, instrument, exporting) == Action::PianoRoll(
            PianoRollAction::SetLoopStart(p.cursor_tick),
        ),
        p.emits(PianoRollCommand::LoopEnd, instrument, exporting) == Action::PianoRoll(
            PianoRollAction::SetLoopEnd(p.cursor_tick),
        ),
{
}

/// The cursor keys move the cursor one grid cell in time (not below tick 0)
/// or one semitone in pitch (not past 0 or 127), home goes to tick 0 and end to
/// the end tick; the note defaults and the track stay, no request goes out,
/// and a cursor that moved is visible afterwards.
pub proof fn lemma_cursor_moves(p: PianoRollPane, cmd: PianoRollCommand, instrument: u32, exporting: bool)
    requires
        cmd is Up || cmd is Down || cmd is Right || cmd is Left || cmd is Home || cmd is End,
        p.can_apply(cmd),
    ensures
        ({
            let q = p.after(cmd);
            let tpc = spec_ticks_per_cell(p.zoom_level);
            &&& p.emits(cmd, instrument, exporting) == Action::NoOp
            &&& q.default_duration == p.default_duration
            &&& q.default_velocity == p.default_velocity
            &&& q.current_track == p.current_track
            &&& q.zoom_level == p.zoom_level
            &&& q.selection_anchor is None
            &&& match cmd {
                PianoRollCommand::Up => {
                    &&& q.cursor_tick == p.cursor_tick
                    &&& q.cursor_pitch == if p.cursor_pitch < 127 { p.cursor_pitch + 1 } else { p.cursor_pitch as int }
                },
                PianoRollCommand::Down => {
                    &&& q.cursor_tick == p.cursor_tick
                    &&& q.cursor_pitch == if p.cursor_pitch > 0 { p.cursor_pitch - 1 } else { 0 }
                },
                PianoRollCommand::Right => {
                    &&& q.cursor_pitch == p.cursor_pitch
                    &&& q.cursor_tick == p.cursor_tick + tpc
                    &&& q.cursor_visible()
                },
                PianoRollCommand::Left => {
                    &&& q.cursor_pitch == p.cursor_pitch
                    &&& q.cursor_tick == if p.cursor_tick >= tpc { p.cursor_tick - tpc } else { 0 }
                    &&& q.cursor_visible()
                },
                PianoRollCommand::Home => q.cursor_pitch == p.cursor_pitch && q.cursor_tick == 0
                    && q.view_start_tick == 0,
                _ => q.cursor_pitch == p.cursor_pitch && q.cursor_tick == END_TICK && q.cursor_visible(),
            }
        }),
{
    let tpc = spec_ticks_per_cell(p.zoom_level);
    match cmd {
        PianoRollCommand::Right => lemma_scrolled_shows_cursor(
            PianoRollPane { cursor_tick: p.stepped_tick(true), selection_anchor: None, ..p },
        ),
        PianoRollCommand::Left => lemma_scrolled_shows_cursor(
            PianoRollPane { cursor_tick: p.stepped_tick(false), selection_anchor: None, ..p },
        ),
        PianoRollCommand::End => lemma_scrolled_shows_cursor(
            PianoRollPane { cursor_tick: END_TICK, selection_anchor: None, ..p },
        ),
        PianoRollCommand::Up => if p.cursor_pitch < 127 {
            assert(p.after(cmd) == p.moved_to((p.cursor_pitch + 1) as u8, p.cursor_tick, None));
        },
        PianoRollCommand::Down => if p.cursor_pitch > 0 {
            assert(p.after(cmd) == p.moved_to((p.cursor_pitch - 1) as u8, p.cursor_tick, None));
        },
        _ => {},
    }
}

/// Growing or shrinking the note length changes it by one grid cell and never
/// takes it below one cell; raising or lowering the velocity changes it by 10
/// within 1..=127. Nothing else of the pane changes.
pub proof fn lemma_note_defaults(p: PianoRollPane, cmd: PianoRollCommand)
    requires
        cmd is GrowDuration || cmd is ShrinkDuration || cmd is VelUp || cmd is VelDown,
        p.can_apply(cmd),
    ensures
        ({
            let q = p.after(cmd);
            let tpc = spec_ticks_per_cell(p.zoom_level);
            &&& q.cursor_pitch == p.cursor_pitch && q.cursor_tick == p.cursor_tick
            &&& q.view_start_tick == p.view_start_tick && q.view_bottom_pitch == p.view_bottom_pitch
            &&& q.zoom_level == p.zoom_level && q.current_track == p.current_track
            &&& match cmd {
                PianoRollCommand::GrowDuration => q.default_velocity == p.default_velocity
                    && q.default_duration == p.default_duration + tpc,
                PianoRollCommand::ShrinkDuration => q.default_velocity == p.default_velocity
                    && q.default_duration == if p.default_duration < 2 * tpc { tpc as int } else { p.default_duration - tpc },
                PianoRollCommand::VelUp => q.default_duration == p.default_duration
                    && q.default_velocity == if p.default_velocity + 10 > 127 { 127 } else { p.default_velocity + 10 },
                _ => q.default_duration == p.default_duration
                    && q.default_velocity == if p.default_velocity < 11 { 1 } else if p.default_velocity - 10 > 127 { 127 } else { p.default_velocity - 10 },
            }
        }),
{
}

/// Zooming in or out moves one zoom level (1 to 5), puts the cursor on the
/// start of the grid cell that holds it at the new level, and keeps it visible;
/// the cursor's pitch stays.
pub proof fn lemma_zoom_snaps_cursor(p: PianoRollPane, cmd: PianoRollCommand)
    requires
        cmd is ZoomIn || cmd is ZoomOut,
        p.can_apply(cmd),
        cmd is ZoomIn ==> p.zoom_level > 1,
        cmd is ZoomOut ==> p.zoom_level < 5,
    ensures
        ({
            let q = p.after(cmd);
            let tpc = spec_ticks_per_cell(q.zoom_level);
            &&& q.zoom_level == if cmd is ZoomIn { p.zoom_level - 1 } else { p.zoom_level + 1 }
            &&& q.cursor_pitch == p.cursor_pitch
            &&& q.cursor_tick % tpc == 0
            &&& q.cursor_tick <= p.cursor_tick < q.cursor_tick + tpc
            &&& q.cursor_visible()
        }),
{
    let z = if cmd is ZoomIn { (p.zoom_level - 1) as u8 } else { (p.zoom_level + 1) as u8 };
    let tpc = spec_ticks_per_cell(z);
    vstd::arithmetic::div_mod::lemma_fundamental_div_mod(p.cursor_tick as int, tpc as int);
    vstd::arithmetic::div_mod::lemma_mod_multiples_basic(p.cursor_tick as int / tpc as int, tpc as int);
    lemma_scrolled_shows_cursor(
        PianoRollPane { zoom_level: z, cursor_tick: snap(p.cursor_tick, tpc), ..p },
    );
}

/// The instrument of track `track` in the track order, or 0 when there is no such track.
pub open spec fn track_instrument(order: Seq<u32>, track: usize) -> u32 {
    if track < order.len() {
        order[track as int]
    } else {
        0
    }
}

impl PianoRollPane {
    /// The pane with the cursor moved to (`pitch`, `tick`), the selection anchor set to
    /// `anchor`, and the view scrolled to show the cursor.
    pub open spec fn moved_to(self, pitch: u8, tick: u32, anchor: Option<(u32, u8)>) -> Self {
        PianoRollPane { cursor_pitch: pitch, cursor_tick: tick, selection_anchor: anchor, ..self }.scrolled()
    }

    /// The selection anchor after a shift-move: kept if set, else the cursor position.
    pub open spec fn anchored(self) -> Option<(u32, u8)> {
        if self.selection_anchor is None {
            Some((self.cursor_tick, self.cursor_pitch))
        } else {
            self.selection_anchor
        }
    }

    /// The pane after a vertical step: one pitch up or down if that stays in 0..=127.
    pub open spec fn stepped_pitch(self, up: bool, anchor: Option<(u32, u8)>) -> Self {
        if up {
            if self.cursor_pitch < 127 {
                self.moved_to((self.cursor_pitch + 1) as u8, self.cursor_tick, anchor)
            } else {
                PianoRollPane { selection_anchor: anchor, ..self }
            }
        } else {
            if self.cursor_pitch > 0 {
                self.moved_to((self.cursor_pitch - 1) as u8, self.cursor_tick, anchor)
            } else {
                PianoRollPane { selection_anchor: anchor, ..self }
            }
        }
    }

    /// The tick one cell to the right or left of the cursor (not below 0).
    pub open spec fn stepped_tick(self, right: bool) -> u32 {
        let tpc = spec_ticks_per_cell(self.zoom_level);
        if right {
            (self.cursor_tick + tpc) as u32
        } else {
            sat_sub_u32(self.cursor_tick, tpc)
        }
    }

    /// The pane at zoom level `zoom`, with the cursor snapped to its grid and the view
    /// scrolled to show it.
    pub open spec fn zoomed(self, zoom: u8) -> Self {
        let z = PianoRollPane { zoom_level: zoom, ..self };
        PianoRollPane { cursor_tick: snap(self.cursor_tick, spec_ticks_per_cell(zoom)), ..z }.scrolled()
    }

    /// The default duration after changing it by `delta` (never below one cell).
    pub open spec fn duration_after(self, delta: int) -> u32 {
        let tpc = spec_ticks_per_cell(self.zoom_level);
        if self.default_duration + delta < tpc {
            tpc
        } else {
            (self.default_duration + delta) as u32
        }
    }

    /// The default velocity after changing it by `delta` (kept within 1..=127).
    pub open spec fn velocity_after(self, delta: int) -> u8 {
        if self.default_velocity + delta < 1 {
            1
        } else if self.default_velocity + delta > 127 {
            127
        } else {
            (self.default_velocity + delta) as u8
        }
    }

    /// Whether `cmd` can be carried out without a tick counter overflowing.
    pub open spec fn can_apply(self, cmd: PianoRollCommand) -> bool {
        let tpc = spec_ticks_per_cell(self.zoom_level);
        match cmd {
            PianoRollCommand::Up | PianoRollCommand::SelectUp => self.cursor_pitch < 127
                ==> PianoRollPane { cursor_pitch: (self.cursor_pitch + 1) as u8, ..self }.can_scroll(),
            PianoRollCommand::Down | PianoRollCommand::SelectDown => self.cursor_pitch > 0
                ==> PianoRollPane { cursor_pitch: (self.cursor_pitch - 1) as u8, ..self }.can_scroll(),
            PianoRollCommand::Right | PianoRollCommand::SelectRight => self.cursor_tick + tpc
                <= u32::MAX && PianoRollPane { cursor_tick: self.stepped_tick(true), ..self }.can_scroll(),
            PianoRollCommand::Left | PianoRollCommand::SelectLeft => PianoRollPane {
                cursor_tick: self.stepped_tick(false),
                ..self
            }.can_scroll(),
            PianoRollCommand::OctaveUp => PianoRollPane {
                cursor_pitch: if self.cursor_pitch + 12 > 127 { 127u8 } else { (self.cursor_pitch + 12) as u8 },
                ..self
            }.can_scroll(),
            PianoRollCommand::OctaveDown => PianoRollPane {
                cursor_pitch: if self.cursor_pitch < 12 { 0u8 } else { (self.cursor_pitch - 12) as u8 },
                ..self
            }.can_scroll(),
            PianoRollCommand::End => PianoRollPane { cursor_tick: END_TICK, ..self }.can_scroll(),
            PianoRollCommand::ZoomIn => self.zoom_level > 1 ==> {
                let z = (self.zoom_level - 1) as u8;
                PianoRollPane {
                    zoom_level: z,
                    cursor_tick: snap(self.cursor_tick, spec_ticks_per_cell(z)),
                    ..self
                }.can_scroll()
            },
            PianoRollCommand::ZoomOut => self.zoom_level < 5 ==> {
                let z = (self.zoom_level + 1) as u8;
                PianoRollPane {
                    zoom_level: z,
                    cursor_tick: snap(self.cursor_tick, spec_ticks_per_cell(z)),
                    ..self
                }.can_scroll()
            },
            PianoRollCommand::GrowDuration => self.default_duration + tpc <= i32::MAX,
            PianoRollCommand::ShrinkDuration => self.default_duration <= i32::MAX,
            PianoRollCommand::AutomationLaneNext => self.automation_overlay_visible
                ==> self.automation_overlay_lane_idx != Some(usize::MAX),
            _ => true,
        }
    }

    /// The pane after `cmd`.
    pub open spec fn after(self, cmd: PianoRollCommand) -> Self {
        let tpc = spec_ticks_per_cell(self.zoom_level);
        match cmd {
            PianoRollCommand::Up => self.stepped_pitch(true, None),
            PianoRollCommand::Down => self.stepped_pitch(false, None),
            PianoRollCommand::SelectUp => self.stepped_pitch(true, self.anchored()),
            PianoRollCommand::SelectDown => self.stepped_pitch(false, self.anchored()),
            PianoRollCommand::Right => self.moved_to(self.cursor_pitch, self.stepped_tick(true), None),
            PianoRollCommand::Left => self.moved_to(self.cursor_pitch, self.stepped_tick(false), None),
            PianoRollCommand::SelectRight => self.moved_to(
                self.cursor_pitch,
                self.stepped_tick(true),
                self.anchored(),
            ),
            PianoRollCommand::SelectLeft => self.moved_to(
                self.cursor_pitch,
                self.stepped_tick(false),
                self.anchored(),
            ),
            PianoRollCommand::GrowDuration => PianoRollPane {
                default_duration: self.duration_after(tpc as int),
                ..self
            },
            PianoRollCommand::ShrinkDuration => PianoRollPane {
                default_duration: self.duration_after(-(tpc as int)),
                ..self
            },
            PianoRollCommand::VelUp => PianoRollPane { default_velocity: self.velocity_after(10), ..self },
            PianoRollCommand::VelDown => PianoRollPane {
                default_velocity: self.velocity_after(-10),
                ..self
            },
            PianoRollCommand::OctaveUp => self.moved_to(
                if self.cursor_pitch + 12 > 127 { 127u8 } else { (self.cursor_pitch + 12) as u8 },
                self.cursor_tick,
                None,
            ),
            PianoRollCommand::OctaveDown => self.moved_to(
                if self.cursor_pitch < 12 { 0u8 } else { (self.cursor_pitch - 12) as u8 },
                self.cursor_tick,
                None,
            ),
            PianoRollCommand::Home => PianoRollPane {
                selection_anchor: None,
                cursor_tick: 0,
                view_start_tick: 0,
                ..self
            },
            PianoRollCommand::End => self.moved_to(self.cursor_pitch, END_TICK, None),
            PianoRollCommand::ZoomIn => if self.zoom_level > 1 {
                self.zoomed((self.zoom_level - 1) as u8)
            } else {
                self
            },
            PianoRollCommand::ZoomOut => if self.zoom_level < 5 {
                self.zoomed((self.zoom_level + 1) as u8)
            } else {
                self
            },
            PianoRollCommand::ToggleAutomation => PianoRollPane {
                automation_overlay_visible: !self.automation_overlay_visible,
                ..self
            },
            PianoRollCommand::AutomationLanePrev => if self.automation_overlay_visible
                && self.automation_overlay_lane_idx is Some && self.automation_overlay_lane_idx->0 > 0 {
                PianoRollPane {
                    automation_overlay_lane_idx: Some((self.automation_overlay_lane_idx->0 - 1) as usize),
                    ..self
                }
            } else {
                self
            },
            PianoRollCommand::AutomationLaneNext => if self.automation_overlay_visible {
                PianoRollPane {
                    automation_overlay_lane_idx: Some(
                        match self.automation_overlay_lane_idx {
                            Some(i) => (i + 1) as usize,
                            None => 1usize,
                        },
                    ),
                    ..self
                }
            } else {
                self
            },
            _ => self,
        }
    }

    /// What `cmd` asks the application to do, given the instrument of the current
    /// track and whether an export is running.
    pub open spec fn emits(self, cmd: PianoRollCommand, instrument: u32, exporting: bool) -> Action {
        match cmd {
            PianoRollCommand::ToggleNote => Action::PianoRoll(
                PianoRollAction::ToggleNote {
                    pitch: self.cursor_pitch,
                    tick: self.cursor_tick,
                    duration: self.default_duration,
                    velocity: self.default_velocity,
                    track: self.current_track,
                },
            ),
            PianoRollCommand::PlayStop => Action::PianoRoll(PianoRollAction::PlayStop),
            PianoRollCommand::PlayStopRecord => Action::PianoRoll(PianoRollAction::PlayStopRecord),
            PianoRollCommand::Loop => Action::PianoRoll(PianoRollAction::ToggleLoop),
            PianoRollCommand::LoopStart => Action::PianoRoll(PianoRollAction::SetLoopStart(self.cursor_tick)),
            PianoRollCommand::LoopEnd => Action::PianoRoll(PianoRollAction::SetLoopEnd(self.cursor_tick)),
            PianoRollCommand::TimeSig => Action::PianoRoll(PianoRollAction::CycleTimeSig),
            PianoRollCommand::TogglePoly => Action::PianoRoll(
                PianoRollAction::TogglePolyMode(self.current_track),
            ),
            PianoRollCommand::RenderToWav => Action::PianoRoll(PianoRollAction::RenderToWav(instrument)),
            PianoRollCommand::BounceToWav => if exporting {
                Action::PianoRoll(PianoRollAction::CancelExport)
            } else {
                Action::PianoRoll(PianoRollAction::BounceToWav)
            },
            PianoRollCommand::ExportStems => if exporting {
                Action::PianoRoll(PianoRollAction::CancelExport)
            } else {
                Action::PianoRoll(PianoRollAction::ExportStems)
            },
            _ => Action::NoOp,
        }
    }

    /// The instrument of the current track in `track_order`, or 0 when there is none.
    pub fn current_instrument_id(&self, track_order: &Vec<u32>) -> (r: u32)
        ensures
            r == track_instrument(track_order@, self.current_track),
    {
        if self.current_track < track_order.len() {
            track_order[self.current_track]
        } else {
            0
        }
    }

    fn move_cursor(&mut self, pitch: u8, tick: u32, anchor: Option<(u32, u8)>)
        requires
            (PianoRollPane { cursor_pitch: pitch, cursor_tick: tick, selection_anchor: anchor, ..*old(self) }).can_scroll(),
        ensures
            *final(self) == old(self).moved_to(pitch, tick, anchor),
    {
        self.cursor_pitch = pitch;
        self.cursor_tick = tick;
        self.selection_anchor = anchor;
        self.scroll_to_cursor();
    }

    fn anchor_for_select(&self) -> (r: Option<(u32, u8)>)
        ensures
            r == self.anchored(),
    {
        if self.selection_anchor.is_none() {
            Some((self.cursor_tick, self.cursor_pitch))
        } else {
            self.selection_anchor
        }
    }

    fn step_pitch(&mut self, up: bool, anchor: Option<(u32, u8)>)
        requires
            up ==> (old(self).cursor_pitch < 127 ==> (PianoRollPane {
                cursor_pitch: (old(self).cursor_pitch + 1) as u8,
                ..*old(self)
            }).can_scroll()),
            !up ==> (old(self).cursor_pitch > 0 ==> (PianoRollPane {
                cursor_pitch: (old(self).cursor_pitch - 1) as u8,
                ..*old(self)
            }).can_scroll()),
        ensures
            *final(self) == old(self).stepped_pitch(up, anchor),
    {
        if up {
            if self.cursor_pitch < 127 {
                let p = self.cursor_pitch + 1;
                let t = self.cursor_tick;
                self.move_cursor(p, t, anchor);
            } else {
                self.selection_anchor = anchor;
            }
        } else {
            if self.cursor_pitch > 0 {
                let p = self.cursor_pitch - 1;
                let t = self.cursor_tick;
                self.move_cursor(p, t, anchor);
            } else {
                self.selection_anchor = anchor;
            }
        }
    }

    fn step_tick(&self, right: bool) -> (r: u32)
        requires
            right ==> self.cursor_tick + spec_ticks_per_cell(self.zoom_level) <= u32::MAX,
        ensures
            r == self.stepped_tick(right),
    {
        let tpc = self.ticks_per_cell();
        if right {
            self.cursor_tick + tpc
        } else {
            self.cursor_tick.saturating_sub(tpc)
        }
    }

    fn zoom_to(&mut self, zoom: u8)
        requires
            (PianoRollPane {
                zoom_level: zoom,
                cursor_tick: snap(old(self).cursor_tick, spec_ticks_per_cell(zoom)),
                ..*old(self)
            }).can_scroll(),
        ensures
            *final(self) == old(self).zoomed(zoom),
    {
        self.zoom_level = zoom;
        let t = self.snap_tick(self.cursor_tick);
        self.cursor_tick = t;
        self.scroll_to_cursor();
    }

    /// Handles one action string: moves the cursor, scrolls, zooms or changes
    /// note defaults, and says what the application should do.
    /// `track_order` lists the instrument of each track; `exporting` tells whether an
    /// export is running.
    pub fn handle_action(&mut self, action: &str, track_order: &Vec<u32>, exporting: bool) -> (r: Action)
        requires
            old(self).can_apply(spec_command_of(action@)),
        ensures
            *final(self) == old(self).after(spec_command_of(action@)),
            r == old(self).emits(
                spec_command_of(action@),
                track_instrument(track_order@, old(self).current_track),
                exporting,
            ),
            old(self).in_range() ==> final(self).in_range(),
    {
        proof {
            if old(self).in_range() {
                lemma_after_in_range(*old(self), spec_command_of(action@));
            }
        }
        let cmd = command_of(action);
        match cmd {
            PianoRollCommand::Up => {
                self.step_pitch(true, None);
                Action::NoOp
            },
            PianoRollCommand::Down => {
                self.step_pitch(false, None);
                Action::NoOp
            },
            PianoRollCommand::SelectUp => {
                let a = self.anchor_for_select();
                self.step_pitch(true, a);
                Action::NoOp
            },
            PianoRollCommand::SelectDown => {
                let a = self.anchor_for_select();
                self.step_pitch(false, a);
                Action::NoOp
            },
            PianoRollCommand::Right => {
                let t = self.step_tick(true);
                let p = self.cursor_pitch;
                self.move_cursor(p, t, None);
                Action::NoOp
            },
            PianoRollCommand::Left => {
                let t = self.step_tick(false);
                let p = self.cursor_pitch;
                self.move_cursor(p, t, None);
                Action::NoOp
            },
            PianoRollCommand::SelectRight => {
                let a = self.anchor_for_select();
                let t = self.step_tick(true);
                let p = self.cursor_pitch;
                self.move_cursor(p, t, a);
                Action::NoOp
            },
            PianoRollCommand::SelectLeft => {
                let a = self.anchor_for_select();
                let t = self.step_tick(false);
                let p = self.cursor_pitch;
                self.move_cursor(p, t, a);
                Action::NoOp
            },
            PianoRollCommand::ToggleNote => Action::PianoRoll(
                PianoRollAction::ToggleNote {
                    pitch: self.cursor_pitch,
                    tick: self.cursor_tick,
                    duration: self.default_duration,
                    velocity: self.default_velocity,
                    track: self.current_track,
                },
            ),
            PianoRollCommand::GrowDuration => {
                let tpc = self.ticks_per_cell() as i32;
                self.adjust_default_duration(tpc);
                Action::NoOp
            },
            PianoRollCommand::ShrinkDuration => {
                let tpc = self.ticks_per_cell() as i32;
                self.adjust_default_duration(-tpc);
                Action::NoOp
            },
            PianoRollCommand::VelUp => {
                self.adjust_default_velocity(10);
                Action::NoOp
            },
            PianoRollCommand::VelDown => {
                self.adjust_default_velocity(-10);
                Action::NoOp
            },
            PianoRollCommand::PlayStop => Action::PianoRoll(PianoRollAction::PlayStop),
            PianoRollCommand::PlayStopRecord => Action::PianoRoll(PianoRollAction::PlayStopRecord),
            PianoRollCommand::Loop => Action::PianoRoll(PianoRollAction::ToggleLoop),
            PianoRollCommand::LoopStart => Action::PianoRoll(
                PianoRollAction::SetLoopStart(self.cursor_tick),
            ),
            PianoRollCommand::LoopEnd => Action::PianoRoll(PianoRollAction::SetLoopEnd(self.cursor_tick)),
            PianoRollCommand::OctaveUp => {
                let p = if self.cursor_pitch > 115 {
                    127
                } else {
                    self.cursor_pitch + 12
                };
                let t = self.cursor_tick;
                self.move_cursor(p, t, None);
                Action::NoOp
            },
            PianoRollCommand::OctaveDown => {
                let p = if self.cursor_pitch < 12 {
                    0
                } else {
                    self.cursor_pitch - 12
                };
                let t = self.cursor_tick;
                self.move_cursor(p, t, None);
                Action::NoOp
            },
            PianoRollCommand::Home => {
                self.selection_anchor = None;
                self.cursor_tick = 0;
                self.view_start_tick = 0;
                Action::NoOp
            },
            PianoRollCommand::End => {
                self.selection_anchor = None;
                self.jump_to_end();
                Action::NoOp
            },
            PianoRollCommand::ZoomIn => {
                if self.zoom_level > 1 {
                    let z = self.zoom_level - 1;
                    self.zoom_to(z);
                }
                Action::NoOp
            },
            PianoRollCommand::ZoomOut => {
                if self.zoom_level < 5 {
                    let z = self.zoom_level + 1;
                    self.zoom_to(z);
                }
                Action::NoOp
            },
            PianoRollCommand::TimeSig => Action::PianoRoll(PianoRollAction::CycleTimeSig),
            PianoRollCommand::TogglePoly => Action::PianoRoll(
                PianoRollAction::TogglePolyMode(self.current_track),
            ),
            PianoRollCommand::RenderToWav => {
                let id = self.current_instrument_id(track_order);
                Action::PianoRoll(PianoRollAction::RenderToWav(id))
            },
            PianoRollCommand::BounceToWav => {
                if exporting {
                    Action::PianoRoll(PianoRollAction::CancelExport)
                } else {
                    Action::PianoRoll(PianoRollAction::BounceToWav)
                }
            },
            PianoRollCommand::ExportStems => {
                if exporting {
                    Action::PianoRoll(PianoRollAction::CancelExport)
                } else {
                    Action::PianoRoll(PianoRollAction::ExportStems)
                }
            },
            PianoRollCommand::ToggleAutomation => {
                self.automation_overlay_visible = !self.automation_overlay_visible;
                Action::NoOp
            },
            PianoRollCommand::AutomationLanePrev => {
                if self.automation_overlay_visible {
                    match self.automation_overlay_lane_idx {
                        Some(idx) => {
                            if idx > 0 {
                                self.automation_overlay_lane_idx = Some(idx - 1);
                            }
                        },
                        None => {},
                    }
                }
                Action::NoOp
            },
            PianoRollCommand::AutomationLaneNext => {
                if self.automation_overlay_visible {
                    let next = match self.automation_overlay_lane_idx {
                        Some(idx) => idx + 1,
                        None => 1,
                    };
                    self.automation_overlay_lane_idx = Some(next);
                }
                Action::NoOp
            },
            PianoRollCommand::Unknown => Action::NoOp,
        }
    }
}


/// The name of a pitch class (0 = C … 11 = B), sharps for black keys.
pub open spec fn pitch_class_name(pc: int) -> Seq<char> {
    if pc == 0 {
        "C"@
    } else if pc == 1 {
        "C#"@
    } else if pc == 2 {
        "D"@
    } else if pc == 3 {
        "D#"@
    } else if pc == 4 {
        "E"@
    } else if pc == 5 {
        "F"@
    } else if pc == 6 {
        "F#"@
    } else if pc == 7 {
        "G"@
    } else if pc == 8 {
        "G#"@
    } else if pc == 9 {
        "A"@
    } else if pc == 10 {
        "A#"@
    } else {
        "B"@
    }
}

/// The name of a MIDI pitch: its pitch class and octave, C4 being pitch 60 and
/// pitch 0 being C-1.
pub open spec fn spec_note_name(pitch: u8) -> Seq<char> {
    pitch_class_name((pitch % 12) as int) + signed_decimal(pitch / 12 - 1)
}

/// The name of a MIDI pitch, such as "C4" for 60 or "A#-1" for 10.
pub fn note_name(pitch: u8) -> (r: String)
    ensures
        r@ == spec_note_name(pitch),
{
    let pc = pitch % 12;
    let letter = if pc == 0 {
        "C"
    } else if pc == 1 {
        "C#"
    } else if pc == 2 {
        "D"
    } else if pc == 3 {
        "D#"
    } else if pc == 4 {
        "E"
    } else if pc == 5 {
        "F"
    } else if pc == 6 {
        "F#"
    } else if pc == 7 {
        "G"
    } else if pc == 8 {
        "G#"
    } else if pc == 9 {
        "A"
    } else if pc == 10 {
        "A#"
    } else {
        "B"
    };
    let mut s = String::from_str(letter);
    let octave = (pitch / 12) as i64 - 1;
    push_signed_decimal(&mut s, octave);
    s
}

/// Whether a pitch falls on a black piano key.
pub open spec fn spec_is_black_key(pitch: u8) -> bool {
    let pc = pitch % 12;
    pc == 1 || pc == 3 || pc == 6 || pc == 8 || pc == 10
}

/// Whether a pitch falls on a black piano key (C#, D#, F#, G#, A#).
pub fn is_black_key(pitch: u8) -> (r: bool)
    ensures
        r == spec_is_black_key(pitch),
{
    let pc = pitch % 12;
    pc == 1 || pc == 3 || pc == 6 || pc == 8 || pc == 10
}

/// A note of a piano-roll track.
#[derive(Debug, Clone, Copy, PartialEq, Eq)]
pub struct Note {
    pub pitch: u8,
    pub tick: u32,
    pub duration: u32,
    pub velocity: u8,
}

/// What one cell of the grid shows, from the most to the least important.
#[derive(Debug, Clone, Copy, PartialEq, Eq)]
pub enum GridCell {
    /// The cursor over a note.
    CursorOnNote,
    /// The cursor over an empty cell.
    Cursor,
    /// A note inside the selection.
    SelectedNote,
    /// An empty cell inside the selection.
    Selected,
    /// The cell where a note starts.
    NoteStart,
    /// A cell that a note covers after its start.
    NoteBody,
    /// The playhead.
    Playhead,
    /// The first cell of a bar.
    BarLine,
    /// The first cell of a beat.
    BeatLine,
    /// An empty cell on a black-key row.
    BlackKey,
    /// An empty cell.
    Blank,
}

/// Some note of `notes` at `pitch` covers `tick`.
pub open spec fn note_covers(notes: Seq<Note>, pitch: u8, tick: u32) -> bool {
    exists|i: int|
        0 <= i < notes.len() && #[trigger] notes[i].pitch == pitch && notes[i].tick <= tick
            && tick < notes[i].tick + notes[i].duration
}

/// Some note of `notes` at `pitch` starts at `tick`.
pub open spec fn note_starts(notes: Seq<Note>, pitch: u8, tick: u32) -> bool {
    exists|i: int| 0 <= i < notes.len() && #[trigger] notes[i].pitch == pitch && notes[i].tick == tick
}

/// No note's end overflows a tick counter.
pub open spec fn notes_fit(notes: Seq<Note>) -> bool {
    forall|i: int| 0 <= i < notes.len() ==> #[trigger] notes[i].tick + notes[i].duration <= u32::MAX
}

impl PianoRollPane {
    /// The pitch shown on grid row `row` (row 0 on top) of a grid `grid_height` rows high.
    pub open spec fn spec_row_pitch(self, row: u16, grid_height: u16) -> u8 {
        sat_add_u8(self.view_bottom_pitch, (grid_height - 1 - row) as u8)
    }

    /// The pitch shown on grid row `row` (row 0 on top) of a grid `grid_height` rows high.
    pub fn row_pitch(&self, row: u16, grid_height: u16) -> (r: u8)
        requires
            row < grid_height,
        ensures
            r == self.spec_row_pitch(row, grid_height),
    {
        let offset = (grid_height - 1 - row) as u8;
        self.view_bottom_pitch.saturating_add(offset)
    }

    /// The first tick of grid column `col`.
    pub fn column_tick(&self, col: u16) -> (r: u32)
        requires
            self.view_start_tick + col * spec_ticks_per_cell(self.zoom_level) <= u32::MAX,
        ensures
            r == self.view_start_tick + col * spec_ticks_per_cell(self.zoom_level),
    {
        let tpc = self.ticks_per_cell();
        proof {
            vstd::arithmetic::mul::lemma_mul_upper_bound(col as int, u16::MAX as int, tpc as int, 960);
        }
        self.view_start_tick + col as u32 * tpc
    }

    /// Whether (`pitch`, `tick`) lies in the rectangle spanned by the selection
    /// anchor and the cursor, both corners' cells included.
    pub open spec fn in_selection(self, pitch: u8, tick: u32) -> bool {
        match self.selection_anchor {
            None => false,
            Some((anchor_tick, anchor_pitch)) => {
                let tpc = spec_ticks_per_cell(self.zoom_level);
                let t0: int = if anchor_tick <= self.cursor_tick { anchor_tick as int } else { self.cursor_tick as int };
                let t1: int = if anchor_tick <= self.cursor_tick { self.cursor_tick + tpc } else { anchor_tick + tpc };
                let p0: u8 = if anchor_pitch <= self.cursor_pitch { anchor_pitch } else { self.cursor_pitch };
                let p1: u8 = if anchor_pitch <= self.cursor_pitch { self.cursor_pitch } else { anchor_pitch };
                t0 <= tick < t1 && p0 <= pitch <= p1
            },
        }
    }

    /// Whether (`pitch`, `tick`) lies in the selection.
    pub fn is_selected(&self, pitch: u8, tick: u32) -> (r: bool)
        ensures
            r == self.in_selection(pitch, tick),
    {
        match self.selection_anchor {
            None => false,
            Some((anchor_tick, anchor_pitch)) => {
                let tpc = self.ticks_per_cell() as u64;
                let (t0, t1): (u64, u64) = if anchor_tick <= self.cursor_tick {
                    (anchor_tick as u64, self.cursor_tick as u64 + tpc)
                } else {
                    (self.cursor_tick as u64, anchor_tick as u64 + tpc)
                };
                let (p0, p1): (u8, u8) = if anchor_pitch <= self.cursor_pitch {
                    (anchor_pitch, self.cursor_pitch)
                } else {
                    (self.cursor_pitch, anchor_pitch)
                };
                t0 <= tick as u64 && (tick as u64) < t1 && p0 <= pitch && pitch <= p1
            },
        }
    }

    /// What the grid cell at (`pitch`, `tick`) shows for a track's `notes`, given
    /// whether the transport plays, where the playhead is, and the beat and bar lengths.
    pub open spec fn spec_grid_cell(
        self,
        pitch: u8,
        tick: u32,
        notes: Seq<Note>,
        playing: bool,
        playhead: u32,
        ticks_per_beat: u32,
        ticks_per_bar: u32,
    ) -> GridCell {
        let has_note = note_covers(notes, pitch, tick);
        let is_cursor = pitch == self.cursor_pitch && tick == self.cursor_tick;
        let is_playhead = playing && tick <= playhead && playhead < tick + spec_ticks_per_cell(
            self.zoom_level,
        );
        let selected = self.in_selection(pitch, tick);
        if is_cursor {
            if has_note {
                GridCell::CursorOnNote
            } else {
                GridCell::Cursor
            }
        } else if selected && has_note {
            GridCell::SelectedNote
        } else if selected {
            GridCell::Selected
        } else if has_note {
            if note_starts(notes, pitch, tick) {
                GridCell::NoteStart
            } else {
                GridCell::NoteBody
            }
        } else if is_playhead {
            GridCell::Playhead
        } else if tick % ticks_per_bar == 0 {
            GridCell::BarLine
        } else if tick % ticks_per_beat == 0 {
            GridCell::BeatLine
        } else if spec_is_black_key(pitch) {
            GridCell::BlackKey
        } else {
            GridCell::Blank
        }
    }

    /// What the grid cell at (`pitch`, `tick`) shows.
    pub fn grid_cell(
        &self,
        pitch: u8,
        tick: u32,
        notes: &Vec<Note>,
        playing: bool,
        playhead: u32,
        ticks_per_beat: u32,
        ticks_per_bar: u32,
    ) -> (r: GridCell)
        requires
            ticks_per_beat > 0,
            ticks_per_bar > 0,
            notes_fit(notes@),
        ensures
            r == self.spec_grid_cell(pitch, tick, notes@, playing, playhead, ticks_per_beat, ticks_per_bar),
    {
        let mut has_note = false;
        let mut starts = false;
        let mut i: usize = 0;
        while i < notes.len()
            invariant
                i <= notes@.len(),
                notes_fit(notes@),
                has_note == (exists|j: int|
                    0 <= j < i && #[trigger] notes@[j].pitch == pitch && notes@[j].tick <= tick
                        && tick < notes@[j].tick + notes@[j].duration),
                starts == (exists|j: int| 0 <= j < i && #[trigger] notes@[j].pitch == pitch && notes@[j].tick == tick),
            decreases notes@.len() - i,
        {
            let n = notes[i];
            assert(n.tick + n.duration <= u32::MAX) by {
                assert(notes@[i as int] == n);
            }
            if n.pitch == pitch && tick >= n.tick && tick < n.tick + n.duration {
                has_note = true;
            }
            if n.pitch == pitch && n.tick == tick {
                starts = true;
            }
            i = i + 1;
        }
        let is_cursor = pitch == self.cursor_pitch && tick == self.cursor_tick;
        let tpc = self.ticks_per_cell();
        let is_playhead = playing && tick <= playhead && (playhead as u64) < tick as u64 + tpc as u64;
        let selected = self.is_selected(pitch, tick);
        if is_cursor {
            if has_note {
                GridCell::CursorOnNote
            } else {
                GridCell::Cursor
            }
        } else if selected && has_note {
            GridCell::SelectedNote
        } else if selected {
            GridCell::Selected
        } else if has_note {
            if starts {
                GridCell::NoteStart
            } else {
                GridCell::NoteBody
            }
        } else if is_playhead {
            GridCell::Playhead
        } else if tick % ticks_per_bar == 0 {
            GridCell::BarLine
        } else if tick % ticks_per_beat == 0 {
            GridCell::BeatLine
        } else if is_black_key(pitch) {
            GridCell::BlackKey
        } else {
            GridCell::Blank
        }
    }
}

} // verus!

verus! {

/// Columns of the piano-key labels left of the grid.
pub const KEY_COL_WIDTH: u16 = 5;

/// The grid of the pane drawn in `area`: right of the key labels, below the two
/// header rows, above the two footer rows, inside the border.
pub open spec fn grid_rect(area: ScreenRect) -> ScreenRect {
    ScreenRect {
        x: (area.x + 5) as u16,
        y: (area.y + 2) as u16,
        width: if area.width >= 6 { (area.width - 6) as u16 } else { 0 },
        height: if area.height >= 5 { (area.height - 5) as u16 } else { 0 },
    }
}

/// The cell `(col, row)` lies in `r`.
pub open spec fn inside(r: ScreenRect, col: u16, row: u16) -> bool {
    r.x <= col < r.x + r.width && r.y <= row < r.y + r.height
}

impl PianoRollPane {
    /// The pitch of grid row `row` (counted from the grid's top) of a grid `height`
    /// rows high.
    pub open spec fn click_pitch(self, row: u16, height: u16) -> u8 {
        sat_add_u8(self.view_bottom_pitch, ((height - 1 - row) as u16) as u8)
    }

    /// A mouse click on the pane drawn in `area`. A left click on the grid moves
    /// the cursor there and toggles a note under it (dropping the selection); a
    /// left click on a key label moves the cursor to that pitch; a right click on
    /// the grid only moves the cursor.
    pub fn handle_click(&mut self, col: u16, row: u16, area: ScreenRect, right: bool) -> (r: Action)
        requires
            area.x + 5 + area.width <= u16::MAX,
            area.y + 2 + area.height <= u16::MAX,
            old(self).view_start_tick + u16::MAX * 960 <= u32::MAX,
        ensures
            ({
                let g = grid_rect(area);
                let o = *old(self);
                let on_grid = inside(g, col, row);
                let on_keys = area.x <= col < g.x && g.y <= row < g.y + g.height;
                let pitch = o.click_pitch((row - g.y) as u16, g.height);
                let tick = (o.view_start_tick + (col - g.x) * spec_ticks_per_cell(o.zoom_level)) as u32;
                let anchor = if right { o.selection_anchor } else { None };
                if on_grid && pitch <= 127 {
                    &&& *final(self) == (PianoRollPane { cursor_pitch: pitch, cursor_tick: tick, selection_anchor: anchor, ..o })
                    &&& r == if right {
                        Action::NoOp
                    } else {
                        Action::PianoRoll(PianoRollAction::ToggleNote {
                            pitch,
                            tick,
                            duration: o.default_duration,
                            velocity: o.default_velocity,
                            track: o.current_track,
                        })
                    }
                } else if !right && !on_grid && on_keys && pitch <= 127 {
                    *final(self) == (PianoRollPane { cursor_pitch: pitch, selection_anchor: None, ..o }) && r == Action::NoOp
                } else {
                    *final(self) == (PianoRollPane { selection_anchor: anchor, ..o }) && r == Action::NoOp
                }
            }),
            old(self).in_range() ==> final(self).in_range(),
    {
        let gx = area.x + KEY_COL_WIDTH;
        let gy = area.y + 2;
        let gw = area.width.saturating_sub(KEY_COL_WIDTH + 1);
        let gh = area.height.saturating_sub(5);
        if !right {
            self.selection_anchor = None;
        }
        let on_grid = col >= gx && col < gx + gw && row >= gy && row < gy + gh;
        if on_grid {
            let grid_col = col - gx;
            let grid_row = row - gy;
            let pitch = self.view_bottom_pitch.saturating_add((gh - 1 - grid_row) as u8);
            let tpc = self.ticks_per_cell();
            proof {
                vstd::arithmetic::mul::lemma_mul_upper_bound(grid_col as int, u16::MAX as int, tpc as int, 960);
            }
            let tick = self.view_start_tick + grid_col as u32 * tpc;
            if pitch <= 127 {
                self.cursor_pitch = pitch;
                self.cursor_tick = tick;
                if right {
                    return Action::NoOp;
                }
                return Action::PianoRoll(PianoRollAction::ToggleNote {
                    pitch,
                    tick,
                    duration: self.default_duration,
                    velocity: self.default_velocity,
                    track: self.current_track,
                });
            }
            return Action::NoOp;
        }
        if !right && col >= area.x && col < gx && row >= gy && row < gy + gh {
            let grid_row = row - gy;
            let pitch = self.view_bottom_pitch.saturating_add((gh - 1 - grid_row) as u8);
            if pitch <= 127 {
                self.cursor_pitch = pitch;
            }
        }
        Action::NoOp
    }

    /// The mouse wheel: with Shift it scrolls the view four cells left (up) or right
    /// (down), else three pitches up or down (not above pitch 127).
    pub fn handle_wheel(&mut self, up: bool, shift: bool)
        requires
            shift && !up ==> old(self).view_start_tick + 4 * spec_ticks_per_cell(old(self).zoom_level) <= u32::MAX,
        ensures
            ({
                let o = *old(self);
                let step = (4 * spec_ticks_per_cell(o.zoom_level)) as u32;
                *final(self) == if shift {
                    PianoRollPane {
                        view_start_tick: if up { sat_sub_u32(o.view_start_tick, step) } else { (o.view_start_tick + step) as u32 },
                        ..o
                    }
                } else {
                    PianoRollPane {
                        view_bottom_pitch: if up {
                            if sat_add_u8(o.view_bottom_pitch, 3) > 127 { 127u8 } else { sat_add_u8(o.view_bottom_pitch, 3) }
                        } else {
                            sat_sub_u8(o.view_bottom_pitch, 3)
                        },
                        ..o
                    }
                }
            }),
            old(self).in_range() ==> final(self).in_range(),
    {
        if shift {
            let step = self.ticks_per_cell() * 4;
            if up {
                self.view_start_tick = self.view_start_tick.saturating_sub(step);
            } else {
                self.view_start_tick = self.view_start_tick + step;
            }
        } else if up {
            let p = self.view_bottom_pitch.saturating_add(3);
            self.view_bottom_pitch = if p > 127 { 127 } else { p };
        } else {
            self.view_bottom_pitch = self.view_bottom_pitch.saturating_sub(3);
        }
    }
}

} // verus!

verus! {

impl PianoRollPane {
    /// The note settings are those of a MIDI note: the cursor on a pitch of
    /// 0..=127, a duration of at least the finest cell (60 ticks), and a
    /// velocity of 1..=127.
    pub open spec fn in_range(self) -> bool {
        &&& self.cursor_pitch <= 127
        &&& self.default_duration >= 60
        &&& 1 <= self.default_velocity <= 127
    }

    /// Whether the view can scroll to a cursor at `tick` at zoom level `zoom`.
    fn scrolls_at(&self, tick: u32, zoom: u8) -> (b: bool)
        ensures
            b == (PianoRollPane { cursor_tick: tick, zoom_level: zoom, ..*self }).can_scroll(),
    {
        let tpc: u64 = ticks_at_zoom(zoom) as u64;
        assert(tpc <= 960);
        let span: u64 = 60 * tpc;
        tick < self.view_start_tick || self.view_start_tick as u64 + span <= u32::MAX as u64
    }

    /// Whether the action string `action` can be handled: whether its command
    /// keeps the tick counters and the duration within their types.
    pub fn can_handle(&self, action: &str) -> (b: bool)
        ensures
            b == self.can_apply(spec_command_of(action@)),
    {
        let cmd = command_of(action);
        let tpc = self.ticks_per_cell();
        let z = self.zoom_level;
        let t = self.cursor_tick;
        match cmd {
            PianoRollCommand::Up | PianoRollCommand::SelectUp => self.cursor_pitch >= 127 || self.scrolls_at(t, z),
            PianoRollCommand::Down | PianoRollCommand::SelectDown => self.cursor_pitch == 0 || self.scrolls_at(t, z),
            PianoRollCommand::Right | PianoRollCommand::SelectRight => {
                if t as u64 + tpc as u64 <= u32::MAX as u64 {
                    self.scrolls_at(t + tpc, z)
                } else {
                    false
                }
            },
            PianoRollCommand::Left | PianoRollCommand::SelectLeft => self.scrolls_at(t.saturating_sub(tpc), z),
            PianoRollCommand::OctaveUp | PianoRollCommand::OctaveDown => self.scrolls_at(t, z),
            PianoRollCommand::End => self.scrolls_at(END_TICK, z),
            PianoRollCommand::ZoomIn => {
                if z > 1 {
                    let nz = z - 1;
                    let g = ticks_at_zoom(nz);
                    self.scrolls_at((t / g) * g, nz)
                } else {
                    true
                }
            },
            PianoRollCommand::ZoomOut => {
                if z < 5 {
                    let nz = z + 1;
                    let g = ticks_at_zoom(nz);
                    self.scrolls_at((t / g) * g, nz)
                } else {
                    true
                }
            },
            PianoRollCommand::GrowDuration => self.default_duration as u64 + tpc as u64 <= i32::MAX as u64,
            PianoRollCommand::ShrinkDuration => self.default_duration as u64 <= i32::MAX as u64,
            PianoRollCommand::AutomationLaneNext => !self.automation_overlay_visible || match self.automation_overlay_lane_idx {
                Some(i) => i != usize::MAX,
                None => true,
            },
            _ => true,
        }
    }
}

/// Ticks per grid cell at zoom level `zoom`.
fn ticks_at_zoom(zoom: u8) -> (r: u32)
    ensures
        r == spec_ticks_per_cell(zoom),
        60 <= r <= 960,
{
    if zoom == 1 {
        60
    } else if zoom == 2 {
        120
    } else if zoom == 3 {
        240
    } else if zoom == 4 {
        480
    } else if zoom == 5 {
        960
    } else {
        240
    }
}

/// Every command keeps the cursor on a MIDI pitch (at most 127), the duration
/// at least one fine cell and the velocity within 1..=127.
pub proof fn lemma_after_in_range(p: PianoRollPane, cmd: PianoRollCommand)
    requires
        p.in_range(),
        p.can_apply(cmd),
    ensures
        p.after(cmd).in_range(),
{
    let tpc = spec_ticks_per_cell(p.zoom_level);
    match cmd {
        PianoRollCommand::Up => {
            assert(p.after(cmd) == p.stepped_pitch(true, None));
            if p.cursor_pitch < 127 {
                lemma_moved_in_range(p, (p.cursor_pitch + 1) as u8, p.cursor_tick, None);
                assert(p.stepped_pitch(true, None) == p.moved_to((p.cursor_pitch + 1) as u8, p.cursor_tick, None));
                assert(p.stepped_pitch(true, None).in_range());
            } else {
                assert(p.stepped_pitch(true, None).in_range());
            }
        },
        PianoRollCommand::Down => {
            assert(p.after(cmd) == p.stepped_pitch(false, None));
            if p.cursor_pitch > 0 {
                lemma_moved_in_range(p, (p.cursor_pitch - 1) as u8, p.cursor_tick, None);
            }
        },
        PianoRollCommand::SelectUp => {
            assert(p.after(cmd) == p.stepped_pitch(true, p.anchored()));
            if p.cursor_pitch < 127 {
                lemma_moved_in_range(p, (p.cursor_pitch + 1) as u8, p.cursor_tick, p.anchored());
            }
        },
        PianoRollCommand::SelectDown => {
            assert(p.after(cmd) == p.stepped_pitch(false, p.anchored()));
            if p.cursor_pitch > 0 {
                lemma_moved_in_range(p, (p.cursor_pitch - 1) as u8, p.cursor_tick, p.anchored());
            }
        },
        PianoRollCommand::Right => lemma_moved_in_range(p, p.cursor_pitch, p.stepped_tick(true), None),
        PianoRollCommand::Left => lemma_moved_in_range(p, p.cursor_pitch, p.stepped_tick(false), None),
        PianoRollCommand::SelectRight => lemma_moved_in_range(p, p.cursor_pitch, p.stepped_tick(true), p.anchored()),
        PianoRollCommand::SelectLeft => lemma_moved_in_range(p, p.cursor_pitch, p.stepped_tick(false), p.anchored()),
        PianoRollCommand::OctaveUp => lemma_moved_in_range(
            p,
            if p.cursor_pitch + 12 > 127 { 127u8 } else { (p.cursor_pitch + 12) as u8 },
            p.cursor_tick,
            None,
        ),
        PianoRollCommand::OctaveDown => lemma_moved_in_range(
            p,
            if p.cursor_pitch < 12 { 0u8 } else { (p.cursor_pitch - 12) as u8 },
            p.cursor_tick,
            None,
        ),
        PianoRollCommand::End => lemma_moved_in_range(p, p.cursor_pitch, END_TICK, None),
        PianoRollCommand::ZoomIn => {
            if p.zoom_level > 1 {
                let z = (p.zoom_level - 1) as u8;
                let q = PianoRollPane { zoom_level: z, ..p };
                let r = PianoRollPane { cursor_tick: snap(p.cursor_tick, spec_ticks_per_cell(z)), ..q };
                assert(r.scrolled().cursor_pitch == r.cursor_pitch);
                assert(r.scrolled().default_duration == p.default_duration);
                assert(r.scrolled().default_velocity == p.default_velocity);
            }
        },
        PianoRollCommand::ZoomOut => {
            if p.zoom_level < 5 {
                let z = (p.zoom_level + 1) as u8;
                let q = PianoRollPane { zoom_level: z, ..p };
                let r = PianoRollPane { cursor_tick: snap(p.cursor_tick, spec_ticks_per_cell(z)), ..q };
                assert(r.scrolled().cursor_pitch == r.cursor_pitch);
                assert(r.scrolled().default_duration == p.default_duration);
                assert(r.scrolled().default_velocity == p.default_velocity);
            }
        },
        PianoRollCommand::GrowDuration => {
            assert(p.after(cmd).default_duration == p.duration_after(tpc as int));
            assert(tpc >= 60);
        },
        PianoRollCommand::ShrinkDuration => {
            assert(p.after(cmd).default_duration == p.duration_after(-(tpc as int)));
            assert(tpc >= 60);
        },
        _ => {},
    }
}

/// Moving the cursor to a MIDI pitch keeps the note settings in range.
proof fn lemma_moved_in_range(p: PianoRollPane, pitch: u8, tick: u32, anchor: Option<(u32, u8)>)
    requires
        p.in_range(),
        pitch <= 127,
    ensures
        p.moved_to(pitch, tick, anchor).in_range(),
{
    let q = PianoRollPane { cursor_pitch: pitch, cursor_tick: tick, selection_anchor: anchor, ..p };
    assert(q.scrolled().cursor_pitch == pitch);
    assert(q.scrolled().default_duration == p.default_duration);
    assert(q.scrolled().default_velocity == p.default_velocity);
}

/// The pane after the commands `cmds`, one after the other.
pub open spec fn after_all(p: PianoRollPane, cmds: Seq<PianoRollCommand>) -> PianoRollPane
    decreases cmds.len(),
{
    if cmds.len() == 0 {
        p
    } else {
        after_all(p, cmds.drop_last()).after(cmds.last())
    }
}

/// Every command of `cmds` can be carried out where it comes.
pub open spec fn all_apply(p: PianoRollPane, cmds: Seq<PianoRollCommand>) -> bool
    decreases cmds.len(),
{
    if cmds.len() == 0 {
        true
    } else {
        all_apply(p, cmds.drop_last()) && after_all(p, cmds.drop_last()).can_apply(cmds.last())
    }
}

/// A pane reached by any run of commands from one with its note settings in
/// range (such as a new pane) has them in range still: the cursor on a MIDI
/// pitch, a duration of at least 60 ticks, a velocity of 1 to 127.
pub proof fn lemma_reachable_in_range(p: PianoRollPane, cmds: Seq<PianoRollCommand>)
    requires
        p.in_range(),
        all_apply(p, cmds),
    ensures
        after_all(p, cmds).in_range(),
    decreases cmds.len(),
{
    if cmds.len() > 0 {
        lemma_reachable_in_range(p, cmds.drop_last());
        lemma_after_in_range(after_all(p, cmds.drop_last()), cmds.last());
    }
}

} // verus!
