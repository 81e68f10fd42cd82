//! What the piano-roll pane shows: the box title, the transport header, one
//! labelled row of grid cells per visible pitch, the bar and beat marks under
//! the grid and the status line. Drawing these on a terminal is left to the
//! caller, as are the fractional beat numbers.

use vstd::prelude::*;
use crate::piano_roll::{
    note_name, notes_fit, spec_is_black_key, spec_note_name, spec_ticks_per_cell, GridCell, Note,
    PianoRollPane, is_black_key, KEY_COL_WIDTH,
};
use crate::playback::{TrackNotes, Transport};
use crate::screen::ScreenRect;
use crate::text::{decimal, pad_left, pad_left_str, push_decimal};

verus! {

/// How a piano-key label is drawn.
#[derive(Debug, Clone, Copy, PartialEq, Eq, Structural)]
pub enum KeyShade {
    /// The row of the cursor.
    Cursor,
    Black,
    White,
}

/// What the footer shows under a grid column.
#[derive(Debug, Clone, Copy, PartialEq, Eq, Structural)]
pub enum FooterMark {
    /// The first column of a bar, with the bar's number counted from 1.
    Bar(u32),
    /// The first column of a beat.
    Beat,
    Nothing,
}

/// One row of the grid: its pitch, the key label, and the cells left to right.
pub struct GridRow {
    pub pitch: u8,
    /// The note name, right-aligned in three columns.
    pub label: String,
    pub shade: KeyShade,
    pub cells: Vec<GridCell>,
}

/// The contents of the piano-roll box.
pub struct PianoRollFrame {
    /// The title on the border.
    pub title: String,
    /// The transport header up to "Beat:"; the playhead's beat follows it.
    pub header: String,
    /// Whether the edited track is being rendered to audio.
    pub rendering: bool,
    /// The grid rows from top to bottom; `None` for rows above the highest pitch.
    pub rows: Vec<Option<GridRow>>,
    /// The mark under each grid column.
    pub footer: Vec<FooterMark>,
    /// The status line, when there is no selection.
    pub status: Option<String>,
    /// With a selection: its length in ticks and its height in pitches.
    pub selection_extent: Option<(u64, u16)>,
}

/// Grid columns inside a box `width` wide.
pub open spec fn grid_width(rect: ScreenRect) -> int {
    if rect.width >= 6 { rect.width - 6 } else { 0 }
}

/// Grid rows inside a box `height` high.
pub open spec fn grid_height(rect: ScreenRect) -> int {
    if rect.height >= 5 { rect.height - 5 } else { 0 }
}

/// The border title: the track's module, its place among the tracks and its
/// voice mode, or a note that there are no tracks.
pub open spec fn title_text(track: Option<(u32, bool)>, current: usize, count: usize) -> Seq<char> {
    match track {
        Some((module_id, poly)) => " Piano Roll: "@ + "midi-"@ + decimal(module_id as nat) + " ["@
            + decimal((current + 1) as nat) + "/"@ + decimal(count as nat) + "] "@ + (if poly {
            "POLY"@
        } else {
            "MONO"@
        }) + " "@,
        None => " Piano Roll: "@ + "(no tracks) "@,
    }
}

/// The transport header: time signature, play and loop marks, then "Beat:".
pub open spec fn header_text(t: Transport) -> Seq<char> {
    " "@ + decimal(t.time_signature.0 as nat) + "/"@ + decimal(t.time_signature.1 as nat) + "  "@
        + (if t.playing { "||"@ } else { "> "@ }) + "  "@ + (if t.looping { "L"@ } else { " "@ })
        + "  Beat:"@
}

/// The footer mark for a column starting at `tick`.
pub open spec fn footer_mark(tick: u32, ticks_per_beat: u32, ticks_per_bar: u32) -> FooterMark {
    if tick % ticks_per_bar == 0 {
        FooterMark::Bar((tick / ticks_per_bar + 1) as u32)
    } else if tick % ticks_per_beat == 0 {
        FooterMark::Beat
    } else {
        FooterMark::Nothing
    }
}

/// `text` is present and reads `s`.
pub open spec fn text_is(text: Option<String>, s: Seq<char>) -> bool {
    match text {
        Some(t) => t@ == s,
        None => false,
    }
}

/// The notes of track `current`, none when there is no such track.
pub open spec fn current_notes(tracks: Seq<TrackNotes>, current: usize) -> Seq<Note> {
    if current < tracks.len() { tracks[current as int].notes@ } else { Seq::empty() }
}

impl PianoRollPane {
    /// The first tick of grid column `c`.
    pub open spec fn col_tick(self, c: int) -> u32 {
        (self.view_start_tick + c * spec_ticks_per_cell(self.zoom_level)) as u32
    }

    /// How the key label of `pitch` is drawn.
    pub open spec fn key_shade(self, pitch: u8) -> KeyShade {
        if pitch == self.cursor_pitch {
            KeyShade::Cursor
        } else if spec_is_black_key(pitch) {
            KeyShade::Black
        } else {
            KeyShade::White
        }
    }

    /// The status line: cursor note and tick, then the velocity and duration
    /// of placed notes.
    pub open spec fn status_text(self) -> Seq<char> {
        "Note:"@ + spec_note_name(self.cursor_pitch) + " Tick:"@ + decimal(self.cursor_tick as nat)
            + " Vel:"@ + decimal(self.default_velocity as nat) + " Dur:"@ + decimal(
            self.default_duration as nat,
        )
    }

    /// `row` is grid row `r` of a grid `gh` rows high and `gw` columns wide.
    pub open spec fn row_shows(
        self,
        row: Option<GridRow>,
        r: int,
        gh: int,
        gw: int,
        notes: Seq<Note>,
        t: Transport,
        ticks_per_beat: u32,
        ticks_per_bar: u32,
    ) -> bool {
        let pitch = self.spec_row_pitch(r as u16, gh as u16);
        if pitch > 127 {
            row is None
        } else {
            match row {
                None => false,
                Some(g) => {
                    &&& g.pitch == pitch
                    &&& g.label@ == pad_left(spec_note_name(pitch), 3)
                    &&& g.shade == self.key_shade(pitch)
                    &&& g.cells@.len() == gw
                    &&& forall|c: int|
                        0 <= c < gw ==> #[trigger] g.cells@[c] == self.spec_grid_cell(
                            pitch,
                            self.col_tick(c),
                            notes,
                            t.playing,
                            t.playhead,
                            ticks_per_beat,
                            ticks_per_bar,
                        )
                },
            }
        }
    }

    /// Grid row `row` of a grid `gh` rows high and `gw` columns wide.
    fn grid_row(
        &self,
        row: u16,
        gh: u16,
        gw: u16,
        notes: &Vec<Note>,
        t: &Transport,
        ticks_per_beat: u32,
        ticks_per_bar: u32,
    ) -> (g: Option<GridRow>)
        requires
            row < gh,
            ticks_per_beat > 0,
            ticks_per_bar > 0,
            notes_fit(notes@),
            gw > 0 ==> self.view_start_tick + (gw - 1) * spec_ticks_per_cell(self.zoom_level) <= u32::MAX,
        ensures
            self.row_shows(g, row as int, gh as int, gw as int, notes@, *t, ticks_per_beat, ticks_per_bar),
    {
        let pitch = self.row_pitch(row, gh);
        if pitch > 127 {
            return None;
        }
        let name = note_name(pitch);
        let label = pad_left_str(name.as_str(), 3);
        let shade = if pitch == self.cursor_pitch {
            KeyShade::Cursor
        } else if is_black_key(pitch) {
            KeyShade::Black
        } else {
            KeyShade::White
        };
        let tpc = self.ticks_per_cell();
        let mut cells: Vec<GridCell> = Vec::new();
        let mut c: u16 = 0;
        while c < gw
            invariant
                c <= gw,
                pitch == self.spec_row_pitch(row, gh),
                ticks_per_beat > 0,
                ticks_per_bar > 0,
                notes_fit(notes@),
                tpc == spec_ticks_per_cell(self.zoom_level),
                60 <= tpc <= 960,
                gw > 0 ==> self.view_start_tick + (gw - 1) * tpc <= u32::MAX,
                cells@.len() == c,
                forall|k: int|
                    0 <= k < c ==> #[trigger] cells@[k] == self.spec_grid_cell(
                        pitch,
                        self.col_tick(k),
                        notes@,
                        t.playing,
                        t.playhead,
                        ticks_per_beat,
                        ticks_per_bar,
                    ),
            decreases gw - c,
        {
            proof {
                vstd::arithmetic::mul::lemma_mul_inequality(c as int, gw - 1, tpc as int);
            }
            let tick = self.column_tick(c);
            let cell = self.grid_cell(pitch, tick, notes, t.playing, t.playhead, ticks_per_beat, ticks_per_bar);
            cells.push(cell);
            c = c + 1;
        }
        Some(GridRow { pitch, label, shade, cells })
    }

    /// The piano roll drawn in the box `rect`, for the tracks in track order,
    /// the transport, the beat and bar lengths in ticks, and the instrument
    /// being rendered to audio, if any.
    pub fn render_with_state(
        &self,
        rect: ScreenRect,
        tracks: &Vec<TrackNotes>,
        t: &Transport,
        ticks_per_beat: u32,
        ticks_per_bar: u32,
        rendering_instrument: Option<u32>,
    ) -> (f: PianoRollFrame)
        requires
            ticks_per_beat > 0,
            ticks_per_bar > 0,
            self.current_track < tracks@.len() ==> notes_fit(tracks@[self.current_track as int].notes@),
            grid_width(rect) > 0 ==> self.view_start_tick + (grid_width(rect) - 1) * spec_ticks_per_cell(
                self.zoom_level,
            ) <= u32::MAX,
            grid_width(rect) > 0 && ticks_per_bar == 1 ==> self.view_start_tick + (grid_width(rect) - 1)
                * spec_ticks_per_cell(self.zoom_level) < u32::MAX,
        ensures
            f.title@ == title_text(
                if self.current_track < tracks@.len() {
                    Some((tracks@[self.current_track as int].module_id, tracks@[self.current_track as int].polyphonic))
                } else {
                    None
                },
                self.current_track,
                tracks@.len() as usize,
            ),
            f.header@ == header_text(*t),
            f.rendering == (self.current_track < tracks@.len() && rendering_instrument == Some(
                tracks@[self.current_track as int].module_id,
            )),
            f.rows@.len() == grid_height(rect),
            forall|r: int|
                0 <= r < grid_height(rect) ==> self.row_shows(
                    #[trigger] f.rows@[r],
                    r,
                    grid_height(rect),
                    grid_width(rect),
                    current_notes(tracks@, self.current_track),
                    *t,
                    ticks_per_beat,
                    ticks_per_bar,
                ),
            f.footer@.len() == grid_width(rect),
            forall|c: int|
                0 <= c < grid_width(rect) ==> #[trigger] f.footer@[c] == footer_mark(
                    self.col_tick(c),
                    ticks_per_beat,
                    ticks_per_bar,
                ),
            match self.selection_anchor {
                None => f.selection_extent is None && text_is(f.status, self.status_text()),
                Some((anchor_tick, anchor_pitch)) => f.status is None && f.selection_extent == Some(
                    (
                        (if anchor_tick <= self.cursor_tick {
                            self.cursor_tick - anchor_tick
                        } else {
                            anchor_tick - self.cursor_tick
                        } + spec_ticks_per_cell(self.zoom_level)) as u64,
                        (if anchor_pitch <= self.cursor_pitch {
                            self.cursor_pitch - anchor_pitch
                        } else {
                            anchor_pitch - self.cursor_pitch
                        } + 1) as u16,
                    ),
                ),
            },
    {
        let gw: u16 = rect.width.saturating_sub(KEY_COL_WIDTH + 1);
        let gh: u16 = rect.height.saturating_sub(5);
        let n = tracks.len();
        let cur = self.current_track;
        // Title
        let mut title = String::from_str(" Piano Roll: ");
        proof {
            reveal_strlit(" Piano Roll: ");
            reveal_strlit("midi-");
            reveal_strlit(" [");
            reveal_strlit("/");
            reveal_strlit("] ");
            reveal_strlit("POLY");
            reveal_strlit("MONO");
            reveal_strlit(" ");
            reveal_strlit("(no tracks) ");
        }
        let empty: Vec<Note> = Vec::new();
        let notes: &Vec<Note> = if cur < n {
            let track = &tracks[cur];
            title.append("midi-");
            push_decimal(&mut title, track.module_id as u64);
            title.append(" [");
            push_decimal(&mut title, cur as u64 + 1);
            title.append("/");
            push_decimal(&mut title, n as u64);
            title.append("] ");
            title.append(if track.polyphonic { "POLY" } else { "MONO" });
            title.append(" ");
            assert(title@ =~= title_text(Some((track.module_id, track.polyphonic)), cur, n));
            &track.notes
        } else {
            title.append("(no tracks) ");
            assert(title@ =~= title_text(None, cur, n));
            &empty
        };
        assert(notes@ == current_notes(tracks@, cur));
        // Header
        let mut header = String::from_str(" ");
        proof {
            reveal_strlit("  ");
            reveal_strlit("||");
            reveal_strlit("> ");
            reveal_strlit("L");
            reveal_strlit("  Beat:");
        }
        push_decimal(&mut header, t.time_signature.0 as u64);
        header.append("/");
        push_decimal(&mut header, t.time_signature.1 as u64);
        header.append("  ");
        header.append(if t.playing { "||" } else { "> " });
        header.append("  ");
        header.append(if t.looping { "L" } else { " " });
        header.append("  Beat:");
        let rendering = match rendering_instrument {
            Some(id) => cur < n && tracks[cur].module_id == id,
            None => false,
        };
        // Grid rows
        let mut rows: Vec<Option<GridRow>> = Vec::new();
        let mut r: u16 = 0;
        while r < gh
            invariant
                r <= gh,
                gh as int == grid_height(rect),
                gw as int == grid_width(rect),
                ticks_per_beat > 0,
                ticks_per_bar > 0,
                notes_fit(notes@),
                gw > 0 ==> self.view_start_tick + (gw - 1) * spec_ticks_per_cell(self.zoom_level) <= u32::MAX,
                rows@.len() == r,
                forall|k: int|
                    0 <= k < r ==> self.row_shows(
                        #[trigger] rows@[k],
                        k,
                        gh as int,
                        gw as int,
                        notes@,
                        *t,
                        ticks_per_beat,
                        ticks_per_bar,
                    ),
            decreases gh - r,
        {
            let g = self.grid_row(r, gh, gw, notes, t, ticks_per_beat, ticks_per_bar);
            rows.push(g);
            r = r + 1;
        }
        // Footer
        let mut footer: Vec<FooterMark> = Vec::new();
        let mut c: u16 = 0;
        let tpc = self.ticks_per_cell();
        while c < gw
            invariant
                c <= gw,
                ticks_per_beat > 0,
                ticks_per_bar > 0,
                tpc == spec_ticks_per_cell(self.zoom_level),
                60 <= tpc <= 960,
                gw > 0 ==> self.view_start_tick + (gw - 1) * tpc <= u32::MAX,
                gw > 0 && ticks_per_bar == 1 ==> self.view_start_tick + (gw - 1) * tpc < u32::MAX,
                footer@.len() == c,
                forall|k: int|
                    0 <= k < c ==> #[trigger] footer@[k] == footer_mark(self.col_tick(k), ticks_per_beat, ticks_per_bar),
            decreases gw - c,
        {
            proof {
                vstd::arithmetic::mul::lemma_mul_inequality(c as int, gw - 1, tpc as int);
            }
            let tick = self.column_tick(c);
            assert(tick / ticks_per_bar < u32::MAX) by {
                if ticks_per_bar >= 2 {
                    assert(tick / ticks_per_bar <= tick / 2) by {
                        vstd::arithmetic::div_mod::lemma_div_is_ordered_by_denominator(tick as int, 2, ticks_per_bar as int);
                    }
                }
            }
            let mark = if tick % ticks_per_bar == 0 {
                FooterMark::Bar(tick / ticks_per_bar + 1)
            } else if tick % ticks_per_beat == 0 {
                FooterMark::Beat
            } else {
                FooterMark::Nothing
            };
            footer.push(mark);
            c = c + 1;
        }
        // Status line
        let (status, selection_extent) = match self.selection_anchor {
            None => {
                proof {
                    reveal_strlit("Note:");
                    reveal_strlit(" Tick:");
                    reveal_strlit(" Vel:");
                    reveal_strlit(" Dur:");
                }
                let mut s = String::from_str("Note:");
                let name = note_name(self.cursor_pitch);
                s.append(name.as_str());
                s.append(" Tick:");
                push_decimal(&mut s, self.cursor_tick as u64);
                s.append(" Vel:");
                push_decimal(&mut s, self.default_velocity as u64);
                s.append(" Dur:");
                push_decimal(&mut s, self.default_duration as u64);
                (Some(s), None)
            },
            Some((anchor_tick, anchor_pitch)) => {
                let dt: u64 = if anchor_tick <= self.cursor_tick {
                    (self.cursor_tick - anchor_tick) as u64
                } else {
                    (anchor_tick - self.cursor_tick) as u64
                };
                let dp: u16 = if anchor_pitch <= self.cursor_pitch {
                    (self.cursor_pitch - anchor_pitch) as u16
                } else {
                    (anchor_pitch - self.cursor_pitch) as u16
                };
                (None, Some((dt + tpc as u64, dp + 1)))
            },
        };
        PianoRollFrame { title, header, rendering, rows, footer, status, selection_extent }
    }
}

} // verus!
