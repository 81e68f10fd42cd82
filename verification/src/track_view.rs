//! What the track pane shows inside its border: bar numbers over the timeline,
//! one two-row lane per visible instrument with its label and clip blocks, the
//! bar and beat lines, the playhead and cursor columns, and the footer line.

use vstd::prelude::*;
use crate::text::{decimal, pad_left, pad_left_str, push_decimal, take_chars, take_str};
use crate::track::{
    clip_info, clip_info_text, column_mark, cursor_position, lane_scroll, placement_columns,
    position_text, spec_column_mark, spec_lane_scroll, spec_placement_columns, ColumnMark,
    TrackPane,
};

verus! {

/// A clip placed on a lane, with the tick where it ends and the clip's name.
pub struct PlacedClip {
    pub id: u32,
    pub start: u32,
    pub end: u32,
    pub name: String,
}

/// An instrument lane: the instrument's name and source, its placements in
/// order, and the names of its clips in order.
pub struct TrackLane {
    pub name: String,
    pub source: String,
    pub placements: Vec<PlacedClip>,
    pub clips: Vec<String>,
}

/// The arrangement's view settings as the pane draws them.
#[derive(Debug, Clone, Copy, PartialEq, Eq)]
pub struct TimelineView {
    pub view_start_tick: u32,
    /// Ticks per column; 0 counts as 1.
    pub ticks_per_col: u32,
    pub beats_per_bar: u8,
    pub selected_lane: usize,
    pub cursor_tick: u32,
    pub playhead_tick: u32,
    /// Song mode (else pattern mode).
    pub song_mode: bool,
    /// The id of the selected placement, if any.
    pub selected_placement: Option<u32>,
}

/// A clip block on a lane: columns `[first, last)`, the label on its first row,
/// whether it is the selected placement, and whether its start is on screen
/// (and gets an opening bracket).
pub struct ClipBlock {
    pub first: u16,
    pub last: u16,
    pub label: String,
    pub selected: bool,
    pub opens: bool,
}

/// A visible lane.
pub struct LaneRow {
    /// The lane's index among all lanes.
    pub lane: usize,
    pub selected: bool,
    /// The lane number, right-aligned in two columns, and a space.
    pub number: String,
    /// The instrument name, cut to 11 characters.
    pub name: String,
    /// A space and the source name, cut to 20 characters.
    pub source: String,
    /// For each placement of the lane, its block when it is on screen.
    pub blocks: Vec<Option<ClipBlock>>,
    /// Whether a separator line follows the lane.
    pub separator: bool,
}

/// The contents of the track pane's box.
pub struct TrackFrame {
    pub title: String,
    /// There are no instruments: only "(no instruments)" is shown.
    pub empty: bool,
    /// The bar number shown at each timeline column, if any.
    pub bar_numbers: Vec<Option<u32>>,
    /// The line mark of each timeline column.
    pub marks: Vec<ColumnMark>,
    pub lanes: Vec<LaneRow>,
    pub playhead_col: Option<u16>,
    /// The cursor: the visible lane row it is drawn on, and its column.
    pub cursor: Option<(usize, u16)>,
    /// The footer's second line: cursor position and the chosen clip.
    pub position: String,
}

/// A clip name fitted to a block `width` columns wide: cut when longer, padded
/// with spaces on the right when shorter.
pub open spec fn fit_label(name: Seq<char>, width: int) -> Seq<char> {
    if name.len() > width {
        name.subrange(0, width)
    } else {
        name + Seq::new((width - name.len()) as nat, |_i: int| ' ')
    }
}

/// Ticks per column as drawn.
pub open spec fn view_tpc(v: TimelineView) -> u32 {
    if v.ticks_per_col > 0 { v.ticks_per_col } else { 1 }
}

/// Timeline columns in a box `inner_width` wide (a 20-column label and two separators).
pub open spec fn timeline_width(inner_width: u16) -> u16 {
    if inner_width >= 22 { (inner_width - 22) as u16 } else { 0 }
}

/// Lanes that fit in a box `inner_height` high (a header row, two footer rows, two rows a lane).
pub open spec fn lanes_visible(inner_height: u16) -> usize {
    ((if inner_height >= 3 { inner_height - 3 } else { 0 }) / 2) as usize
}

/// The first tick of timeline column `c`.
pub open spec fn timeline_tick(v: TimelineView, c: int) -> u32 {
    (v.view_start_tick + c * view_tpc(v)) as u32
}

/// The column of `tick` when it lies on the timeline.
pub open spec fn tick_column(tick: u32, v: TimelineView, width: u16) -> Option<u16> {
    if tick >= v.view_start_tick && (((tick - v.view_start_tick) / (view_tpc(v) as int)) as u16) < width {
        Some(((tick - v.view_start_tick) / (view_tpc(v) as int)) as u16)
    } else {
        None
    }
}

/// The selected lane, held to the last one.
pub open spec fn shown_selected(v: TimelineView, n: nat) -> usize {
    if v.selected_lane < n { v.selected_lane } else { (n - 1) as usize }
}

/// The title on the border.
pub open spec fn track_title(v: TimelineView) -> Seq<char> {
    " Track ["@ + (if v.song_mode { "Song"@ } else { "Pattern"@ }) + "] "@
}

/// `b` is how placement `p` shows on a timeline `width` columns wide.
pub open spec fn block_shows(b: Option<ClipBlock>, p: PlacedClip, v: TimelineView, width: u16) -> bool {
    match spec_placement_columns(p.start, p.end, v.view_start_tick, view_tpc(v), width) {
        None => b is None,
        Some((first, last)) => match b {
            None => false,
            Some(cb) => {
                &&& cb.first == first
                &&& cb.last == last
                &&& cb.label@ == fit_label(p.name@, last - first)
                &&& cb.selected == (v.selected_placement == Some(p.id))
                &&& cb.opens == (first > 0 || p.start >= v.view_start_tick)
            },
        },
    }
}

/// `row` shows lane `i` of `lanes` as visible row `vi`.
pub open spec fn lane_shows(
    row: LaneRow,
    i: int,
    vi: int,
    lanes: Seq<TrackLane>,
    v: TimelineView,
    width: u16,
    max_visible: usize,
) -> bool {
    &&& row.lane == i
    &&& row.selected == (i == shown_selected(v, lanes.len()))
    &&& row.number@ == pad_left(decimal((i + 1) as nat), 2) + " "@
    &&& row.name@ == take_chars(lanes[i].name@, 11)
    &&& row.source@ == take_chars(" "@ + lanes[i].source@, 20)
    &&& row.blocks@.len() == lanes[i].placements@.len()
    &&& forall|k: int|
        0 <= k < row.blocks@.len() ==> block_shows(#[trigger] row.blocks@[k], lanes[i].placements@[k], v, width)
    &&& row.separator == (vi + 1 < max_visible && i + 1 < lanes.len())
}

/// A clip name fitted to a block `width` columns wide.
fn fit_label_str(name: &str, width: usize) -> (r: String)
    ensures
        r@ == fit_label(name@, width as int),
{
    let len = name.unicode_len();
    if len > width {
        return String::from_str(name.substring_char(0, width));
    }
    let mut r = String::from_str(name);
    let mut i: usize = len;
    while i < width
        invariant
            len == name@.len(),
            len <= i <= width,
            r@ == name@ + Seq::new((i - len) as nat, |_i: int| ' '),
        decreases width - i,
    {
        proof {
            reveal_strlit(" ");
        }
        r.append(" ");
        i = i + 1;
        assert(r@ =~= name@ + Seq::new((i - len) as nat, |_i: int| ' '));
    }
    r
}

/// The column of `tick` when it lies on the timeline.
fn tick_col(tick: u32, v: &TimelineView, width: u16) -> (r: Option<u16>)
    ensures
        r == tick_column(tick, *v, width),
{
    let tpc: u32 = if v.ticks_per_col > 0 { v.ticks_per_col } else { 1 };
    if tick >= v.view_start_tick {
        let col: u32 = (tick - v.view_start_tick) / tpc;
        let c: u16 = col as u16;
        if c < width { Some(c) } else { None }
    } else {
        None
    }
}

/// Visible lane `i`, drawn as row `vi`.
fn lane_row(lanes: &Vec<TrackLane>, i: usize, vi: usize, v: &TimelineView, width: u16, max_visible: usize) -> (row: LaneRow)
    requires
        i < lanes@.len(),
        vi < max_visible,
    ensures
        lane_shows(row, i as int, vi as int, lanes@, *v, width, max_visible),
{
    let n = lanes.len();
    let sel = if v.selected_lane < n { v.selected_lane } else { n - 1 };
    let lane = &lanes[i];
    let mut digits = String::new();
    push_decimal(&mut digits, i as u64 + 1);
    let mut number = pad_left_str(digits.as_str(), 2);
    proof {
        reveal_strlit(" ");
    }
    number.append(" ");
    let name = take_str(lane.name.as_str(), 11);
    let mut src = String::from_str(" ");
    src.append(lane.source.as_str());
    let source = take_str(src.as_str(), 20);
    let tpc: u32 = if v.ticks_per_col > 0 { v.ticks_per_col } else { 1 };
    let mut blocks: Vec<Option<ClipBlock>> = Vec::new();
    let mut k: usize = 0;
    while k < lane.placements.len()
        invariant
            k <= lane.placements@.len(),
            tpc == view_tpc(*v),
            blocks@.len() == k,
            forall|j: int| 0 <= j < k ==> block_shows(#[trigger] blocks@[j], lane.placements@[j], *v, width),
        decreases lane.placements@.len() - k,
    {
        let p = &lane.placements[k];
        let b = match placement_columns(p.start, p.end, v.view_start_tick, tpc, width) {
            None => None,
            Some((first, last)) => {
                let label = fit_label_str(p.name.as_str(), (last - first) as usize);
                let selected = match v.selected_placement {
                    Some(id) => id == p.id,
                    None => false,
                };
                Some(ClipBlock { first, last, label, selected, opens: first > 0 || p.start >= v.view_start_tick })
            },
        };
        blocks.push(b);
        k = k + 1;
    }
    LaneRow {
        lane: i,
        selected: i == sel,
        number,
        name,
        source,
        blocks,
        separator: vi + 1 < max_visible && i + 1 < n,
    }
}

impl TrackPane {
    /// The track pane drawn in a box whose inside is `inner_width` by
    /// `inner_height`, for the instrument lanes and the arrangement's view.
    pub fn render(&self, inner_width: u16, inner_height: u16, lanes: &Vec<TrackLane>, v: &TimelineView) -> (f: TrackFrame)
        requires
            lanes@.len() > 0 ==> v.beats_per_bar > 0,
            lanes@.len() > 0 && timeline_width(inner_width) > 0 ==> v.view_start_tick + (timeline_width(
                inner_width,
            ) - 1) * view_tpc(*v) <= u32::MAX,
        ensures
            f.title@ == track_title(*v),
            f.empty == (lanes@.len() == 0),
            lanes@.len() == 0 ==> f.lanes@.len() == 0 && f.bar_numbers@.len() == 0 && f.marks@.len() == 0
                && f.playhead_col is None && f.cursor is None && f.position@.len() == 0,
            lanes@.len() > 0 ==> {
                let n = lanes@.len();
                let w = timeline_width(inner_width);
                let tpbar = (v.beats_per_bar * 480) as u32;
                let maxv = lanes_visible(inner_height);
                let sel = shown_selected(*v, n);
                let scroll = spec_lane_scroll(sel, maxv);
                let count = if n - scroll < maxv { n - scroll } else { maxv as int };
                &&& f.marks@.len() == w
                &&& f.bar_numbers@.len() == w
                &&& forall|c: int|
                    0 <= c < w ==> #[trigger] f.marks@[c] == spec_column_mark(timeline_tick(*v, c), view_tpc(*v), tpbar)
                &&& forall|c: int|
                    0 <= c < w ==> #[trigger] f.bar_numbers@[c] == if spec_column_mark(timeline_tick(*v, c), view_tpc(*v), tpbar)
                        == ColumnMark::Bar {
                        Some((timeline_tick(*v, c) / tpbar + 1) as u32)
                    } else {
                        None
                    }
                &&& f.lanes@.len() == count
                &&& forall|j: int|
                    0 <= j < count ==> lane_shows(#[trigger] f.lanes@[j], scroll + j, j, lanes@, *v, w, maxv)
                &&& f.playhead_col == tick_column(v.playhead_tick, *v, w)
                &&& f.cursor == match tick_column(v.cursor_tick, *v, w) {
                    Some(c) => Some(((sel - (if scroll < sel { scroll } else { sel })) as usize, c)),
                    None => None,
                }
                &&& f.position@ == position_text(v.cursor_tick, tpbar) + "  |  "@ + clip_info_text(
                    lanes@[sel as int].clips@.map_values(|s: String| s@),
                    self.selected_clip_index,
                )
            },
    {
        proof {
            reveal_strlit(" Track [");
            reveal_strlit("Song");
            reveal_strlit("Pattern");
            reveal_strlit("] ");
        }
        let mut title = String::from_str(" Track [");
        title.append(if v.song_mode { "Song" } else { "Pattern" });
        title.append("] ");
        let n = lanes.len();
        if n == 0 {
            return TrackFrame {
                title,
                empty: true,
                bar_numbers: Vec::new(),
                marks: Vec::new(),
                lanes: Vec::new(),
                playhead_col: None,
                cursor: None,
                position: String::new(),
            };
        }
        let tpc: u32 = if v.ticks_per_col > 0 { v.ticks_per_col } else { 1 };
        let w: u16 = inner_width.saturating_sub(22);
        let lah: u16 = inner_height.saturating_sub(3);
        let maxv: usize = (lah / 2) as usize;
        let tpbar: u32 = v.beats_per_bar as u32 * 480;
        let sel: usize = if v.selected_lane < n { v.selected_lane } else { n - 1 };
        let scroll = lane_scroll(sel, maxv);
        // Timeline header and lines
        let mut marks: Vec<ColumnMark> = Vec::new();
        let mut bar_numbers: Vec<Option<u32>> = Vec::new();
        let mut c: u16 = 0;
        while c < w
            invariant
                c <= w,
                w == timeline_width(inner_width),
                tpc == view_tpc(*v),
                tpbar == (v.beats_per_bar * 480) as u32,
                tpbar >= 480,
                w > 0 ==> v.view_start_tick + (w - 1) * tpc <= u32::MAX,
                marks@.len() == c,
                bar_numbers@.len() == c,
                forall|k: int| 0 <= k < c ==> #[trigger] marks@[k] == spec_column_mark(timeline_tick(*v, k), tpc, tpbar),
                forall|k: int|
                    0 <= k < c ==> #[trigger] bar_numbers@[k] == if spec_column_mark(timeline_tick(*v, k), tpc, tpbar)
                        == ColumnMark::Bar {
                        Some((timeline_tick(*v, k) / tpbar + 1) as u32)
                    } else {
                        None
                    },
            decreases w - c,
        {
            proof {
                vstd::arithmetic::mul::lemma_mul_inequality(c as int, w - 1, tpc as int);
            }
            let tick: u32 = v.view_start_tick + c as u32 * tpc;
            let mark = column_mark(tick, tpc, tpbar);
            assert(tick / tpbar < u32::MAX) by (nonlinear_arith)
                requires
                    tpbar >= 480,
                    tick <= u32::MAX,
            ;
            marks.push(mark);
            bar_numbers.push(if mark == ColumnMark::Bar { Some(tick / tpbar + 1) } else { None });
            c = c + 1;
        }
        // Lanes
        let end: usize = if n - scroll < maxv { n } else { scroll + maxv };
        let mut rows: Vec<LaneRow> = Vec::new();
        let mut i: usize = scroll;
        while i < end
            invariant
                scroll <= i <= end <= n,
                end - scroll <= maxv,
                n == lanes@.len(),
                w == timeline_width(inner_width),
                maxv == lanes_visible(inner_height),
                rows@.len() == i - scroll,
                forall|j: int|
                    0 <= j < rows@.len() ==> lane_shows(#[trigger] rows@[j], scroll + j, j, lanes@, *v, w, maxv),
            decreases end - i,
        {
            let row = lane_row(lanes, i, i - scroll, v, w, maxv);
            rows.push(row);
            i = i + 1;
        }
        let playhead_col = tick_col(v.playhead_tick, v, w);
        let cursor = match tick_col(v.cursor_tick, v, w) {
            Some(col) => Some((sel - (if scroll < sel { scroll } else { sel }), col)),
            None => None,
        };
        let mut position = cursor_position(v.cursor_tick, tpbar);
        proof {
            reveal_strlit("  |  ");
        }
        position.append("  |  ");
        let info = clip_info(&lanes[sel].clips, self.selected_clip_index);
        position.append(info.as_str());
        TrackFrame { title, empty: false, bar_numbers, marks, lanes: rows, playhead_col, cursor, position }
    }
}

} // verus!

verus! {

/// With room for at least one lane, the selected lane (held to the last one)
/// is among the lanes shown.
pub proof fn lemma_selected_lane_shown(v: TimelineView, n: nat, max_visible: usize)
    requires
        n > 0,
        max_visible > 0,
    ensures
        ({
            let sel = shown_selected(v, n);
            let scroll = spec_lane_scroll(sel, max_visible);
            let count = if n - scroll < max_visible { n - scroll } else { max_visible as int };
            scroll <= sel < scroll + count
        }),
{
}

} // verus!
