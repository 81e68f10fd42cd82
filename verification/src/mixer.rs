//! The mixer pane: an overview of channel strips with a "send target" that
//! redirects level changes to a bus send, and a detail view of one instrument
//! whose sections (effects, sends, filter, LFO, output) are browsed row by row.

use vstd::prelude::*;
use crate::action::{Action, InstrumentAction, MixerAction, MixerSelection, NavAction};
use crate::keymap::Keymap;
use crate::screen::ScreenRect;
use crate::text::{decimal, push_decimal, str_eq};

verus! {

/// Instrument channels the overview shows at once.
pub const NUM_VISIBLE_CHANNELS: usize = 8;

/// Bus channels the overview shows at once.
pub const NUM_VISIBLE_BUSES: usize = 2;

/// Highest bus number a send can target.
pub const MAX_BUS: u8 = 8;

/// A section of the detail view.
#[derive(Debug, Clone, Copy, PartialEq, Eq, Structural)]
pub enum MixerSection {
    Effects,
    Sends,
    Filter,
    Lfo,
    Output,
}

impl MixerSection {
    /// The section after this one, wrapping from Output to Effects.
    pub open spec fn spec_next(self) -> MixerSection {
        match self {
            MixerSection::Effects => MixerSection::Sends,
            MixerSection::Sends => MixerSection::Filter,
            MixerSection::Filter => MixerSection::Lfo,
            MixerSection::Lfo => MixerSection::Output,
            MixerSection::Output => MixerSection::Effects,
        }
    }

    /// The section before this one, wrapping from Effects to Output.
    pub open spec fn spec_prev(self) -> MixerSection {
        match self {
            MixerSection::Effects => MixerSection::Output,
            MixerSection::Sends => MixerSection::Effects,
            MixerSection::Filter => MixerSection::Sends,
            MixerSection::Lfo => MixerSection::Filter,
            MixerSection::Output => MixerSection::Lfo,
        }
    }

    pub fn next(self) -> (r: MixerSection)
        ensures
            r == self.spec_next(),
    {
        match self {
            MixerSection::Effects => MixerSection::Sends,
            MixerSection::Sends => MixerSection::Filter,
            MixerSection::Filter => MixerSection::Lfo,
            MixerSection::Lfo => MixerSection::Output,
            MixerSection::Output => MixerSection::Effects,
        }
    }

    pub fn prev(self) -> (r: MixerSection)
        ensures
            r == self.spec_prev(),
    {
        match self {
            MixerSection::Effects => MixerSection::Output,
            MixerSection::Sends => MixerSection::Effects,
            MixerSection::Filter => MixerSection::Sends,
            MixerSection::Lfo => MixerSection::Filter,
            MixerSection::Output => MixerSection::Lfo,
        }
    }

    /// The heading of the section.
    pub fn label(self) -> (r: &'static str)
        ensures
            r@ == match self {
                MixerSection::Effects => "EFFECTS"@,
                MixerSection::Sends => "SENDS"@,
                MixerSection::Filter => "FILTER"@,
                MixerSection::Lfo => "LFO"@,
                MixerSection::Output => "OUTPUT"@,
            },
    {
        match self {
            MixerSection::Effects => "EFFECTS",
            MixerSection::Sends => "SENDS",
            MixerSection::Filter => "FILTER",
            MixerSection::Lfo => "LFO",
            MixerSection::Output => "OUTPUT",
        }
    }
}

/// Going to the next section and back, or back and then on, returns to the start;
/// five steps in one direction go all the way round.
pub proof fn lemma_section_cycle(s: MixerSection)
    ensures
        s.spec_next().spec_prev() == s,
        s.spec_prev().spec_next() == s,
        s.spec_next().spec_next().spec_next().spec_next().spec_next() == s,
{
}

/// Where a channel strip sends its output.
#[derive(Debug, Clone, Copy, PartialEq, Eq)]
pub enum OutputTarget {
    Master,
    Bus(u8),
}

/// The short label of an output target: ">MST", ">B1" … ">B8", or ">??" for
/// other bus numbers.
pub fn format_output(target: OutputTarget) -> (r: &'static str)
    ensures
        r@ == match target {
            OutputTarget::Master => ">MST"@,
            OutputTarget::Bus(n) => if n == 1 {
                ">B1"@
            } else if n == 2 {
                ">B2"@
            } else if n == 3 {
                ">B3"@
            } else if n == 4 {
                ">B4"@
            } else if n == 5 {
                ">B5"@
            } else if n == 6 {
                ">B6"@
            } else if n == 7 {
                ">B7"@
            } else if n == 8 {
                ">B8"@
            } else {
                ">??"@
            },
        },
{
    match target {
        OutputTarget::Master => ">MST",
        OutputTarget::Bus(n) => {
            if n == 1 {
                ">B1"
            } else if n == 2 {
                ">B2"
            } else if n == 3 {
                ">B3"
            } else if n == 4 {
                ">B4"
            } else if n == 5 {
                ">B5"
            } else if n == 6 {
                ">B6"
            } else if n == 7 {
                ">B7"
            } else if n == 8 {
                ">B8"
            } else {
                ">??"
            }
        },
    }
}

/// Which color zone a meter row falls in.
#[derive(Debug, Clone, Copy, PartialEq, Eq)]
pub enum MeterZone {
    Low,
    Mid,
    High,
}

/// The color zone of meter row `row` of a meter `height` rows high: above 85% of
/// the height is high, above 60% mid, the rest low.
pub fn meter_color(row: u16, height: u16) -> (r: MeterZone)
    requires
        height > 0,
    ensures
        r == if row * 100 > 85 * height {
            MeterZone::High
        } else if row * 100 > 60 * height {
            MeterZone::Mid
        } else {
            MeterZone::Low
        },
{
    let r = row as u32 * 100;
    let h = height as u32;
    if r > 85 * h {
        MeterZone::High
    } else if r > 60 * h {
        MeterZone::Mid
    } else {
        MeterZone::Low
    }
}

/// The first of `visible` channels shown so that channel `selected` of `total` is
/// visible: 0 while the selection fits in the first page, else the selection is the
/// last visible channel (never scrolling past the end).
pub open spec fn spec_scroll_offset(selected: usize, total: usize, visible: usize) -> usize {
    if selected >= visible {
        let a = selected - visible + 1;
        let b = if total < visible { 0 } else { total - visible };
        (if a < b { a } else { b }) as usize
    } else {
        0
    }
}

pub fn calc_scroll_offset(selected: usize, total: usize, visible: usize) -> (r: usize)
    requires
        visible > 0 || selected < usize::MAX,
    ensures
        r == spec_scroll_offset(selected, total, visible),
{
    if selected >= visible {
        let a = selected - visible + 1;
        let b = total.saturating_sub(visible);
        if a < b {
            a
        } else {
            b
        }
    } else {
        0
    }
}

/// When the selection is one of the channels, it lies within the window that
/// starts at the scroll offset.
pub proof fn lemma_scroll_shows_selection(selected: usize, total: usize, visible: usize)
    requires
        selected < total,
        visible > 0,
    ensures
        spec_scroll_offset(selected, total, visible) <= selected,
        selected < spec_scroll_offset(selected, total, visible) + visible,
{
}

/// What the detail view needs to know of an instrument.
#[derive(Debug, Clone)]
pub struct MixerInstrument {
    pub id: u32,
    /// The number of parameters of each effect in the chain, in order.
    pub effect_param_counts: Vec<usize>,
    /// The bus of each send, in order.
    pub send_buses: Vec<u8>,
    pub has_filter: bool,
}

/// Rows the effects section takes for effects with `counts` parameters: a header
/// row per effect and a row per parameter.
pub open spec fn effect_rows(counts: Seq<usize>) -> nat
    decreases counts.len(),
{
    if counts.len() == 0 {
        0
    } else {
        effect_rows(counts.drop_last()) + 1 + counts.last() as nat
    }
}

/// The row of effect `ei`'s header.
pub open spec fn effect_start(counts: Seq<usize>, ei: int) -> nat {
    effect_rows(counts.subrange(0, ei))
}

/// Where a cursor row falls in the effects section: the effect's index, and
/// `None` for its header or the parameter's index.
pub open spec fn decodes_to(counts: Seq<usize>, cursor: usize, ei: usize, pi: Option<usize>) -> bool {
    &&& ei < counts.len()
    &&& match pi {
        None => cursor == effect_start(counts, ei as int),
        Some(p) => p < counts[ei as int] && cursor == effect_start(counts, ei as int) + 1 + p,
    }
}

proof fn lemma_effect_rows_prefix(counts: Seq<usize>, i: int)
    requires
        0 <= i < counts.len(),
    ensures
        effect_rows(counts.subrange(0, i + 1)) == effect_rows(counts.subrange(0, i)) + 1 + counts[i],
{
    assert(counts.subrange(0, i + 1).drop_last() =~= counts.subrange(0, i));
}

proof fn lemma_effect_rows_monotone(counts: Seq<usize>, i: int, j: int)
    requires
        0 <= i <= j <= counts.len(),
    ensures
        effect_rows(counts.subrange(0, i)) + (j - i) <= effect_rows(counts.subrange(0, j)),
    decreases j - i,
{
    if i < j {
        lemma_effect_rows_monotone(counts, i, j - 1);
        lemma_effect_rows_prefix(counts, j - 1);
    }
}

/// The effect (and parameter) under a cursor row of the effects section, if any.
pub open spec fn spec_decode(counts: Seq<usize>, cursor: usize) -> Option<(usize, Option<usize>)> {
    if exists|ei: usize, pi: Option<usize>| decodes_to(counts, cursor, ei, pi) {
        Some(choose|ei: usize, pi: Option<usize>| decodes_to(counts, cursor, ei, pi))
    } else {
        None
    }
}

/// A row of effect `ei` lies before the header of every later effect.
proof fn lemma_rows_before_later(counts: Seq<usize>, ei: int, ej: int)
    requires
        0 <= ei < ej <= counts.len(),
    ensures
        effect_start(counts, ei) + 1 + counts[ei] <= effect_start(counts, ej),
{
    lemma_effect_rows_prefix(counts, ei);
    lemma_effect_rows_monotone(counts, ei + 1, ej);
}

/// A row decodes to at most one (effect, parameter) pair, and only rows before
/// the end of the section decode at all.
proof fn lemma_decode_unique(counts: Seq<usize>, cursor: usize, e1: usize, p1: Option<usize>, e2: usize, p2: Option<usize>)
    requires
        decodes_to(counts, cursor, e1, p1),
        decodes_to(counts, cursor, e2, p2),
    ensures
        e1 == e2,
        p1 == p2,
{
    if e1 < e2 {
        lemma_rows_before_later(counts, e1 as int, e2 as int);
    } else if e2 < e1 {
        lemma_rows_before_later(counts, e2 as int, e1 as int);
    }
}

proof fn lemma_decode_within(counts: Seq<usize>, cursor: usize, ei: usize, pi: Option<usize>)
    requires
        decodes_to(counts, cursor, ei, pi),
    ensures
        cursor < effect_rows(counts),
{
    lemma_rows_before_later(counts, ei as int, counts.len() as int);
    assert(counts.subrange(0, counts.len() as int) =~= counts);
}

/// Finds the effect (and parameter) under a cursor row of the effects section;
/// `None` when the cursor is past the last row.
pub fn decode_effect_cursor(counts: &Vec<usize>, cursor: usize) -> (r: Option<(usize, Option<usize>)>)
    ensures
        match r {
            Some((ei, pi)) => decodes_to(counts@, cursor, ei, pi),
            None => cursor >= effect_rows(counts@),
        },
        r == spec_decode(counts@, cursor),
{
    let mut pos: usize = 0;
    let mut ei: usize = 0;
    while ei < counts.len()
        invariant
            ei <= counts@.len(),
            pos == effect_start(counts@, ei as int),
            cursor >= pos,
        decreases counts@.len() - ei,
    {
        if cursor == pos {
            proof {
                assert(decodes_to(counts@, cursor, ei, None));
                let (e2, p2) = choose|e2: usize, p2: Option<usize>| decodes_to(counts@, cursor, e2, p2);
                lemma_decode_unique(counts@, cursor, ei, None, e2, p2);
            }
            return Some((ei, None));
        }
        proof {
            lemma_effect_rows_prefix(counts@, ei as int);
        }
        let c = counts[ei];
        if cursor - pos - 1 < c {
            proof {
                let p = (cursor - pos - 1) as usize;
                assert(decodes_to(counts@, cursor, ei, Some(p)));
                let (e2, p2) = choose|e2: usize, p2: Option<usize>| decodes_to(counts@, cursor, e2, p2);
                lemma_decode_unique(counts@, cursor, ei, Some(p), e2, p2);
            }
            return Some((ei, Some(cursor - pos - 1)));
        }
        pos = pos + 1 + c;
        ei = ei + 1;
    }
    assert(counts@.subrange(0, counts@.len() as int) =~= counts@);
    proof {
        if exists|e2: usize, p2: Option<usize>| decodes_to(counts@, cursor, e2, p2) {
            let (e2, p2) = choose|e2: usize, p2: Option<usize>| decodes_to(counts@, cursor, e2, p2);
            lemma_decode_within(counts@, cursor, e2, p2);
        }
    }
    None
}

impl MixerInstrument {
    /// The last row of `section` in the detail view of this instrument.
    pub open spec fn spec_max_cursor(&self, section: MixerSection) -> usize {
        match section {
            MixerSection::Effects => if self.effect_param_counts@.len() == 0 {
                0
            } else {
                (effect_rows(self.effect_param_counts@) - 1) as usize
            },
            MixerSection::Sends => if self.send_buses@.len() == 0 {
                0
            } else {
                (self.send_buses@.len() - 1) as usize
            },
            MixerSection::Filter => if self.has_filter {
                2
            } else {
                0
            },
            MixerSection::Lfo => 2,
            MixerSection::Output => 2,
        }
    }

    /// The effects section's rows can be counted in a `usize`.
    pub open spec fn rows_fit(&self) -> bool {
        effect_rows(self.effect_param_counts@) <= usize::MAX
    }

    /// The last row of `section`.
    pub fn max_cursor(&self, section: MixerSection) -> (r: usize)
        requires
            self.rows_fit(),
        ensures
            r == self.spec_max_cursor(section),
    {
        match section {
            MixerSection::Effects => {
                let counts = &self.effect_param_counts;
                if counts.len() == 0 {
                    return 0;
                }
                let mut count: usize = 0;
                let mut i: usize = 0;
                while i < counts.len()
                    invariant
                        i <= counts@.len(),
                        count == effect_start(counts@, i as int),
                        effect_rows(counts@) <= usize::MAX,
                    decreases counts@.len() - i,
                {
                    proof {
                        lemma_effect_rows_prefix(counts@, i as int);
                        lemma_effect_rows_monotone(counts@, i + 1, counts@.len() as int);
                        assert(counts@.subrange(0, counts@.len() as int) =~= counts@);
                    }
                    count = count + 1 + counts[i];
                    i = i + 1;
                }
                assert(counts@.subrange(0, counts@.len() as int) =~= counts@);
                count - 1
            },
            MixerSection::Sends => self.send_buses.len().saturating_sub(1),
            MixerSection::Filter => {
                if self.has_filter {
                    2
                } else {
                    0
                }
            },
            MixerSection::Lfo => 2,
            MixerSection::Output => 2,
        }
    }
}

/// Every row of a non-empty effects section, up to its last row, is a header or
/// a parameter of some effect.
pub proof fn lemma_rows_decode(counts: Seq<usize>, cursor: usize)
    requires
        0 < counts.len() <= usize::MAX,
        cursor < effect_rows(counts),
    ensures
        exists|ei: usize, pi: Option<usize>| decodes_to(counts, cursor, ei, pi),
    decreases counts.len(),
{
    let last = counts.len() - 1;
    let start = effect_start(counts, last);
    assert(counts.drop_last() =~= counts.subrange(0, last));
    assert(effect_rows(counts) == start + 1 + counts[last]);
    if cursor < start {
        assert(counts.drop_last().len() > 0) by {
            if counts.drop_last().len() == 0 {
                assert(effect_rows(counts.subrange(0, last)) == 0);
            }
        }
        lemma_rows_decode(counts.drop_last(), cursor);
        let (ei, pi) = choose|ei: usize, pi: Option<usize>| decodes_to(counts.drop_last(), cursor, ei, pi);
        assert(counts.drop_last().subrange(0, ei as int) =~= counts.subrange(0, ei as int));
        assert(decodes_to(counts, cursor, ei, pi));
    } else if cursor == start {
        assert((last as usize) as int == last);
        assert(decodes_to(counts, cursor, last as usize, None));
    } else {
        let p = (cursor - start - 1) as usize;
        assert((last as usize) as int == last);
        assert(p < counts[last]);
        assert(decodes_to(counts, cursor, last as usize, Some(p)));
    }
}

/// A mixer command, named by its action string.
#[derive(Debug, Clone, Copy, PartialEq, Eq)]
pub enum MixerCommand {
    Prev,
    Next,
    First,
    Last,
    LevelUp,
    LevelDown,
    LevelUpBig,
    LevelDownBig,
    Mute,
    Solo,
    Output,
    OutputRev,
    Section,
    SectionPrev,
    SendNext,
    SendPrev,
    SendToggle,
    ClearSend,
    Escape,
    EnterDetail,
    Increase,
    FineRight,
    Decrease,
    FineLeft,
    AddEffect,
    RemoveEffect,
    ToggleEffect,
    ToggleFilter,
    CycleFilterType,
    MoveUp,
    MoveDown,
    PanLeft,
    PanRight,
    Unknown,
}

/// The command an action string names.
pub open spec fn spec_mixer_command(s: Seq<char>) -> MixerCommand {
    if s == "prev"@ {
        MixerCommand::Prev
    } else if s == "next"@ {
        MixerCommand::Next
    } else if s == "first"@ {
        MixerCommand::First
    } else if s == "last"@ {
        MixerCommand::Last
    } else if s == "level_up"@ {
        MixerCommand::LevelUp
    } else if s == "level_down"@ {
        MixerCommand::LevelDown
    } else if s == "level_up_big"@ {
        MixerCommand::LevelUpBig
    } else if s == "level_down_big"@ {
        MixerCommand::LevelDownBig
    } else if s == "mute"@ {
        MixerCommand::Mute
    } else if s == "solo"@ {
        MixerCommand::Solo
    } else if s == "output"@ {
        MixerCommand::Output
    } else if s == "output_rev"@ {
        MixerCommand::OutputRev
    } else if s == "section"@ {
        MixerCommand::Section
    } else if s == "section_prev"@ {
        MixerCommand::SectionPrev
    } else if s == "send_next"@ {
        MixerCommand::SendNext
    } else if s == "send_prev"@ {
        MixerCommand::SendPrev
    } else if s == "send_toggle"@ {
        MixerCommand::SendToggle
    } else if s == "clear_send"@ {
        MixerCommand::ClearSend
    } else if s == "escape"@ {
        MixerCommand::Escape
    } else if s == "enter_detail"@ {
        MixerCommand::EnterDetail
    } else if s == "increase"@ {
        MixerCommand::Increase
    } else if s == "fine_right"@ {
        MixerCommand::FineRight
    } else if s == "decrease"@ {
        MixerCommand::Decrease
    } else if s == "fine_left"@ {
        MixerCommand::FineLeft
    } else if s == "add_effect"@ {
        MixerCommand::AddEffect
    } else if s == "remove_effect"@ {
        MixerCommand::RemoveEffect
    } else if s == "toggle_effect"@ {
        MixerCommand::ToggleEffect
    } else if s == "toggle_filter"@ {
        MixerCommand::ToggleFilter
    } else if s == "cycle_filter_type"@ {
        MixerCommand::CycleFilterType
    } else if s == "move_up"@ {
        MixerCommand::MoveUp
    } else if s == "move_down"@ {
        MixerCommand::MoveDown
    } else if s == "pan_left"@ {
        MixerCommand::PanLeft
    } else if s == "pan_right"@ {
        MixerCommand::PanRight
    } else {
        MixerCommand::Unknown
    }
}

/// The command an action string names.
pub fn mixer_command(s: &str) -> (c: MixerCommand)
    ensures
        c == spec_mixer_command(s@),
{
    if str_eq(s, "prev") {
        MixerCommand::Prev
    } else if str_eq(s, "next") {
        MixerCommand::Next
    } else if str_eq(s, "first") {
        MixerCommand::First
    } else if str_eq(s, "last") {
        MixerCommand::Last
    } else if str_eq(s, "level_up") {
        MixerCommand::LevelUp
    } else if str_eq(s, "level_down") {
        MixerCommand::LevelDown
    } else if str_eq(s, "level_up_big") {
        MixerCommand::LevelUpBig
    } else if str_eq(s, "level_down_big") {
        MixerCommand::LevelDownBig
    } else if str_eq(s, "mute") {
        MixerCommand::Mute
    } else if str_eq(s, "solo") {
        MixerCommand::Solo
    } else if str_eq(s, "output") {
        MixerCommand::Output
    } else if str_eq(s, "output_rev") {
        MixerCommand::OutputRev
    } else if str_eq(s, "section") {
        MixerCommand::Section
    } else if str_eq(s, "section_prev") {
        MixerCommand::SectionPrev
    } else if str_eq(s, "send_next") {
        MixerCommand::SendNext
    } else if str_eq(s, "send_prev") {
        MixerCommand::SendPrev
    } else if str_eq(s, "send_toggle") {
        MixerCommand::SendToggle
    } else if str_eq(s, "clear_send") {
        MixerCommand::ClearSend
    } else if str_eq(s, "escape") {
        MixerCommand::Escape
    } else if str_eq(s, "enter_detail") {
        MixerCommand::EnterDetail
    } else if str_eq(s, "increase") {
        MixerCommand::Increase
    } else if str_eq(s, "fine_right") {
        MixerCommand::FineRight
    } else if str_eq(s, "decrease") {
        MixerCommand::Decrease
    } else if str_eq(s, "fine_left") {
        MixerCommand::FineLeft
    } else if str_eq(s, "add_effect") {
        MixerCommand::AddEffect
    } else if str_eq(s, "remove_effect") {
        MixerCommand::RemoveEffect
    } else if str_eq(s, "toggle_effect") {
        MixerCommand::ToggleEffect
    } else if str_eq(s, "toggle_filter") {
        MixerCommand::ToggleFilter
    } else if str_eq(s, "cycle_filter_type") {
        MixerCommand::CycleFilterType
    } else if str_eq(s, "move_up") {
        MixerCommand::MoveUp
    } else if str_eq(s, "move_down") {
        MixerCommand::MoveDown
    } else if str_eq(s, "pan_left") {
        MixerCommand::PanLeft
    } else if str_eq(s, "pan_right") {
        MixerCommand::PanRight
    } else {
        MixerCommand::Unknown
    }
}

/// The send target after "send next": none → bus 1 → … → bus 8 → none.
pub open spec fn send_after_next(t: Option<u8>) -> Option<u8> {
    match t {
        None => Some(1u8),
        Some(n) => if n == MAX_BUS {
            None
        } else {
            Some((n + 1) as u8)
        },
    }
}

/// The send target after "send prev": none → bus 8 → … → bus 1 → none.
pub open spec fn send_after_prev(t: Option<u8>) -> Option<u8> {
    match t {
        None => Some(MAX_BUS),
        Some(n) => if n == 1 {
            None
        } else {
            (Some((n - 1) as u8))
        },
    }
}

/// Stepping the send target forward and then back (or back and then forward)
/// returns to where it was, for "none" and buses 1 to 8.
pub proof fn lemma_send_target_round_trip(t: Option<u8>)
    requires
        t matches Some(n) ==> 1 <= n <= MAX_BUS,
    ensures
        send_after_prev(send_after_next(t)) == t,
        send_after_next(send_after_prev(t)) == t,
{
}

/// The mixer pane's state.
pub struct MixerPane {
    pub keymap: Keymap,
    /// The bus whose send level changes take the place of level changes.
    pub send_target: Option<u8>,
    /// The instrument index shown in the detail view, if any.
    pub detail_mode: Option<usize>,
    pub detail_section: MixerSection,
    /// The row within the detail section.
    pub detail_cursor: usize,
    pub effect_scroll: usize,
}

impl MixerPane {
    /// An overview pane with no send target.
    pub fn new(keymap: Keymap) -> (p: MixerPane)
        ensures
            p.keymap == keymap,
            p.send_target is None,
            p.detail_mode is None,
            p.detail_section == MixerSection::Effects,
            p.detail_cursor == 0,
            p.effect_scroll == 0,
    {
        MixerPane {
            keymap,
            send_target: None,
            detail_mode: None,
            detail_section: MixerSection::Effects,
            detail_cursor: 0,
            effect_scroll: 0,
        }
    }

    pub fn id(&self) -> (r: &'static str)
        ensures
            r@ == "mixer"@,
    {
        "mixer"
    }

    pub fn send_target(&self) -> (r: Option<u8>)
        ensures
            r == self.send_target,
    {
        self.send_target
    }

    /// A level change of `delta` hundredths: to the send of the target bus when a
    /// send target is set, else to the channel level.
    pub open spec fn level_change(self, delta: i32) -> Action {
        match self.send_target {
            Some(bus) => Action::Mixer(MixerAction::AdjustSend(bus, delta)),
            None => Action::Mixer(MixerAction::AdjustLevel(delta)),
        }
    }

    fn level_change_exec(&self, delta: i32) -> (r: Action)
        ensures
            r == self.level_change(delta),
    {
        match self.send_target {
            Some(bus) => Action::Mixer(MixerAction::AdjustSend(bus, delta)),
            None => Action::Mixer(MixerAction::AdjustLevel(delta)),
        }
    }

    /// The overview pane after `cmd`, given the mixer selection and the number of
    /// instruments.
    pub open spec fn overview_after(self, cmd: MixerCommand, selection: MixerSelection, count: usize) -> MixerPane {
        match cmd {
            MixerCommand::Prev | MixerCommand::Next | MixerCommand::Section | MixerCommand::ClearSend
            | MixerCommand::Escape => MixerPane { send_target: None, ..self },
            MixerCommand::SendNext => MixerPane { send_target: send_after_next(self.send_target), ..self },
            MixerCommand::SendPrev => MixerPane { send_target: send_after_prev(self.send_target), ..self },
            MixerCommand::EnterDetail => match selection {
                MixerSelection::Instrument(idx) => if idx < count {
                    MixerPane {
                        detail_mode: Some(idx),
                        detail_section: MixerSection::Effects,
                        detail_cursor: 0,
                        effect_scroll: 0,
                        ..self
                    }
                } else {
                    self
                },
                _ => self,
            },
            _ => self,
        }
    }

    /// What the overview asks for after `cmd`.
    pub open spec fn overview_emits(self, cmd: MixerCommand) -> Action {
        match cmd {
            MixerCommand::Prev => Action::Mixer(MixerAction::Move(-1i8)),
            MixerCommand::Next => Action::Mixer(MixerAction::Move(1)),
            MixerCommand::First => Action::Mixer(MixerAction::Jump(1)),
            MixerCommand::Last => Action::Mixer(MixerAction::Jump(-1i8)),
            MixerCommand::LevelUp => self.level_change(5),
            MixerCommand::LevelDown => self.level_change(-5i32),
            MixerCommand::LevelUpBig => self.level_change(10),
            MixerCommand::LevelDownBig => self.level_change(-10i32),
            MixerCommand::Mute => Action::Mixer(MixerAction::ToggleMute),
            MixerCommand::Solo => Action::Mixer(MixerAction::ToggleSolo),
            MixerCommand::Output => Action::Mixer(MixerAction::CycleOutput),
            MixerCommand::OutputRev => Action::Mixer(MixerAction::CycleOutputReverse),
            MixerCommand::Section => Action::Mixer(MixerAction::CycleSection),
            MixerCommand::SendToggle => match self.send_target {
                Some(bus) => Action::Mixer(MixerAction::ToggleSend(bus)),
                None => Action::NoOp,
            },
            _ => Action::NoOp,
        }
    }
}


impl MixerPane {
    /// What a parameter nudge of `delta` steps on the detail row asks for.
    pub open spec fn adjust_emits(self, inst: MixerInstrument, delta: i32) -> Action {
        let id = inst.id;
        let c = self.detail_cursor;
        match self.detail_section {
            MixerSection::Effects => match spec_decode(inst.effect_param_counts@, c) {
                Some((ei, Some(pi))) => Action::Instrument(InstrumentAction::AdjustEffectParam(id, ei, pi, delta)),
                _ => Action::NoOp,
            },
            MixerSection::Sends => if c < inst.send_buses@.len() {
                Action::Mixer(MixerAction::AdjustSend(inst.send_buses@[c as int], delta))
            } else {
                Action::NoOp
            },
            MixerSection::Filter => if c == 0 {
                Action::Instrument(InstrumentAction::CycleFilterType(id))
            } else if c == 1 {
                Action::Instrument(InstrumentAction::AdjustFilterCutoff(id, delta))
            } else if c == 2 {
                Action::Instrument(InstrumentAction::AdjustFilterResonance(id, delta))
            } else {
                Action::NoOp
            },
            MixerSection::Lfo => Action::NoOp,
            MixerSection::Output => if c == 0 {
                Action::Mixer(MixerAction::AdjustPan(delta))
            } else if c == 1 {
                Action::Mixer(MixerAction::AdjustLevel(delta))
            } else if c == 2 {
                if delta > 0 {
                    Action::Mixer(MixerAction::CycleOutput)
                } else {
                    Action::Mixer(MixerAction::CycleOutputReverse)
                }
            } else {
                Action::NoOp
            },
        }
    }

    /// The effect under the detail cursor, when the effects section is shown.
    pub open spec fn effect_under_cursor(self, inst: MixerInstrument) -> Option<usize> {
        if self.detail_section == MixerSection::Effects {
            match spec_decode(inst.effect_param_counts@, self.detail_cursor) {
                Some((ei, _)) => Some(ei),
                None => None,
            }
        } else {
            None
        }
    }

    /// The detail view after `cmd` on instrument `inst`.
    pub open spec fn detail_after(self, cmd: MixerCommand, inst: MixerInstrument) -> MixerPane {
        let max = inst.spec_max_cursor(self.detail_section);
        match cmd {
            MixerCommand::Escape | MixerCommand::ClearSend => MixerPane {
                detail_mode: None,
                send_target: None,
                ..self
            },
            MixerCommand::Section => MixerPane {
                detail_section: self.detail_section.spec_next(),
                detail_cursor: 0,
                ..self
            },
            MixerCommand::SectionPrev => MixerPane {
                detail_section: self.detail_section.spec_prev(),
                detail_cursor: 0,
                ..self
            },
            MixerCommand::LevelUp | MixerCommand::Prev => if self.detail_cursor > 0 {
                MixerPane { detail_cursor: (self.detail_cursor - 1) as usize, ..self }
            } else {
                self
            },
            MixerCommand::LevelDown | MixerCommand::Next => if self.detail_cursor < max {
                MixerPane { detail_cursor: (self.detail_cursor + 1) as usize, ..self }
            } else {
                self
            },
            MixerCommand::RemoveEffect => if self.effect_under_cursor(inst) is Some {
                let max_after = if max == 0 { 0 } else { (max - 1) as usize };
                if self.detail_cursor > max_after {
                    MixerPane { detail_cursor: max_after, ..self }
                } else {
                    self
                }
            } else {
                self
            },
            MixerCommand::SendNext => if self.detail_section == MixerSection::Sends && self.detail_cursor < max {
                MixerPane { detail_cursor: (self.detail_cursor + 1) as usize, ..self }
            } else {
                self
            },
            MixerCommand::SendPrev => if self.detail_section == MixerSection::Sends && self.detail_cursor > 0 {
                MixerPane { detail_cursor: (self.detail_cursor - 1) as usize, ..self }
            } else {
                self
            },
            _ => self,
        }
    }

    /// What the detail view asks for after `cmd` on instrument `inst`.
    pub open spec fn detail_emits(self, cmd: MixerCommand, inst: MixerInstrument) -> Action {
        let id = inst.id;
        match cmd {
            MixerCommand::LevelUpBig | MixerCommand::First => self.adjust_emits(inst, 5),
            MixerCommand::LevelDownBig | MixerCommand::Last => self.adjust_emits(inst, -5i32),
            MixerCommand::Increase | MixerCommand::FineRight => self.adjust_emits(inst, 1),
            MixerCommand::Decrease | MixerCommand::FineLeft => self.adjust_emits(inst, -1i32),
            MixerCommand::Mute => Action::Mixer(MixerAction::ToggleMute),
            MixerCommand::Solo => Action::Mixer(MixerAction::ToggleSolo),
            MixerCommand::Output => Action::Mixer(MixerAction::CycleOutput),
            MixerCommand::OutputRev => Action::Mixer(MixerAction::CycleOutputReverse),
            MixerCommand::AddEffect => Action::Nav(NavAction::PushPane("add_effect")),
            MixerCommand::RemoveEffect => match self.effect_under_cursor(inst) {
                Some(ei) => Action::Instrument(InstrumentAction::RemoveEffect(id, ei)),
                None => Action::NoOp,
            },
            MixerCommand::ToggleEffect => match self.effect_under_cursor(inst) {
                Some(ei) => Action::Instrument(InstrumentAction::ToggleEffectBypass(id, ei)),
                None => Action::NoOp,
            },
            MixerCommand::ToggleFilter => Action::Instrument(InstrumentAction::ToggleFilter(id)),
            MixerCommand::CycleFilterType => Action::Instrument(InstrumentAction::CycleFilterType(id)),
            MixerCommand::MoveUp => match self.effect_under_cursor(inst) {
                Some(ei) => if ei > 0 {
                    Action::Instrument(InstrumentAction::MoveEffect(id, ei, -1i8))
                } else {
                    Action::NoOp
                },
                None => Action::NoOp,
            },
            MixerCommand::MoveDown => match self.effect_under_cursor(inst) {
                Some(ei) => Action::Instrument(InstrumentAction::MoveEffect(id, ei, 1)),
                None => Action::NoOp,
            },
            MixerCommand::PanLeft => Action::Mixer(MixerAction::AdjustPan(-5i32)),
            MixerCommand::PanRight => Action::Mixer(MixerAction::AdjustPan(5)),
            MixerCommand::SendToggle => if self.detail_section == MixerSection::Sends
                && self.detail_cursor < inst.send_buses@.len() {
                Action::Mixer(MixerAction::ToggleSend(inst.send_buses@[self.detail_cursor as int]))
            } else {
                Action::NoOp
            },
            _ => Action::NoOp,
        }
    }

    fn adjust_detail_param(&self, inst: &MixerInstrument, delta: i32) -> (r: Action)
        ensures
            r == self.adjust_emits(*inst, delta),
    {
        let id = inst.id;
        let c = self.detail_cursor;
        match self.detail_section {
            MixerSection::Effects => {
                match decode_effect_cursor(&inst.effect_param_counts, c) {
                    Some((ei, Some(pi))) => Action::Instrument(InstrumentAction::AdjustEffectParam(id, ei, pi, delta)),
                    _ => Action::NoOp,
                }
            },
            MixerSection::Sends => {
                if c < inst.send_buses.len() {
                    Action::Mixer(MixerAction::AdjustSend(inst.send_buses[c], delta))
                } else {
                    Action::NoOp
                }
            },
            MixerSection::Filter => {
                if c == 0 {
                    Action::Instrument(InstrumentAction::CycleFilterType(id))
                } else if c == 1 {
                    Action::Instrument(InstrumentAction::AdjustFilterCutoff(id, delta))
                } else if c == 2 {
                    Action::Instrument(InstrumentAction::AdjustFilterResonance(id, delta))
                } else {
                    Action::NoOp
                }
            },
            MixerSection::Lfo => Action::NoOp,
            MixerSection::Output => {
                if c == 0 {
                    Action::Mixer(MixerAction::AdjustPan(delta))
                } else if c == 1 {
                    Action::Mixer(MixerAction::AdjustLevel(delta))
                } else if c == 2 {
                    if delta > 0 {
                        Action::Mixer(MixerAction::CycleOutput)
                    } else {
                        Action::Mixer(MixerAction::CycleOutputReverse)
                    }
                } else {
                    Action::NoOp
                }
            },
        }
    }

    fn effect_at_cursor(&self, inst: &MixerInstrument) -> (r: Option<usize>)
        ensures
            r == self.effect_under_cursor(*inst),
    {
        if self.detail_section == MixerSection::Effects {
            match decode_effect_cursor(&inst.effect_param_counts, self.detail_cursor) {
                Some((ei, _)) => Some(ei),
                None => None,
            }
        } else {
            None
        }
    }

    fn handle_detail(&mut self, cmd: MixerCommand, inst: &MixerInstrument) -> (r: Action)
        requires
            inst.rows_fit(),
        ensures
            *final(self) == old(self).detail_after(cmd, *inst),
            r == old(self).detail_emits(cmd, *inst),
    {
        let id = inst.id;
        match cmd {
            MixerCommand::Escape | MixerCommand::ClearSend => {
                self.detail_mode = None;
                self.send_target = None;
                Action::NoOp
            },
            MixerCommand::Section => {
                self.detail_section = self.detail_section.next();
                self.detail_cursor = 0;
                Action::NoOp
            },
            MixerCommand::SectionPrev => {
                self.detail_section = self.detail_section.prev();
                self.detail_cursor = 0;
                Action::NoOp
            },
            MixerCommand::LevelUp | MixerCommand::Prev => {
                if self.detail_cursor > 0 {
                    self.detail_cursor = self.detail_cursor - 1;
                }
                Action::NoOp
            },
            MixerCommand::LevelDown | MixerCommand::Next => {
                let max = inst.max_cursor(self.detail_section);
                if self.detail_cursor < max {
                    self.detail_cursor = self.detail_cursor + 1;
                }
                Action::NoOp
            },
            MixerCommand::LevelUpBig | MixerCommand::First => self.adjust_detail_param(inst, 5),
            MixerCommand::LevelDownBig | MixerCommand::Last => self.adjust_detail_param(inst, -5),
            MixerCommand::Increase | MixerCommand::FineRight => self.adjust_detail_param(inst, 1),
            MixerCommand::Decrease | MixerCommand::FineLeft => self.adjust_detail_param(inst, -1),
            MixerCommand::Mute => Action::Mixer(MixerAction::ToggleMute),
            MixerCommand::Solo => Action::Mixer(MixerAction::ToggleSolo),
            MixerCommand::Output => Action::Mixer(MixerAction::CycleOutput),
            MixerCommand::OutputRev => Action::Mixer(MixerAction::CycleOutputReverse),
            MixerCommand::AddEffect => Action::Nav(NavAction::PushPane("add_effect")),
            MixerCommand::RemoveEffect => {
                match self.effect_at_cursor(inst) {
                    Some(ei) => {
                        let max = inst.max_cursor(self.detail_section);
                        let max_after = max.saturating_sub(1);
                        if self.detail_cursor > max_after {
                            self.detail_cursor = max_after;
                        }
                        Action::Instrument(InstrumentAction::RemoveEffect(id, ei))
                    },
                    None => Action::NoOp,
                }
            },
            MixerCommand::ToggleEffect => {
                match self.effect_at_cursor(inst) {
                    Some(ei) => Action::Instrument(InstrumentAction::ToggleEffectBypass(id, ei)),
                    None => Action::NoOp,
                }
            },
            MixerCommand::ToggleFilter => Action::Instrument(InstrumentAction::ToggleFilter(id)),
            MixerCommand::CycleFilterType => Action::Instrument(InstrumentAction::CycleFilterType(id)),
            MixerCommand::MoveUp => {
                match self.effect_at_cursor(inst) {
                    Some(ei) => {
                        if ei > 0 {
                            Action::Instrument(InstrumentAction::MoveEffect(id, ei, -1))
                        } else {
                            Action::NoOp
                        }
                    },
                    None => Action::NoOp,
                }
            },
            MixerCommand::MoveDown => {
                match self.effect_at_cursor(inst) {
                    Some(ei) => Action::Instrument(InstrumentAction::MoveEffect(id, ei, 1)),
                    None => Action::NoOp,
                }
            },
            MixerCommand::PanLeft => Action::Mixer(MixerAction::AdjustPan(-5)),
            MixerCommand::PanRight => Action::Mixer(MixerAction::AdjustPan(5)),
            MixerCommand::SendNext => {
                if self.detail_section == MixerSection::Sends {
                    let max = inst.max_cursor(self.detail_section);
                    if self.detail_cursor < max {
                        self.detail_cursor = self.detail_cursor + 1;
                    }
                }
                Action::NoOp
            },
            MixerCommand::SendPrev => {
                if self.detail_section == MixerSection::Sends {
                    if self.detail_cursor > 0 {
                        self.detail_cursor = self.detail_cursor - 1;
                    }
                }
                Action::NoOp
            },
            MixerCommand::SendToggle => {
                if self.detail_section == MixerSection::Sends && self.detail_cursor < inst.send_buses.len() {
                    Action::Mixer(MixerAction::ToggleSend(inst.send_buses[self.detail_cursor]))
                } else {
                    Action::NoOp
                }
            },
            _ => Action::NoOp,
        }
    }

    /// Handles one action string. In the overview it moves the selection, changes
    /// levels (or the send of the target bus), cycles the send target, or opens the
    /// detail view of the selected instrument; in the detail view it browses and
    /// edits the instrument `instruments[detail_mode]`, and leaves the detail view
    /// when that instrument no longer exists.
    pub fn handle_action(&mut self, action: &str, selection: MixerSelection, instruments: &Vec<MixerInstrument>) -> (r: Action)
        requires
            forall|i: int| 0 <= i < instruments@.len() ==> #[trigger] instruments@[i].rows_fit(),
            old(self).detail_mode is None && spec_mixer_command(action@) == MixerCommand::SendNext
                ==> old(self).send_target != Some(255u8),
            old(self).detail_mode is None && spec_mixer_command(action@) == MixerCommand::SendPrev
                ==> old(self).send_target != Some(0u8),
        ensures
            ({
                let cmd = spec_mixer_command(action@);
                match old(self).detail_mode {
                    None => *final(self) == old(self).overview_after(cmd, selection, instruments@.len() as usize)
                        && r == old(self).overview_emits(cmd),
                    Some(idx) => if idx < instruments@.len() {
                        *final(self) == old(self).detail_after(cmd, instruments@[idx as int])
                            && r == old(self).detail_emits(cmd, instruments@[idx as int])
                    } else {
                        *final(self) == (MixerPane { detail_mode: None, ..*old(self) }) && r == Action::NoOp
                    },
                }
            }),
    {
        let cmd = mixer_command(action);
        match self.detail_mode {
            Some(idx) => {
                if idx < instruments.len() {
                    return self.handle_detail(cmd, &instruments[idx]);
                } else {
                    self.detail_mode = None;
                    return Action::NoOp;
                }
            },
            None => {},
        }
        match cmd {
            MixerCommand::Prev => {
                self.send_target = None;
                Action::Mixer(MixerAction::Move(-1))
            },
            MixerCommand::Next => {
                self.send_target = None;
                Action::Mixer(MixerAction::Move(1))
            },
            MixerCommand::First => Action::Mixer(MixerAction::Jump(1)),
            MixerCommand::Last => Action::Mixer(MixerAction::Jump(-1)),
            MixerCommand::LevelUp => self.level_change_exec(5),
            MixerCommand::LevelDown => self.level_change_exec(-5),
            MixerCommand::LevelUpBig => self.level_change_exec(10),
            MixerCommand::LevelDownBig => self.level_change_exec(-10),
            MixerCommand::Mute => Action::Mixer(MixerAction::ToggleMute),
            MixerCommand::Solo => Action::Mixer(MixerAction::ToggleSolo),
            MixerCommand::Output => Action::Mixer(MixerAction::CycleOutput),
            MixerCommand::OutputRev => Action::Mixer(MixerAction::CycleOutputReverse),
            MixerCommand::Section => {
                self.send_target = None;
                Action::Mixer(MixerAction::CycleSection)
            },
            MixerCommand::SendNext => {
                self.send_target = match self.send_target {
                    None => Some(1),
                    Some(n) => if n == MAX_BUS {
                        None
                    } else {
                        Some(n + 1)
                    },
                };
                Action::NoOp
            },
            MixerCommand::SendPrev => {
                self.send_target = match self.send_target {
                    None => Some(MAX_BUS),
                    Some(n) => if n == 1 {
                        None
                    } else {
                        Some(n - 1)
                    },
                };
                Action::NoOp
            },
            MixerCommand::SendToggle => {
                match self.send_target {
                    Some(bus) => Action::Mixer(MixerAction::ToggleSend(bus)),
                    None => Action::NoOp,
                }
            },
            MixerCommand::ClearSend | MixerCommand::Escape => {
                self.send_target = None;
                Action::NoOp
            },
            MixerCommand::EnterDetail => {
                match selection {
                    MixerSelection::Instrument(idx) => {
                        if idx < instruments.len() {
                            self.detail_mode = Some(idx);
                            self.detail_section = MixerSection::Effects;
                            self.detail_cursor = 0;
                            self.effect_scroll = 0;
                        }
                    },
                    _ => {},
                }
                Action::NoOp
            },
            _ => Action::NoOp,
        }
    }
}

} // verus!

verus! {

/// Columns of one channel strip in the overview.
pub const CHANNEL_WIDTH: u16 = 8;

/// Rows of a level meter.
pub const METER_HEIGHT: u16 = 12;

/// Width of the overview box: the instrument strips, a separator, the bus strips,
/// a separator, the master strip and the borders.
pub const MIXER_BOX_WIDTH: u16 = 96;

/// Height of the overview box: the meters and the rows around them.
pub const MIXER_BOX_HEIGHT: u16 = 20;

/// What a left click at column `col`, row `row` selects in the overview drawn in
/// `area`, when `selection` is selected, with `instruments` instrument channels and
/// the buses `bus_ids` (in order): the instrument or bus strip under the click
/// (counting from the scrolled-to first strip), the master strip right of the
/// buses, or nothing.
pub open spec fn click_target(
    col: u16,
    row: u16,
    area: ScreenRect,
    selection: MixerSelection,
    instruments: usize,
    bus_ids: Seq<u8>,
) -> Option<MixerSelection> {
    let base = area.x + 2;
    let inst_end = base + NUM_VISIBLE_CHANNELS * CHANNEL_WIDTH;
    let bus_start = inst_end + 2;
    let bus_end = bus_start + NUM_VISIBLE_BUSES * CHANNEL_WIDTH;
    let inst_scroll = match selection {
        MixerSelection::Instrument(i) => spec_scroll_offset(i, instruments, NUM_VISIBLE_CHANNELS),
        _ => 0,
    };
    let bus_scroll = match selection {
        MixerSelection::Bus(id) => spec_scroll_offset((id - 1) as usize, bus_ids.len() as usize, NUM_VISIBLE_BUSES),
        _ => 0,
    };
    let inst_idx = inst_scroll + (col - base) / (CHANNEL_WIDTH as int);
    let bus_idx = bus_scroll + (col - bus_start) / (CHANNEL_WIDTH as int);
    if col < area.x || col >= area.x + area.width || row < area.y || row >= area.y + area.height {
        None
    } else if base <= col < inst_end && inst_idx < instruments {
        Some(MixerSelection::Instrument(inst_idx as usize))
    } else if bus_start <= col < bus_end && bus_idx < bus_ids.len() {
        Some(MixerSelection::Bus(bus_ids[bus_idx]))
    } else if col >= bus_end + 2 {
        Some(MixerSelection::Master)
    } else {
        None
    }
}

impl MixerPane {
    /// A left click on the overview: selecting a strip also drops the send target.
    pub fn handle_click(
        &mut self,
        col: u16,
        row: u16,
        area: ScreenRect,
        selection: MixerSelection,
        instruments: usize,
        bus_ids: &Vec<u8>,
    ) -> (r: Action)
        requires
            selection matches MixerSelection::Bus(id) ==> id >= 1,
            area.x + 200 <= u16::MAX,
            area.x + area.width <= u16::MAX,
            area.y + area.height <= u16::MAX,
            instruments < usize::MAX - 16,
        ensures
            match click_target(col, row, area, selection, instruments, bus_ids@) {
                Some(s) => r == Action::Mixer(MixerAction::SelectAt(s))
                    && *final(self) == (MixerPane { send_target: None, ..*old(self) }),
                None => r == Action::NoOp && *final(self) == *old(self),
            },
    {
        if col < area.x || col >= area.x + area.width || row < area.y || row >= area.y + area.height {
            return Action::NoOp;
        }
        let inst_scroll = match selection {
            MixerSelection::Instrument(i) => calc_scroll_offset(i, instruments, NUM_VISIBLE_CHANNELS),
            _ => 0,
        };
        let bus_scroll = match selection {
            MixerSelection::Bus(id) => calc_scroll_offset((id - 1) as usize, bus_ids.len(), NUM_VISIBLE_BUSES),
            _ => 0,
        };
        let base = area.x + 2;
        let inst_end = base + 64;
        let bus_start = inst_end + 2;
        let bus_end = bus_start + 16;
        proof {
            if let MixerSelection::Instrument(i) = selection {
                assert(spec_scroll_offset(i, instruments, NUM_VISIBLE_CHANNELS) <= instruments);
            }
            if let MixerSelection::Bus(id) = selection {
                assert(spec_scroll_offset((id - 1) as usize, bus_ids@.len() as usize, NUM_VISIBLE_BUSES) <= 255);
            }
        }
        if col >= base && col < inst_end {
            let idx = inst_scroll + ((col - base) / CHANNEL_WIDTH) as usize;
            if idx < instruments {
                self.send_target = None;
                return Action::Mixer(MixerAction::SelectAt(MixerSelection::Instrument(idx)));
            }
        }
        if col >= bus_start && col < bus_end {
            let idx = bus_scroll + ((col - bus_start) / CHANNEL_WIDTH) as usize;
            if idx < bus_ids.len() {
                self.send_target = None;
                return Action::Mixer(MixerAction::SelectAt(MixerSelection::Bus(bus_ids[idx])));
            }
        }
        if col >= bus_end + 2 {
            self.send_target = None;
            return Action::Mixer(MixerAction::SelectAt(MixerSelection::Master));
        }
        Action::NoOp
    }

    /// The mouse wheel over the overview: a level step up or down, on the send to
    /// the send target when there is one.
    pub fn handle_scroll(&self, up: bool) -> (r: Action)
        ensures
            r == match self.send_target {
                Some(bus) => Action::Mixer(MixerAction::AdjustSend(bus, if up { 5i32 } else { -5i32 })),
                None => Action::Mixer(MixerAction::AdjustLevel(if up { 5i32 } else { -5i32 })),
            },
    {
        let delta: i32 = if up { 5 } else { -5 };
        match self.send_target {
            Some(bus) => Action::Mixer(MixerAction::AdjustSend(bus, delta)),
            None => Action::Mixer(MixerAction::AdjustLevel(delta)),
        }
    }
}

} // verus!

verus! {

/// Where the columns of the mixer's detail box lie, inside the box `rect`.
#[derive(Debug, Clone, Copy, PartialEq, Eq, Structural)]
pub struct DetailLayout {
    /// The row of the column headers.
    pub top: u16,
    /// The rows the columns may fill, from `top` on.
    pub height: u16,
    /// The left edges of the effects, sends/filter and output/LFO columns.
    pub effects_x: u16,
    pub sends_x: u16,
    pub output_x: u16,
    /// The row of the filter and LFO headers, half-way down.
    pub lower_y: u16,
}

/// The columns of the detail box `rect`: inside a margin of two columns and one
/// row (and one more row at the bottom), the effects take 40% of the width and
/// the sends and filter 28%, each column followed by a separator.
pub open spec fn spec_detail_layout(rect: ScreenRect) -> DetailLayout {
    let inner_w: int = if rect.width >= 4 { rect.width - 4 } else { 0 };
    let inner_h: int = if rect.height >= 3 { rect.height - 3 } else { 0 };
    let x = rect.x + 2;
    let c1 = inner_w * 40 / 100;
    let c2 = inner_w * 28 / 100;
    DetailLayout {
        top: (rect.y + 1) as u16,
        height: inner_h as u16,
        effects_x: x as u16,
        sends_x: (x + c1 + 1) as u16,
        output_x: (x + c1 + 1 + c2 + 1) as u16,
        lower_y: (rect.y + 1 + inner_h / 2) as u16,
    }
}

/// The columns of the detail box `rect`.
pub fn detail_layout(rect: ScreenRect) -> (r: DetailLayout)
    requires
        rect.x + rect.width + 4 <= u16::MAX,
        rect.y + rect.height + 1 <= u16::MAX,
    ensures
        r == spec_detail_layout(rect),
{
    let inner_w = rect.width.saturating_sub(4);
    let inner_h = rect.height.saturating_sub(3);
    let x = rect.x + 2;
    let c1 = ((inner_w as u32) * 40 / 100) as u16;
    let c2 = ((inner_w as u32) * 28 / 100) as u16;
    assert(c1 + c2 <= inner_w) by (nonlinear_arith)
        requires
            c1 == inner_w * 40 / 100,
            c2 == inner_w * 28 / 100,
    ;
    DetailLayout {
        top: rect.y + 1,
        height: inner_h,
        effects_x: x,
        sends_x: x + c1 + 1,
        output_x: x + c1 + 1 + c2 + 1,
        lower_y: rect.y + 1 + inner_h / 2,
    }
}

/// A line of the effects column: an effect's label (`param` is `None`) or one of
/// its parameters, highlighted or not.
#[derive(Debug, Clone, Copy, PartialEq, Eq, Structural)]
pub struct EffectLine {
    pub effect: usize,
    pub param: Option<usize>,
    pub highlighted: bool,
}

/// What the effects column lists for effects with `counts` parameters: each
/// effect's label, then at most its first four parameters.
pub open spec fn effect_line_keys(counts: Seq<usize>) -> Seq<(usize, Option<usize>)>
    decreases counts.len(),
{
    if counts.len() == 0 {
        Seq::empty()
    } else {
        let e = (counts.len() - 1) as usize;
        let shown: nat = if counts.last() < 4 { counts.last() as nat } else { 4 };
        effect_line_keys(counts.drop_last()) + seq![(e, None::<usize>)] + Seq::new(
            shown,
            |p: int| (e, Some(p as usize)),
        )
    }
}

/// The effects column in `rows` rows below its header: the listed lines, as
/// many as fit, line `k` highlighted when the effects section is active and the
/// cursor is on `k`.
pub open spec fn effect_column(counts: Seq<usize>, active: bool, cursor: usize, rows: int) -> Seq<EffectLine> {
    let keys = effect_line_keys(counts);
    let n: int = if rows <= 0 { 0 } else if keys.len() < rows { keys.len() as int } else { rows };
    Seq::new(
        n as nat,
        |k: int| EffectLine { effect: keys[k].0, param: keys[k].1, highlighted: active && k == cursor },
    )
}

impl MixerPane {
    /// The effects column of the detail view of `inst` in a box of `height`
    /// rows below the column headers (the header row itself included).
    pub fn effect_column_lines(&self, inst: &MixerInstrument, height: u16) -> (r: Vec<EffectLine>)
        ensures
            r@ == effect_column(
                inst.effect_param_counts@,
                self.detail_section == MixerSection::Effects,
                self.detail_cursor,
                height - 1,
            ),
    {
        let counts = &inst.effect_param_counts;
        let mut keys: Vec<(usize, Option<usize>)> = Vec::new();
        let mut e: usize = 0;
        while e < counts.len()
            invariant
                e <= counts@.len(),
                keys@ == effect_line_keys(counts@.take(e as int)),
            decreases counts@.len() - e,
        {
            let ghost before = keys@;
            keys.push((e, None));
            let c = counts[e];
            let shown: usize = if c < 4 { c } else { 4 };
            let mut p: usize = 0;
            while p < shown
                invariant
                    p <= shown,
                    shown <= 4,
                    keys@ == before + seq![(e, None::<usize>)] + Seq::new(p as nat, |q: int| (e, Some(q as usize))),
                decreases shown - p,
            {
                keys.push((e, Some(p)));
                p = p + 1;
                assert(keys@ =~= before + seq![(e, None::<usize>)] + Seq::new(p as nat, |q: int| (e, Some(q as usize))));
            }
            proof {
                let t = counts@.take(e + 1);
                assert(t.drop_last() =~= counts@.take(e as int));
                assert(t.last() == c);
            }
            e = e + 1;
        }
        assert(counts@.take(counts@.len() as int) =~= counts@);
        let rows: usize = if height >= 1 { (height - 1) as usize } else { 0 };
        let n: usize = if keys.len() < rows { keys.len() } else { rows };
        let active = self.detail_section == MixerSection::Effects;
        let mut out: Vec<EffectLine> = Vec::new();
        let mut k: usize = 0;
        while k < n
            invariant
                k <= n,
                n <= keys@.len(),
                out@.len() == k,
                forall|j: int|
                    0 <= j < k ==> #[trigger] out@[j] == (EffectLine {
                        effect: keys@[j].0,
                        param: keys@[j].1,
                        highlighted: active && j == self.detail_cursor,
                    }),
            decreases n - k,
        {
            let (ei, pi) = keys[k];
            out.push(EffectLine { effect: ei, param: pi, highlighted: active && k == self.detail_cursor });
            k = k + 1;
        }
        assert(out@ =~= effect_column(
            inst.effect_param_counts@,
            active,
            self.detail_cursor,
            height - 1,
        ));
        out
    }
}

} // verus!

verus! {

/// `c` repeated `n` times.
pub open spec fn repeated(c: char, n: nat) -> Seq<char> {
    Seq::new(n, |_i: int| c)
}

/// The line of a send in the detail view: an arrow, "B" and the bus number, a
/// bar of five cells of which `level / 20` are full, and the level in percent
/// (or "OFF" when the send is off).
pub open spec fn spec_send_text(bus: u8, level: u8, enabled: bool) -> Seq<char> {
    let full = (level / 20) as nat;
    "\u{2192}B"@ + decimal(bus as nat) + " "@ + repeated('\u{2588}', full) + repeated('\u{2591}', (5 - full) as nat) + " "@
        + if enabled { decimal(level as nat) + "%"@ } else { "OFF"@ }
}

/// The send line of the detail view for a send to `bus` at `level` hundredths.
pub fn send_text(bus: u8, level: u8, enabled: bool) -> (r: String)
    requires
        level <= 100,
    ensures
        r@ == spec_send_text(bus, level, enabled),
{
    let full = level / 20;
    let mut s = String::from_str("\u{2192}B");
    push_decimal(&mut s, bus as u64);
    s.append(" ");
    let mut i: u8 = 0;
    while i < full
        invariant
            i <= full,
            full == level / 20,
            s@ == "\u{2192}B"@ + decimal(bus as nat) + " "@ + repeated('\u{2588}', i as nat),
        decreases full - i,
    {
        s.append("\u{2588}");
        i = i + 1;
        proof {
            reveal_strlit("\u{2588}");
            assert(repeated('\u{2588}', i as nat) =~= repeated('\u{2588}', (i - 1) as nat).push('\u{2588}'));
        }
    }
    let ghost head = s@;
    let mut k: u8 = 0;
    while k < 5 - full
        invariant
            k <= 5 - full,
            full == level / 20,
            full <= 5,
            s@ == head + repeated('\u{2591}', k as nat),
        decreases 5 - full - k,
    {
        s.append("\u{2591}");
        k = k + 1;
        proof {
            reveal_strlit("\u{2591}");
            assert(repeated('\u{2591}', k as nat) =~= repeated('\u{2591}', (k - 1) as nat).push('\u{2591}'));
        }
    }
    s.append(" ");
    if enabled {
        push_decimal(&mut s, level as u64);
        s.append("%");
    } else {
        s.append("OFF");
    }
    proof {
        reveal_strlit("\u{2192}B");
        reveal_strlit(" ");
        reveal_strlit("%");
        reveal_strlit("OFF");
        assert(s@ =~= spec_send_text(bus, level, enabled));
    }
    s
}

/// Two digits of `n` (below 100), with a leading zero.
pub open spec fn two_digits(n: nat) -> Seq<char> {
    if n < 10 { "0"@ + decimal(n) } else { decimal(n) }
}

/// The pan line of the detail view: "Pan: ", the sign, and the pan in units
/// with two decimals (from -1.00 to +1.00).
pub open spec fn spec_pan_text(pan: i8) -> Seq<char> {
    let a: nat = if pan < 0 { (-pan) as nat } else { pan as nat };
    "Pan: "@ + (if pan < 0 { "-"@ } else { "+"@ }) + decimal(a / 100) + "."@ + two_digits(a % 100)
}

/// The pan line of the detail view for a pan of `pan` hundredths.
pub fn pan_text(pan: i8) -> (r: String)
    ensures
        r@ == spec_pan_text(pan),
{
    let a: u64 = if pan < 0 { (-(pan as i64)) as u64 } else { pan as u64 };
    let mut s = String::from_str("Pan: ");
    if pan < 0 {
        s.append("-");
    } else {
        s.append("+");
    }
    push_decimal(&mut s, a / 100);
    s.append(".");
    if a % 100 < 10 {
        s.append("0");
    }
    push_decimal(&mut s, a % 100);
    proof {
        reveal_strlit("Pan: ");
        reveal_strlit("-");
        reveal_strlit("+");
        reveal_strlit(".");
        reveal_strlit("0");
        assert(s@ =~= spec_pan_text(pan));
    }
    s
}

/// The output line of the detail view: "\u{25B8} Master", or the bus.
pub open spec fn spec_output_text(bus: Option<u8>) -> Seq<char> {
    match bus {
        None => "\u{25B8} Master"@,
        Some(b) => "\u{25B8} Bus "@ + decimal(b as nat),
    }
}

/// The output line of the detail view for an output to the master or a bus.
pub fn output_text(bus: Option<u8>) -> (r: String)
    ensures
        r@ == spec_output_text(bus),
{
    match bus {
        None => String::from_str("\u{25B8} Master"),
        Some(b) => {
            let mut s = String::from_str("\u{25B8} Bus ");
            push_decimal(&mut s, b as u64);
            s
        },
    }
}

} // verus!
