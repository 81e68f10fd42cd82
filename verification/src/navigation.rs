//! Application-wide navigation: the back/forward view history, selecting an
//! instrument by number (also by typing two digits), choosing which pane edits an
//! instrument, and naming global commands.

use vstd::prelude::*;
use crate::text::str_eq;

verus! {

/// What is on screen: the active pane, the selected instrument, and the tab of the
/// instrument editor.
#[derive(Debug, Clone, Copy, PartialEq, Eq)]
pub struct ViewState {
    pub pane_id: &'static str,
    pub inst_selection: Option<usize>,
    pub edit_tab: u8,
}

/// The views visited by pane switches, and the position in them.
#[derive(Debug, Clone)]
pub struct ViewHistory {
    pub views: Vec<ViewState>,
    pub cursor: usize,
}

impl ViewHistory {
    /// The cursor points into the history, or is 0 when the history is empty.
    pub open spec fn wf(&self) -> bool {
        if self.views@.len() == 0 {
            self.cursor == 0
        } else {
            self.cursor < self.views@.len()
        }
    }

    /// The cursor is on the most recent view.
    pub open spec fn at_front(&self) -> bool {
        self.views@.len() > 0 && self.cursor == self.views@.len() - 1
    }

    /// An empty history.
    pub fn new() -> (h: ViewHistory)
        ensures
            h.views@.len() == 0,
            h.cursor == 0,
            h.wf(),
    {
        ViewHistory { views: Vec::new(), cursor: 0 }
    }

    /// Records a pane switch from `current` to `next`: `current` replaces the view at
    /// the cursor (or starts the history), the views after the cursor are dropped,
    /// and `next` becomes the most recent view, under the cursor.
    pub fn record_switch(&mut self, current: ViewState, next: ViewState)
        requires
            old(self).wf(),
        ensures
            final(self).wf(),
            final(self).at_front(),
            old(self).views@.len() == 0 ==> final(self).views@ == seq![current, next],
            old(self).views@.len() > 0 ==> final(self).views@ == old(self).views@.subrange(
                0,
                old(self).cursor as int,
            ).push(current).push(next),
    {
        if self.views.len() == 0 {
            self.views.push(current);
        } else {
            let c = self.cursor;
            self.views.set(c, current);
        }
        let keep = self.cursor + 1;
        self.views.truncate(keep);
        self.views.push(next);
        self.cursor = self.views.len() - 1;
        proof {
            if old(self).views@.len() == 0 {
                assert(self.views@ =~= seq![current, next]);
            } else {
                assert(self.views@ =~= old(self).views@.subrange(0, old(self).cursor as int).push(
                    current,
                ).push(next));
            }
        }
    }

    /// A pane switch from `current` to `next` as the global keys make it: the
    /// switch is recorded as `record_switch` does, and entering the mixer
    /// selects the channel of the selected instrument. Returns the instrument
    /// whose mixer channel becomes selected, if any.
    pub fn switch_to_pane(&mut self, current: ViewState, next: ViewState, selected: Option<usize>) -> (mixer_instrument: Option<usize>)
        requires
            old(self).wf(),
        ensures
            final(self).wf(),
            final(self).at_front(),
            old(self).views@.len() == 0 ==> final(self).views@ == seq![current, next],
            old(self).views@.len() > 0 ==> final(self).views@ == old(self).views@.subrange(
                0,
                old(self).cursor as int,
            ).push(current).push(next),
            mixer_instrument == if next.pane_id@ == "mixer"@ { selected } else { None::<usize> },
    {
        self.record_switch(current, next);
        if str_eq(next.pane_id, "mixer") { selected } else { None }
    }

    /// Steps back from `current`. Returns the view to restore, if the cursor moved.
    pub fn nav_back(&mut self, current: ViewState) -> (r: Option<ViewState>)
        requires
            old(self).wf(),
        ensures
            final(self).wf(),
            old(self).views@.len() == 0 ==> *final(self) == *old(self) && r is None,
            old(self).views@.len() > 0 ==> {
                &&& final(self).views@ == old(self).views@.update(old(self).cursor as int, current)
                &&& final(self).cursor == back_cursor(old(self).views@.len(), old(self).cursor)
                &&& r == if final(self).cursor == old(self).cursor {
                    None
                } else {
                    Some(final(self).views@[final(self).cursor as int])
                }
            },
    {
        if self.views.len() == 0 {
            return None;
        }
        let c = self.cursor;
        self.views.set(c, current);
        let at_front = self.cursor == self.views.len() - 1;
        if at_front {
            if self.cursor > 0 {
                self.cursor = self.cursor - 1;
                return Some(self.views[self.cursor]);
            }
        } else {
            if self.cursor < self.views.len() - 1 {
                self.cursor = self.cursor + 1;
                return Some(self.views[self.cursor]);
            }
        }
        None
    }

    /// Steps forward from `current`. Returns the view to restore, if the cursor moved.
    pub fn nav_forward(&mut self, current: ViewState) -> (r: Option<ViewState>)
        requires
            old(self).wf(),
        ensures
            final(self).wf(),
            old(self).views@.len() == 0 ==> *final(self) == *old(self) && r is None,
            old(self).views@.len() > 0 ==> {
                &&& final(self).views@ == old(self).views@.update(old(self).cursor as int, current)
                &&& final(self).cursor == forward_cursor(old(self).views@.len(), old(self).cursor)
                &&& r == if final(self).cursor == old(self).cursor {
                    None
                } else {
                    Some(final(self).views@[final(self).cursor as int])
                }
            },
    {
        if self.views.len() == 0 {
            return None;
        }
        let c = self.cursor;
        self.views.set(c, current);
        let last = self.views.len() - 1;
        let at_front = self.cursor == last;
        let target = if at_front {
            self.cursor.saturating_sub(2)
        } else {
            if self.cursor + 2 > last {
                last
            } else {
                self.cursor + 2
            }
        };
        if target != self.cursor {
            self.cursor = target;
            return Some(self.views[self.cursor]);
        }
        None
    }
}

/// Where a "back" step moves the cursor of a history of `len` views: from the most
/// recent view one older (staying put at the oldest), from elsewhere one newer.
pub open spec fn back_cursor(len: nat, cursor: usize) -> usize {
    if len > 0 && cursor == len - 1 {
        if cursor > 0 {
            (cursor - 1) as usize
        } else {
            cursor
        }
    } else {
        (cursor + 1) as usize
    }
}

/// Where a "forward" step moves the cursor of a history of `len` views: from the most
/// recent view two older (not below the oldest), from elsewhere two newer (not past
/// the most recent).
pub open spec fn forward_cursor(len: nat, cursor: usize) -> usize {
    if len > 0 && cursor == len - 1 {
        if cursor < 2 {
            0
        } else {
            (cursor - 2) as usize
        }
    } else {
        if cursor + 2 > len - 1 {
            (len - 1) as usize
        } else {
            (cursor + 2) as usize
        }
    }
}

/// Going back from the most recent view and then forward from the view that came
/// back returns the cursor to where it was and gives back the view that was left.
pub proof fn lemma_back_then_forward(
    views: Seq<ViewState>,
    cursor: usize,
    current: ViewState,
    restored: ViewState,
)
    requires
        views.len() > 0,
        cursor == views.len() - 1,
        cursor > 0,
    ensures
        ({
            let c1 = back_cursor(views.len(), cursor);
            let views1 = views.update(cursor as int, current);
            let views2 = views1.update(c1 as int, restored);
            &&& c1 != cursor
            &&& forward_cursor(views1.len(), c1) == cursor
            &&& views2[cursor as int] == current
        }),
{
}

/// What a key does to the two-digit instrument selection.
#[derive(Debug, Clone, Copy, PartialEq, Eq)]
pub enum InstrumentSelectMode {
    Normal,
    WaitingFirstDigit,
    WaitingSecondDigit(u8),
}

/// The outcome of a key in the two-digit selection.
#[derive(Debug, Clone, Copy, PartialEq, Eq)]
pub enum DigitOutcome {
    /// The key was taken by the selection; nothing else happens.
    Consumed,
    /// Select the instrument with this 1-based number; the key is taken.
    Select(usize),
    /// The key is not part of a selection and goes on to normal handling.
    PassThrough,
}

/// The value of an ASCII decimal digit character.
pub open spec fn digit_value(c: char) -> Option<u32> {
    if '0' <= c && c <= '9' {
        Some((c as u32 - '0' as u32) as u32)
    } else {
        None
    }
}

/// The value of a decimal digit character (`char::to_digit(10)`).
pub fn to_digit(c: char) -> (r: Option<u32>)
    ensures
        r == digit_value(c),
{
    if '0' <= c && c <= '9' {
        Some(c as u32 - '0' as u32)
    } else {
        None
    }
}

/// The mode and outcome after key `key` (`None` for a non-character key) in `mode`.
pub open spec fn spec_select_step(mode: InstrumentSelectMode, key: Option<char>) -> (
    InstrumentSelectMode,
    DigitOutcome,
) {
    let d = match key {
        Some(c) => digit_value(c),
        None => None,
    };
    match mode {
        InstrumentSelectMode::Normal => (InstrumentSelectMode::Normal, DigitOutcome::PassThrough),
        InstrumentSelectMode::WaitingFirstDigit => match d {
            Some(v) => (InstrumentSelectMode::WaitingSecondDigit(v as u8), DigitOutcome::Consumed),
            None => (InstrumentSelectMode::Normal, DigitOutcome::PassThrough),
        },
        InstrumentSelectMode::WaitingSecondDigit(first) => match d {
            Some(v) => {
                let combined = first * 10 + v;
                (
                    InstrumentSelectMode::Normal,
                    DigitOutcome::Select(if combined == 0 { 10 } else { combined as usize }),
                )
            },
            None => (InstrumentSelectMode::Normal, DigitOutcome::PassThrough),
        },
    }
}

/// Feeds one key to the two-digit selection: a first digit is remembered, a second
/// digit selects instrument `first * 10 + second` ("00" selects 10), anything else
/// cancels and passes the key on.
pub fn select_step(mode: InstrumentSelectMode, key: Option<char>) -> (r: (InstrumentSelectMode, DigitOutcome))
    requires
        mode matches InstrumentSelectMode::WaitingSecondDigit(f) ==> f < 10,
    ensures
        r == spec_select_step(mode, key),
        r.0 matches InstrumentSelectMode::WaitingSecondDigit(f) ==> f < 10,
{
    let d = match key {
        Some(c) => to_digit(c),
        None => None,
    };
    match mode {
        InstrumentSelectMode::Normal => (InstrumentSelectMode::Normal, DigitOutcome::PassThrough),
        InstrumentSelectMode::WaitingFirstDigit => match d {
            Some(v) => (InstrumentSelectMode::WaitingSecondDigit(v as u8), DigitOutcome::Consumed),
            None => (InstrumentSelectMode::Normal, DigitOutcome::PassThrough),
        },
        InstrumentSelectMode::WaitingSecondDigit(first) => match d {
            Some(v) => {
                let combined = first * 10 + v as u8;
                let target: usize = if combined == 0 {
                    10
                } else {
                    combined as usize
                };
                (InstrumentSelectMode::Normal, DigitOutcome::Select(target))
            },
            None => (InstrumentSelectMode::Normal, DigitOutcome::PassThrough),
        },
    }
}

/// The index an instrument number (1-based; 0 acts as 1) selects among `count`
/// instruments, if there is such an instrument.
pub fn selection_for_number(number: usize, count: usize) -> (r: Option<usize>)
    ensures
        r == if (if number == 0 { 0 } else { number - 1 }) < count {
            Some((if number == 0 { 0 } else { number - 1 }) as usize)
        } else {
            None::<usize>
        },
{
    let idx = number.saturating_sub(1);
    if idx < count {
        Some(idx)
    } else {
        None
    }
}

/// The position of instrument `id` in the piano roll's track order, if it has a track.
pub fn track_of_instrument(track_order: &Vec<u32>, id: u32) -> (r: Option<usize>)
    ensures
        match r {
            Some(i) => i < track_order@.len() && track_order@[i as int] == id && forall|j: int|
                0 <= j < i ==> track_order@[j] != id,
            None => forall|j: int| 0 <= j < track_order@.len() ==> track_order@[j] != id,
        },
{
    let mut i: usize = 0;
    while i < track_order.len()
        invariant
            i <= track_order@.len(),
            forall|j: int| 0 <= j < i ==> track_order@[j] != id,
        decreases track_order@.len() - i,
    {
        if track_order[i] == id {
            return Some(i);
        }
        i = i + 1;
    }
    None
}

/// The pane that edits the notes of an instrument: the step sequencer for drum
/// kits, the waveform view for audio and bus inputs, else the piano roll.
pub open spec fn spec_editor_pane(is_kit: bool, is_audio_input: bool, is_bus_in: bool) -> Seq<char> {
    if is_kit {
        "sequencer"@
    } else if is_audio_input || is_bus_in {
        "waveform"@
    } else {
        "piano_roll"@
    }
}

/// The pane that edits the notes of an instrument of the given source kind.
pub fn editor_pane(is_kit: bool, is_audio_input: bool, is_bus_in: bool) -> (r: &'static str)
    ensures
        r@ == spec_editor_pane(is_kit, is_audio_input, is_bus_in),
{
    if is_kit {
        "sequencer"
    } else if is_audio_input || is_bus_in {
        "waveform"
    } else {
        "piano_roll"
    }
}

/// Whether a pane belongs to the note-editing family that follows the instrument
/// selection.
pub fn is_editor_family(pane_id: &str) -> (r: bool)
    ensures
        r == (pane_id@ == "piano_roll"@ || pane_id@ == "sequencer"@ || pane_id@ == "waveform"@),
{
    str_eq(pane_id, "piano_roll") || str_eq(pane_id, "sequencer") || str_eq(pane_id, "waveform")
}

/// An instrument as following the selection reads it: its id and source kind.
#[derive(Debug, Clone, Copy, PartialEq, Eq)]
pub struct InstrumentKind {
    pub id: u32,
    pub is_kit: bool,
    pub is_audio_input: bool,
    pub is_bus_in: bool,
}

/// What following a newly selected instrument asks of the panes: the piano
/// roll's track to edit, the mixer channel to select, and the note editor to
/// switch to.
#[derive(Debug, Clone, Copy, PartialEq, Eq)]
pub struct SelectionSync {
    pub track: Option<usize>,
    pub mixer_instrument: Option<usize>,
    pub switch_to: Option<&'static str>,
}

/// `r` is the first position of `id` in `order`, if it occurs.
pub open spec fn first_position(order: Seq<u32>, id: u32, r: Option<usize>) -> bool {
    match r {
        Some(i) => i < order.len() && order[i as int] == id && forall|j: int| 0 <= j < i ==> order[j] != id,
        None => forall|j: int| 0 <= j < order.len() ==> order[j] != id,
    }
}

/// `s` follows the selection of instrument `i` from pane `active`.
pub open spec fn follows_selection(
    s: SelectionSync,
    i: usize,
    instruments: Seq<InstrumentKind>,
    track_order: Seq<u32>,
    active: Seq<char>,
    mixer_on_instrument: bool,
) -> bool {
    let inst = instruments[i as int];
    let editors = active == "piano_roll"@ || active == "sequencer"@ || active == "waveform"@;
    let target = spec_editor_pane(inst.is_kit, inst.is_audio_input, inst.is_bus_in);
    &&& first_position(track_order, inst.id, s.track)
    &&& s.mixer_instrument == (if active == "mixer"@ && mixer_on_instrument { Some(i) } else { None::<usize> })
    &&& match s.switch_to {
        Some(t) => editors && active != target && t@ == target,
        None => !editors || active == target,
    }
}

/// Follows the instrument selection `selected` from pane `active`: the piano
/// roll edits the instrument's track (when it has one), the mixer selects its
/// channel (when the mixer is active with a channel selected), and a note
/// editor switches to the editor the instrument's source calls for. Nothing
/// happens without a selected instrument.
pub fn sync_piano_roll_to_selection(
    selected: Option<usize>,
    instruments: &Vec<InstrumentKind>,
    track_order: &Vec<u32>,
    active: &str,
    mixer_on_instrument: bool,
) -> (s: SelectionSync)
    ensures
        match selected {
            Some(i) => if i < instruments@.len() {
                follows_selection(s, i, instruments@, track_order@, active@, mixer_on_instrument)
            } else {
                s == (SelectionSync { track: None, mixer_instrument: None, switch_to: None })
            },
            None => s == (SelectionSync { track: None, mixer_instrument: None, switch_to: None }),
        },
{
    let none = SelectionSync { track: None, mixer_instrument: None, switch_to: None };
    let i = match selected {
        Some(i) => i,
        None => return none,
    };
    if i >= instruments.len() {
        return none;
    }
    let inst = instruments[i];
    let track = track_of_instrument(track_order, inst.id);
    let mixer_instrument = if str_eq(active, "mixer") && mixer_on_instrument { Some(i) } else { None };
    let switch_to = if is_editor_family(active) {
        let target = editor_pane(inst.is_kit, inst.is_audio_input, inst.is_bus_in);
        if str_eq(active, target) { None } else { Some(target) }
    } else {
        None
    };
    SelectionSync { track, mixer_instrument, switch_to }
}

/// Selects the instrument with the 1-based `number` (0 acts as 1), when there
/// is one: its index, how the panes follow it, and whether the instrument
/// editor (being the active pane) reloads it.
pub fn select_instrument(
    number: usize,
    instruments: &Vec<InstrumentKind>,
    track_order: &Vec<u32>,
    active: &str,
    mixer_on_instrument: bool,
) -> (r: Option<(usize, SelectionSync, bool)>)
    ensures
        ({
            let idx: int = if number == 0 { 0 } else { number - 1 };
            match r {
                None => idx >= instruments@.len(),
                Some((i, s, reload)) => i == idx && i < instruments@.len() && follows_selection(
                    s,
                    i,
                    instruments@,
                    track_order@,
                    active@,
                    mixer_on_instrument,
                ) && reload == (active@ == "instrument_edit"@),
            }
        }),
{
    match selection_for_number(number, instruments.len()) {
        None => None,
        Some(i) => {
            let s = sync_piano_roll_to_selection(Some(i), instruments, track_order, active, mixer_on_instrument);
            Some((i, s, str_eq(active, "instrument_edit")))
        },
    }
}

/// What a pane switch does to the performance keyboard modes: carry them over
/// to the new pane, or drop them (and leave performance mode) when the new pane
/// has none.
#[derive(Debug, Clone, Copy, PartialEq, Eq)]
pub struct LayerSync {
    pub activate_piano: bool,
    pub activate_pad: bool,
    pub drop_modes: bool,
}

/// The follow-up of a pane switch, given whether the piano and pad modes were
/// on and whether the new pane supports performance mode.
pub fn sync_pane_layer(had_piano: bool, had_pad: bool, supports_performance: bool) -> (r: LayerSync)
    ensures
        r.activate_piano == (had_piano && supports_performance),
        r.activate_pad == (had_pad && supports_performance),
        r.drop_modes == ((had_piano || had_pad) && !supports_performance),
{
    if had_piano || had_pad {
        if supports_performance {
            LayerSync { activate_piano: had_piano, activate_pad: had_pad, drop_modes: false }
        } else {
            LayerSync { activate_piano: false, activate_pad: false, drop_modes: true }
        }
    } else {
        LayerSync { activate_piano: false, activate_pad: false, drop_modes: false }
    }
}

/// The title of the help screen for a pane.
pub open spec fn spec_help_title(pane_id: Seq<char>) -> Seq<char> {
    if pane_id == "instrument"@ {
        "Instruments"@
    } else if pane_id == "mixer"@ {
        "Mixer"@
    } else if pane_id == "server"@ {
        "Server"@
    } else if pane_id == "piano_roll"@ {
        "Piano Roll"@
    } else if pane_id == "sequencer"@ {
        "Step Sequencer"@
    } else if pane_id == "add"@ {
        "Add Instrument"@
    } else if pane_id == "instrument_edit"@ {
        "Edit Instrument"@
    } else if pane_id == "track"@ {
        "Track"@
    } else if pane_id == "waveform"@ {
        "Waveform"@
    } else if pane_id == "automation"@ {
        "Automation"@
    } else if pane_id == "eq"@ {
        "Parametric EQ"@
    } else {
        pane_id
    }
}

/// The title of the help screen for a pane; unknown panes are titled by their id.
pub fn help_title<'a>(pane_id: &'a str) -> (r: &'a str)
    ensures
        r@ == spec_help_title(pane_id@),
{
    if str_eq(pane_id, "instrument") {
        "Instruments"
    } else if str_eq(pane_id, "mixer") {
        "Mixer"
    } else if str_eq(pane_id, "server") {
        "Server"
    } else if str_eq(pane_id, "piano_roll") {
        "Piano Roll"
    } else if str_eq(pane_id, "sequencer") {
        "Step Sequencer"
    } else if str_eq(pane_id, "add") {
        "Add Instrument"
    } else if str_eq(pane_id, "instrument_edit") {
        "Edit Instrument"
    } else if str_eq(pane_id, "track") {
        "Track"
    } else if str_eq(pane_id, "waveform") {
        "Waveform"
    } else if str_eq(pane_id, "automation") {
        "Automation"
    } else if str_eq(pane_id, "eq") {
        "Parametric EQ"
    } else {
        pane_id
    }
}


/// Every character of `s` is an ASCII decimal digit.
pub open spec fn all_digits(s: Seq<char>) -> bool {
    forall|i: int| 0 <= i < s.len() ==> '0' <= #[trigger] s[i] && s[i] <= '9'
}

/// The number a string of decimal digits denotes.
pub open spec fn digits_value(s: Seq<char>) -> nat
    decreases s.len(),
{
    if s.len() == 0 {
        0
    } else {
        digits_value(s.drop_last()) * 10 + (s.last() as nat - '0' as nat) as nat
    }
}

/// The digits after an optional leading `+`.
pub open spec fn unsigned_body(s: Seq<char>) -> Seq<char> {
    if s.len() > 0 && s[0] == '+' {
        s.subrange(1, s.len() as int)
    } else {
        s
    }
}

/// What `usize::from_str` gives: the value of a non-empty run of decimal digits,
/// optionally after a `+`, when it fits in a `usize`.
pub open spec fn spec_parse_usize(s: Seq<char>) -> Option<usize> {
    let body = unsigned_body(s);
    if body.len() > 0 && all_digits(body) && digits_value(body) <= usize::MAX {
        Some(digits_value(body) as usize)
    } else {
        None
    }
}

/// A longer prefix of digits never denotes a smaller number.
proof fn lemma_digits_value_grows(s: Seq<char>, i: int, j: int)
    requires
        0 <= i <= j <= s.len(),
        all_digits(s),
    ensures
        digits_value(s.subrange(0, i)) <= digits_value(s.subrange(0, j)),
    decreases j - i,
{
    if i < j {
        lemma_digits_value_grows(s, i, j - 1);
        assert(s.subrange(0, j).drop_last() =~= s.subrange(0, j - 1));
        assert('0' <= s[j - 1] <= '9');
    }
}

/// Parses an unsigned decimal number as `usize::from_str` does.
pub fn parse_usize(s: &str) -> (r: Option<usize>)
    ensures
        r == spec_parse_usize(s@),
{
    let chars = crate::text::chars_of(s);
    let n = chars.len();
    let start: usize = if n > 0 && chars[0] == '+' {
        1
    } else {
        0
    };
    let ghost body = unsigned_body(s@);
    assert(body =~= chars@.subrange(start as int, n as int));
    if start == n {
        return None;
    }
    let mut value: u128 = 0;
    let mut i: usize = start;
    while i < n
        invariant
            chars@ == s@,
            n == chars@.len(),
            start <= i <= n,
            body =~= chars@.subrange(start as int, n as int),
            body == unsigned_body(s@),
            all_digits(body.subrange(0, i - start)),
            value == digits_value(body.subrange(0, i - start)),
            value <= usize::MAX,
        decreases n - i,
    {
        let c = chars[i];
        if !('0' <= c && c <= '9') {
            assert(body[i - start] == c);
            assert(!all_digits(body));
            return None;
        }
        let d = (c as u32 - '0' as u32) as u128;
        let next = value * 10 + d;
        proof {
            assert(body.subrange(0, i + 1 - start).drop_last() =~= body.subrange(0, i - start));
            assert(body.subrange(0, i + 1 - start).last() == c);
            assert(all_digits(body.subrange(0, i + 1 - start))) by {
                assert forall|k: int| 0 <= k < i + 1 - start implies '0' <= #[trigger] body.subrange(
                    0,
                    i + 1 - start,
                )[k] && body.subrange(0, i + 1 - start)[k] <= '9' by {
                    if k < i - start {
                        assert(body.subrange(0, i + 1 - start)[k] == body.subrange(0, i - start)[k]);
                    }
                }
            }
        }
        if next > usize::MAX as u128 {
            proof {
                let rest = body.subrange(0, i + 1 - start);
                assert(digits_value(rest) == next);
                if all_digits(body) {
                    lemma_digits_value_grows(body, i + 1 - start, body.len() as int);
                    assert(body.subrange(0, body.len() as int) =~= body);
                    assert(digits_value(body) > usize::MAX);
                }
            }
            return None;
        }
        value = next;
        i = i + 1;
    }
    assert(body.subrange(0, n - start) =~= body);
    Some(value as usize)
}

/// A command of the global key layer.
#[derive(Debug, Clone, Copy, PartialEq, Eq)]
pub enum GlobalCommand {
    Quit,
    Save,
    Load,
    MasterMute,
    RecordMaster,
    /// Switch to a pane, recording the view history.
    SwitchTo(&'static str),
    /// Switch to the note editor suited to the selected instrument.
    SwitchToEditor,
    /// Open the frame editor, or close it when it is open.
    ToggleFrameEdit,
    NavBack,
    NavForward,
    Help,
    /// Select the instrument with this 1-based number.
    Select(usize),
    /// A "select:" command whose number does not parse; nothing happens.
    SelectInvalid,
    SelectPrevInstrument,
    SelectNextInstrument,
    SelectTwoDigit,
    TogglePianoMode,
    DeleteInstrument,
    /// Not handled globally; the active pane gets the action.
    NotHandled,
}

/// The global command an action string names.
pub open spec fn spec_global_command(s: Seq<char>) -> GlobalCommand {
    if s == "quit"@ {
        GlobalCommand::Quit
    } else if s == "save"@ {
        GlobalCommand::Save
    } else if s == "load"@ {
        GlobalCommand::Load
    } else if s == "master_mute"@ {
        GlobalCommand::MasterMute
    } else if s == "record_master"@ {
        GlobalCommand::RecordMaster
    } else if s == "switch:instrument"@ {
        GlobalCommand::SwitchTo("instrument_edit")
    } else if s == "switch:instrument_list"@ {
        GlobalCommand::SwitchTo("instrument")
    } else if s == "switch:piano_roll_or_sequencer"@ {
        GlobalCommand::SwitchToEditor
    } else if s == "switch:track"@ {
        GlobalCommand::SwitchTo("track")
    } else if s == "switch:mixer"@ {
        GlobalCommand::SwitchTo("mixer")
    } else if s == "switch:server"@ {
        GlobalCommand::SwitchTo("server")
    } else if s == "switch:logo"@ {
        GlobalCommand::SwitchTo("logo")
    } else if s == "switch:automation"@ {
        GlobalCommand::SwitchTo("automation")
    } else if s == "switch:eq"@ {
        GlobalCommand::SwitchTo("eq")
    } else if s == "switch:frame_edit"@ {
        GlobalCommand::ToggleFrameEdit
    } else if s == "nav_back"@ {
        GlobalCommand::NavBack
    } else if s == "nav_forward"@ {
        GlobalCommand::NavForward
    } else if s == "help"@ {
        GlobalCommand::Help
    } else if s.len() >= 7 && s.subrange(0, 7) == "select:"@ {
        match spec_parse_usize(s.subrange(7, s.len() as int)) {
            Some(n) => GlobalCommand::Select(n),
            None => GlobalCommand::SelectInvalid,
        }
    } else if s == "select_prev_instrument"@ {
        GlobalCommand::SelectPrevInstrument
    } else if s == "select_next_instrument"@ {
        GlobalCommand::SelectNextInstrument
    } else if s == "select_two_digit"@ {
        GlobalCommand::SelectTwoDigit
    } else if s == "toggle_piano_mode"@ {
        GlobalCommand::TogglePianoMode
    } else if s == "add_instrument"@ {
        GlobalCommand::SwitchTo("add")
    } else if s == "delete_instrument"@ {
        GlobalCommand::DeleteInstrument
    } else {
        GlobalCommand::NotHandled
    }
}


/// Whether `s` starts with `prefix`.
pub fn str_starts_with(s: &str, prefix: &str) -> (r: bool)
    ensures
        r == (prefix@.len() <= s@.len() && s@.subrange(0, prefix@.len() as int) == prefix@),
{
    let n = s.unicode_len();
    let m = prefix.unicode_len();
    if m > n {
        return false;
    }
    let head = s.substring_char(0, m);
    str_eq(head, prefix)
}

/// The global command an action string names.
pub fn global_command(s: &str) -> (c: GlobalCommand)
    ensures
        c == spec_global_command(s@),
{
    if str_eq(s, "quit") {
        GlobalCommand::Quit
    } else if str_eq(s, "save") {
        GlobalCommand::Save
    } else if str_eq(s, "load") {
        GlobalCommand::Load
    } else if str_eq(s, "master_mute") {
        GlobalCommand::MasterMute
    } else if str_eq(s, "record_master") {
        GlobalCommand::RecordMaster
    } else if str_eq(s, "switch:instrument") {
        GlobalCommand::SwitchTo("instrument_edit")
    } else if str_eq(s, "switch:instrument_list") {
        GlobalCommand::SwitchTo("instrument")
    } else if str_eq(s, "switch:piano_roll_or_sequencer") {
        GlobalCommand::SwitchToEditor
    } else if str_eq(s, "switch:track") {
        GlobalCommand::SwitchTo("track")
    } else if str_eq(s, "switch:mixer") {
        GlobalCommand::SwitchTo("mixer")
    } else if str_eq(s, "switch:server") {
        GlobalCommand::SwitchTo("server")
    } else if str_eq(s, "switch:logo") {
        GlobalCommand::SwitchTo("logo")
    } else if str_eq(s, "switch:automation") {
        GlobalCommand::SwitchTo("automation")
    } else if str_eq(s, "switch:eq") {
        GlobalCommand::SwitchTo("eq")
    } else if str_eq(s, "switch:frame_edit") {
        GlobalCommand::ToggleFrameEdit
    } else if str_eq(s, "nav_back") {
        GlobalCommand::NavBack
    } else if str_eq(s, "nav_forward") {
        GlobalCommand::NavForward
    } else if str_eq(s, "help") {
        GlobalCommand::Help
    } else if str_starts_with(s, "select:") {
        proof {
            reveal_strlit("select:");
        }
        let n = s.unicode_len();
        let rest = s.substring_char(7, n);
        match parse_usize(rest) {
            Some(v) => GlobalCommand::Select(v),
            None => GlobalCommand::SelectInvalid,
        }
    } else if str_eq(s, "select_prev_instrument") {
        GlobalCommand::SelectPrevInstrument
    } else if str_eq(s, "select_next_instrument") {
        GlobalCommand::SelectNextInstrument
    } else if str_eq(s, "select_two_digit") {
        GlobalCommand::SelectTwoDigit
    } else if str_eq(s, "toggle_piano_mode") {
        GlobalCommand::TogglePianoMode
    } else if str_eq(s, "add_instrument") {
        GlobalCommand::SwitchTo("add")
    } else if str_eq(s, "delete_instrument") {
        GlobalCommand::DeleteInstrument
    } else {
        GlobalCommand::NotHandled
    }
}

} // verus!
