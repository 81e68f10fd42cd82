//! The instrument editor: one scrolling list of rows grouped in sections (source
//! parameters, filter, effects, LFO, amplitude envelope), a highlighted row, and
//! the structural edits (filter on/off and type, effects added and removed, mode
//! toggles). Parameter values themselves are real numbers that the application
//! keeps; the editor tells it which value edit a key asks for.

use vstd::prelude::*;
use crate::action::{Action, FileSelectAction, InstrumentAction, SessionAction};
use crate::effects::EffectType;
use crate::keymap::Keymap;
use crate::text::str_eq;

verus! {

/// What produces an instrument's sound, as far as the editor's rows depend on it.
#[derive(Debug, Clone, Copy, PartialEq, Eq, Structural)]
pub enum SourceKind {
    /// An oscillator or other built-in synthesis source.
    Synth,
    /// A sampler: its first source row is the sample name.
    Sample,
    /// A VST instrument: it has no amplitude envelope rows.
    Vst,
    /// A live audio input, which can be made active or inactive.
    AudioInput,
}

/// The response of a filter.
#[derive(Debug, Clone, Copy, PartialEq, Eq, Structural)]
pub enum FilterType {
    Lpf,
    Hpf,
    Bpf,
}

/// A section of the editor's rows.
#[derive(Debug, Clone, Copy, PartialEq, Eq, Structural)]
pub enum Section {
    Source,
    Filter,
    Effects,
    Lfo,
    Envelope,
}

/// What the editor shows of an instrument, apart from its real-valued parameters.
#[derive(Debug, Clone)]
pub struct InstrumentSummary {
    pub id: u32,
    pub name: String,
    pub source: SourceKind,
    /// The sample a sampler plays, when it has one loaded.
    pub sample_name: Option<String>,
    pub source_param_count: usize,
    pub filter: Option<FilterType>,
    pub effects: Vec<EffectType>,
    pub lfo_enabled: bool,
    pub polyphonic: bool,
    pub active: bool,
}

/// The edit of a real-valued parameter (or of the application's copy of the
/// instrument's parameters) that a command asks of the application, at the row
/// `row_info(selected_row)` names.
#[derive(Debug, Clone, Copy, PartialEq, Eq, Structural)]
pub enum ValueEdit {
    Nothing,
    /// Nudge the value by a small (or, with `big`, a large) step.
    Adjust { increase: bool, big: bool },
    /// Set the value to its minimum.
    ZeroParam,
    /// Set every value of the section to its minimum.
    ZeroSection,
    /// Parse the edited text into the value.
    ApplyText,
    /// A low-pass filter with default settings was switched on.
    NewFilter,
    /// The filter was switched off.
    DropFilter,
    /// An effect of this kind, with default parameters, was appended.
    AppendEffect(EffectType),
    /// The effect at this position was removed.
    RemoveEffect(usize),
    CycleLfoShape,
    CycleLfoTarget,
}

/// Rows of the source section.
pub open spec fn source_rows(source: SourceKind, param_count: int) -> int {
    (if source == SourceKind::Sample { 1int } else { 0int }) + (if param_count > 1 { param_count } else { 1 })
}

/// Rows of the filter section.
pub open spec fn filter_rows(has_filter: bool) -> int {
    if has_filter { 3 } else { 1 }
}

/// Rows of the effects section.
pub open spec fn effect_rows(effect_count: int) -> int {
    if effect_count > 1 { effect_count } else { 1 }
}

/// Rows of the LFO section.
pub open spec fn lfo_rows() -> int {
    4
}

/// Rows of the envelope section (none for a VST instrument).
pub open spec fn env_rows(source: SourceKind) -> int {
    if source == SourceKind::Vst { 0 } else { 4 }
}

/// The next section, skipping the envelope when `skip_env`.
pub open spec fn next_section_of(s: Section, skip_env: bool) -> Section {
    match s {
        Section::Source => Section::Filter,
        Section::Filter => Section::Effects,
        Section::Effects => Section::Lfo,
        Section::Lfo => if skip_env { Section::Source } else { Section::Envelope },
        Section::Envelope => Section::Source,
    }
}

/// The previous section, skipping the envelope when `skip_env`.
pub open spec fn prev_section_of(s: Section, skip_env: bool) -> Section {
    match s {
        Section::Source => if skip_env { Section::Lfo } else { Section::Envelope },
        Section::Filter => Section::Source,
        Section::Effects => Section::Filter,
        Section::Lfo => Section::Effects,
        Section::Envelope => Section::Lfo,
    }
}

/// The section a tab index names (anything past the last names the source).
pub open spec fn section_of_tab(idx: u8) -> Section {
    if idx == 0 {
        Section::Source
    } else if idx == 1 {
        Section::Filter
    } else if idx == 2 {
        Section::Effects
    } else if idx == 3 {
        Section::Lfo
    } else if idx == 4 {
        Section::Envelope
    } else {
        Section::Source
    }
}

/// The tab index of a section.
pub open spec fn tab_of_section(s: Section) -> u8 {
    match s {
        Section::Source => 0,
        Section::Filter => 1,
        Section::Effects => 2,
        Section::Lfo => 3,
        Section::Envelope => 4,
    }
}

/// The effect kind `add_effect` appends after an effect of kind `last`.
pub open spec fn next_effect_kind(last: Option<EffectType>) -> EffectType {
    match last {
        Some(EffectType::Delay) => EffectType::Reverb,
        Some(EffectType::Reverb) => EffectType::Gate,
        Some(EffectType::Gate) => EffectType::TapeComp,
        Some(EffectType::TapeComp) => EffectType::SidechainComp,
        _ => EffectType::Delay,
    }
}

/// The filter type after `cycle_filter_type`.
pub open spec fn next_filter_type(t: FilterType) -> FilterType {
    match t {
        FilterType::Lpf => FilterType::Hpf,
        FilterType::Hpf => FilterType::Bpf,
        FilterType::Bpf => FilterType::Lpf,
    }
}

/// A command of the instrument editor, named by its action string.
#[derive(Debug, Clone, Copy, PartialEq, Eq, Structural)]
pub enum EditCommand {
    TextConfirm,
    TextCancel,
    Done,
    Next,
    Prev,
    Adjust { increase: bool, big: bool },
    EnterEdit,
    ToggleFilter,
    CycleFilterType,
    AddEffect,
    RemoveEffect,
    TogglePoly,
    ToggleActive,
    LoadSample,
    ZeroParam,
    ZeroSection,
    ToggleLfo,
    CycleLfoShape,
    CycleLfoTarget,
    NextSection,
    PrevSection,
    Unknown,
}

/// The command an action string names.
pub open spec fn spec_edit_command(a: Seq<char>) -> EditCommand {
    if a == "text:confirm"@ {
        EditCommand::TextConfirm
    } else if a == "text:cancel"@ {
        EditCommand::TextCancel
    } else if a == "done"@ {
        EditCommand::Done
    } else if a == "next"@ {
        EditCommand::Next
    } else if a == "prev"@ {
        EditCommand::Prev
    } else if a == "increase"@ {
        EditCommand::Adjust { increase: true, big: false }
    } else if a == "decrease"@ {
        EditCommand::Adjust { increase: false, big: false }
    } else if a == "increase_big"@ {
        EditCommand::Adjust { increase: true, big: true }
    } else if a == "decrease_big"@ {
        EditCommand::Adjust { increase: false, big: true }
    } else if a == "enter_edit"@ {
        EditCommand::EnterEdit
    } else if a == "toggle_filter"@ {
        EditCommand::ToggleFilter
    } else if a == "cycle_filter_type"@ {
        EditCommand::CycleFilterType
    } else if a == "add_effect"@ {
        EditCommand::AddEffect
    } else if a == "remove_effect"@ {
        EditCommand::RemoveEffect
    } else if a == "toggle_poly"@ {
        EditCommand::TogglePoly
    } else if a == "toggle_active"@ {
        EditCommand::ToggleActive
    } else if a == "load_sample"@ {
        EditCommand::LoadSample
    } else if a == "zero_param"@ {
        EditCommand::ZeroParam
    } else if a == "zero_section"@ {
        EditCommand::ZeroSection
    } else if a == "toggle_lfo"@ {
        EditCommand::ToggleLfo
    } else if a == "cycle_lfo_shape"@ {
        EditCommand::CycleLfoShape
    } else if a == "cycle_lfo_target"@ {
        EditCommand::CycleLfoTarget
    } else if a == "next_section"@ {
        EditCommand::NextSection
    } else if a == "prev_section"@ {
        EditCommand::PrevSection
    } else {
        EditCommand::Unknown
    }
}

/// The command an action string names.
pub fn edit_command(a: &str) -> (c: EditCommand)
    ensures
        c == spec_edit_command(a@),
{
    if str_eq(a, "text:confirm") {
        EditCommand::TextConfirm
    } else if str_eq(a, "text:cancel") {
        EditCommand::TextCancel
    } else if str_eq(a, "done") {
        EditCommand::Done
    } else if str_eq(a, "next") {
        EditCommand::Next
    } else if str_eq(a, "prev") {
        EditCommand::Prev
    } else if str_eq(a, "increase") {
        EditCommand::Adjust { increase: true, big: false }
    } else if str_eq(a, "decrease") {
        EditCommand::Adjust { increase: false, big: false }
    } else if str_eq(a, "increase_big") {
        EditCommand::Adjust { increase: true, big: true }
    } else if str_eq(a, "decrease_big") {
        EditCommand::Adjust { increase: false, big: true }
    } else if str_eq(a, "enter_edit") {
        EditCommand::EnterEdit
    } else if str_eq(a, "toggle_filter") {
        EditCommand::ToggleFilter
    } else if str_eq(a, "cycle_filter_type") {
        EditCommand::CycleFilterType
    } else if str_eq(a, "add_effect") {
        EditCommand::AddEffect
    } else if str_eq(a, "remove_effect") {
        EditCommand::RemoveEffect
    } else if str_eq(a, "toggle_poly") {
        EditCommand::TogglePoly
    } else if str_eq(a, "toggle_active") {
        EditCommand::ToggleActive
    } else if str_eq(a, "load_sample") {
        EditCommand::LoadSample
    } else if str_eq(a, "zero_param") {
        EditCommand::ZeroParam
    } else if str_eq(a, "zero_section") {
        EditCommand::ZeroSection
    } else if str_eq(a, "toggle_lfo") {
        EditCommand::ToggleLfo
    } else if str_eq(a, "cycle_lfo_shape") {
        EditCommand::CycleLfoShape
    } else if str_eq(a, "cycle_lfo_target") {
        EditCommand::CycleLfoTarget
    } else if str_eq(a, "next_section") {
        EditCommand::NextSection
    } else if str_eq(a, "prev_section") {
        EditCommand::PrevSection
    } else {
        EditCommand::Unknown
    }
}

/// The instrument editor's state.
pub struct InstrumentEditPane {
    pub keymap: Keymap,
    pub instrument_id: Option<u32>,
    pub instrument_name: String,
    pub source: SourceKind,
    /// The name of the sampler's sample, when it has one.
    pub sample_name: Option<String>,
    pub source_param_count: usize,
    pub filter: Option<FilterType>,
    pub effects: Vec<EffectType>,
    pub lfo_enabled: bool,
    pub polyphonic: bool,
    pub active: bool,
    /// The highlighted row, counted over all sections.
    pub selected_row: usize,
    /// Whether a value is being typed in.
    pub editing: bool,
}

impl InstrumentEditPane {
    /// The row count fits in a machine word with room to spare.
    pub open spec fn wf(&self) -> bool {
        &&& self.source_param_count + self.effects@.len() + 16 <= usize::MAX
        &&& self.selected_row < usize::MAX
    }

    /// The first row of a section.
    pub open spec fn section_start(&self, s: Section) -> int {
        let sr = source_rows(self.source, self.source_param_count as int);
        let fr = filter_rows(self.filter is Some);
        let er = effect_rows(self.effects@.len() as int);
        match s {
            Section::Source => 0,
            Section::Filter => sr,
            Section::Effects => sr + fr,
            Section::Lfo => sr + fr + er,
            Section::Envelope => sr + fr + er + lfo_rows(),
        }
    }

    /// The number of rows over all sections.
    pub open spec fn spec_total_rows(&self) -> int {
        self.section_start(Section::Envelope) + env_rows(self.source)
    }

    /// The section of a row (rows past the end count as envelope rows).
    pub open spec fn spec_section_for_row(&self, row: int) -> Section {
        if row < self.section_start(Section::Filter) {
            Section::Source
        } else if row < self.section_start(Section::Effects) {
            Section::Filter
        } else if row < self.section_start(Section::Lfo) {
            Section::Effects
        } else if row < self.section_start(Section::Envelope) {
            Section::Lfo
        } else {
            Section::Envelope
        }
    }

    /// The section of a row and the row's position within it.
    pub open spec fn spec_row_info(&self, row: int) -> (Section, int) {
        let s = self.spec_section_for_row(row);
        (s, row - self.section_start(s))
    }

    /// Whether a section has rows.
    pub open spec fn has_section(&self, s: Section) -> bool {
        s != Section::Envelope || self.source != SourceKind::Vst
    }

    /// The effect position `remove_effect` removes, if it removes one.
    pub open spec fn removal_index(&self) -> Option<usize> {
        let (s, local) = self.spec_row_info(self.selected_row as int);
        if s == Section::Effects && self.effects@.len() > 0 {
            Some(if local < self.effects@.len() - 1 { local as usize } else { (self.effects@.len() - 1) as usize })
        } else {
            None
        }
    }

    /// Whether the highlighted row is the sample-name row of a sampler.
    pub open spec fn on_sample_row(&self) -> bool {
        self.source == SourceKind::Sample && self.spec_row_info(self.selected_row as int) == (Section::Source, 0int)
    }

    /// The request to apply the edits to the instrument, if there is one.
    pub open spec fn update_action(&self) -> Action {
        match self.instrument_id {
            Some(id) => Action::Instrument(InstrumentAction::Update(id)),
            None => Action::NoOp,
        }
    }

    /// An editor for no instrument: a synth with no parameters, no filter, no
    /// effects, polyphonic and active, on the first row.
    pub fn new(keymap: Keymap) -> (p: InstrumentEditPane)
        ensures
            p.wf(),
            p.keymap == keymap,
            p.instrument_id is None,
            p.instrument_name@.len() == 0,
            p.source == SourceKind::Synth,
            p.sample_name is None,
            p.source_param_count == 0,
            p.filter is None,
            p.effects@.len() == 0,
            !p.lfo_enabled,
            p.polyphonic,
            p.active,
            p.selected_row == 0,
            !p.editing,
    {
        InstrumentEditPane {
            keymap,
            instrument_id: None,
            instrument_name: String::new(),
            source: SourceKind::Synth,
            sample_name: None,
            source_param_count: 0,
            filter: None,
            effects: Vec::new(),
            lfo_enabled: false,
            polyphonic: true,
            active: true,
            selected_row: 0,
            editing: false,
        }
    }

    pub fn id(&self) -> (r: &'static str)
        ensures
            r@ == "instrument_edit"@,
    {
        "instrument_edit"
    }

    /// Loads an instrument into the editor and highlights the first row.
    pub fn set_instrument(&mut self, instrument: &InstrumentSummary)
        requires
            instrument.source_param_count + instrument.effects@.len() + 16 <= usize::MAX,
        ensures
            final(self).wf(),
            final(self).keymap == old(self).keymap,
            final(self).instrument_id == Some(instrument.id),
            final(self).instrument_name@ == instrument.name@,
            final(self).source == instrument.source,
            final(self).sample_name == instrument.sample_name,
            final(self).source_param_count == instrument.source_param_count,
            final(self).filter == instrument.filter,
            final(self).effects@ == instrument.effects@,
            final(self).lfo_enabled == instrument.lfo_enabled,
            final(self).polyphonic == instrument.polyphonic,
            final(self).active == instrument.active,
            final(self).selected_row == 0,
            tab_of_section(final(self).spec_section_for_row(final(self).selected_row as int)) == 0,
            final(self).editing == old(self).editing,
    {
        self.instrument_id = Some(instrument.id);
        self.instrument_name = instrument.name.clone();
        self.source = instrument.source;
        self.sample_name = match &instrument.sample_name {
            Some(n) => Some(n.clone()),
            None => None,
        };
        self.source_param_count = instrument.source_param_count;
        self.filter = instrument.filter;
        self.effects = instrument.effects.clone();
        self.lfo_enabled = instrument.lfo_enabled;
        self.polyphonic = instrument.polyphonic;
        self.active = instrument.active;
        self.selected_row = 0;
    }

    /// The instrument being edited.
    pub fn instrument_id(&self) -> (r: Option<u32>)
        ensures
            r == self.instrument_id,
    {
        self.instrument_id
    }

    /// Writes the edits back to an instrument (its id and name stay).
    pub fn apply_to(&self, instrument: &mut InstrumentSummary)
        ensures
            final(instrument).id == old(instrument).id,
            final(instrument).name == old(instrument).name,
            final(instrument).sample_name == old(instrument).sample_name,
            final(instrument).source == self.source,
            final(instrument).source_param_count == self.source_param_count,
            final(instrument).filter == self.filter,
            final(instrument).effects@ == self.effects@,
            final(instrument).lfo_enabled == self.lfo_enabled,
            final(instrument).polyphonic == self.polyphonic,
            final(instrument).active == self.active,
    {
        instrument.source = self.source;
        instrument.source_param_count = self.source_param_count;
        instrument.filter = self.filter;
        instrument.effects = self.effects.clone();
        instrument.lfo_enabled = self.lfo_enabled;
        instrument.polyphonic = self.polyphonic;
        instrument.active = self.active;
    }

    /// Whether a value is being typed in.
    pub fn is_editing(&self) -> (r: bool)
        ensures
            r == self.editing,
    {
        self.editing
    }

    fn section_starts(&self) -> (r: (usize, usize, usize, usize))
        requires
            self.wf(),
        ensures
            r.0 == self.section_start(Section::Filter),
            r.1 == self.section_start(Section::Effects),
            r.2 == self.section_start(Section::Lfo),
            r.3 == self.section_start(Section::Envelope),
    {
        let sample_row: usize = if self.source == SourceKind::Sample { 1 } else { 0 };
        let params: usize = if self.source_param_count > 1 { self.source_param_count } else { 1 };
        let sr = sample_row + params;
        let fr: usize = if self.filter.is_some() { 3 } else { 1 };
        let n = self.effects.len();
        let er: usize = if n > 1 { n } else { 1 };
        (sr, sr + fr, sr + fr + er, sr + fr + er + 4)
    }

    /// The number of selectable rows over all sections.
    pub fn total_rows(&self) -> (r: usize)
        requires
            self.wf(),
        ensures
            r == self.spec_total_rows(),
    {
        let (_f, _e, _l, env) = self.section_starts();
        let env_n: usize = if self.source == SourceKind::Vst { 0 } else { 4 };
        env + env_n
    }

    /// The section a row belongs to.
    pub fn section_for_row(&self, row: usize) -> (r: Section)
        requires
            self.wf(),
        ensures
            r == self.spec_section_for_row(row as int),
    {
        let (f, e, l, env) = self.section_starts();
        if row < f {
            Section::Source
        } else if row < e {
            Section::Filter
        } else if row < l {
            Section::Effects
        } else if row < env {
            Section::Lfo
        } else {
            Section::Envelope
        }
    }

    /// The section of a row and the row's position within that section.
    pub fn row_info(&self, row: usize) -> (r: (Section, usize))
        requires
            self.wf(),
        ensures
            r.0 == self.spec_row_info(row as int).0,
            r.1 == self.spec_row_info(row as int).1,
    {
        let (f, e, l, env) = self.section_starts();
        if row < f {
            (Section::Source, row)
        } else if row < e {
            (Section::Filter, row - f)
        } else if row < l {
            (Section::Effects, row - e)
        } else if row < env {
            (Section::Lfo, row - l)
        } else {
            (Section::Envelope, row - env)
        }
    }

    /// The section of the highlighted row.
    pub fn current_section(&self) -> (r: Section)
        requires
            self.wf(),
        ensures
            r == self.spec_section_for_row(self.selected_row as int),
    {
        self.section_for_row(self.selected_row)
    }

    /// The highlighted section as a tab index (source 0 … envelope 4), as view
    /// state records it.
    pub fn tab_index(&self) -> (r: u8)
        requires
            self.wf(),
        ensures
            r == tab_of_section(self.spec_section_for_row(self.selected_row as int)),
    {
        match self.current_section() {
            Section::Source => 0,
            Section::Filter => 1,
            Section::Effects => 2,
            Section::Lfo => 3,
            Section::Envelope => 4,
        }
    }

    /// The first row of section `target`, if the section has rows.
    fn first_row_of(&self, target: Section) -> (r: Option<usize>)
        requires
            self.wf(),
        ensures
            match r {
                Some(i) => self.has_section(target) && i == self.section_start(target),
                None => !self.has_section(target),
            },
    {
        let total = self.total_rows();
        let mut i: usize = 0;
        while i < total
            invariant
                self.wf(),
                total == self.spec_total_rows(),
                i <= total,
                forall|j: int| 0 <= j < i ==> self.spec_section_for_row(j) != target,
            decreases total - i,
        {
            if self.section_for_row(i) == target {
                proof {
                    lemma_first_row(*self, target, i as int);
                }
                return Some(i);
            }
            i = i + 1;
        }
        proof {
            if self.has_section(target) {
                let k = self.section_start(target);
                assert(self.spec_section_for_row(k) == target);
                assert(k < total);
            }
        }
        None
    }

    /// Highlights the first row of the section a tab index names (view state
    /// restoration); nothing changes when that section has no rows.
    pub fn set_tab_index(&mut self, idx: u8)
        requires
            old(self).wf(),
        ensures
            *final(self) == (InstrumentEditPane {
                selected_row: if old(self).has_section(section_of_tab(idx)) {
                    old(self).section_start(section_of_tab(idx)) as usize
                } else {
                    old(self).selected_row
                },
                ..*old(self)
            }),
    {
        let target = if idx == 0 {
            Section::Source
        } else if idx == 1 {
            Section::Filter
        } else if idx == 2 {
            Section::Effects
        } else if idx == 3 {
            Section::Lfo
        } else if idx == 4 {
            Section::Envelope
        } else {
            Section::Source
        };
        match self.first_row_of(target) {
            Some(i) => {
                self.selected_row = i;
            },
            None => {},
        }
    }

    /// Handles one action. Returns what to ask of the application, and the edit of
    /// a real-valued parameter (or of the application's copy of the parameter lists)
    /// that goes with it; the application applies that edit before the request.
    #[verifier::rlimit(60)]
    #[verifier::spinoff_prover]
    pub fn handle_action(&mut self, action: &str) -> (r: (Action, ValueEdit))
        requires
            old(self).wf(),
            old(self).effects@.len() + old(self).source_param_count + 17 <= usize::MAX,
        ensures
            final(self).wf(),
            final(self).keymap == old(self).keymap,
            final(self).instrument_id == old(self).instrument_id,
            final(self).instrument_name == old(self).instrument_name,
            final(self).source == old(self).source,
            final(self).sample_name == old(self).sample_name,
            final(self).source_param_count == old(self).source_param_count,
            ({
                let o = *old(self);
                let f = *final(self);
                let cmd = spec_edit_command(action@);
                let (sec, local) = o.spec_row_info(o.selected_row as int);
                let total = o.spec_total_rows();
                &&& f.filter == match cmd {
                    EditCommand::ToggleFilter => if o.filter is Some { None } else { Some(FilterType::Lpf) },
                    EditCommand::CycleFilterType => match o.filter {
                        Some(t) => Some(next_filter_type(t)),
                        None => None,
                    },
                    _ => o.filter,
                }
                &&& f.effects@ == match cmd {
                    EditCommand::AddEffect => o.effects@.push(next_effect_kind(
                        if o.effects@.len() > 0 { Some(o.effects@.last()) } else { None },
                    )),
                    EditCommand::RemoveEffect => match o.removal_index() {
                        Some(i) => o.effects@.remove(i as int),
                        None => o.effects@,
                    },
                    _ => o.effects@,
                }
                &&& f.polyphonic == (if cmd == EditCommand::TogglePoly { !o.polyphonic } else { o.polyphonic })
                &&& f.active == (if cmd == EditCommand::ToggleActive && o.source == SourceKind::AudioInput {
                    !o.active
                } else {
                    o.active
                })
                &&& f.lfo_enabled == match cmd {
                    EditCommand::ToggleLfo => !o.lfo_enabled,
                    EditCommand::ZeroParam => if sec == Section::Lfo && local == 0 { false } else { o.lfo_enabled },
                    EditCommand::ZeroSection => if sec == Section::Lfo { false } else { o.lfo_enabled },
                    _ => o.lfo_enabled,
                }
                &&& f.selected_row as int == match cmd {
                    EditCommand::Next => (o.selected_row + 1) % total,
                    EditCommand::Prev => if o.selected_row == 0 { total - 1 } else { o.selected_row - 1 },
                    EditCommand::NextSection => {
                        let t = next_section_of(sec, o.source == SourceKind::Vst);
                        if o.has_section(t) { o.section_start(t) } else { o.selected_row as int }
                    },
                    EditCommand::PrevSection => {
                        let t = prev_section_of(sec, o.source == SourceKind::Vst);
                        if o.has_section(t) { o.section_start(t) } else { o.selected_row as int }
                    },
                    _ => o.selected_row as int,
                }
                &&& f.editing == match cmd {
                    EditCommand::TextConfirm | EditCommand::TextCancel => false,
                    EditCommand::EnterEdit => if o.on_sample_row() { o.editing } else { true },
                    _ => o.editing,
                }
                &&& r == match cmd {
                    EditCommand::TextConfirm => if o.on_sample_row() {
                        (Action::NoOp, ValueEdit::Nothing)
                    } else {
                        (o.update_action(), ValueEdit::ApplyText)
                    },
                    EditCommand::Done => (o.update_action(), ValueEdit::Nothing),
                    EditCommand::Adjust { increase, big } => (o.update_action(), ValueEdit::Adjust { increase, big }),
                    EditCommand::EnterEdit => if o.on_sample_row() {
                        match o.instrument_id {
                            Some(id) => (Action::Session(SessionAction::OpenFileBrowser(FileSelectAction::LoadPitchedSample(id))), ValueEdit::Nothing),
                            None => (Action::NoOp, ValueEdit::Nothing),
                        }
                    } else {
                        (Action::PushLayer("text_edit"), ValueEdit::Nothing)
                    },
                    EditCommand::ToggleFilter => (o.update_action(), if o.filter is Some { ValueEdit::DropFilter } else { ValueEdit::NewFilter }),
                    EditCommand::CycleFilterType => if o.filter is Some {
                        (o.update_action(), ValueEdit::Nothing)
                    } else {
                        (Action::NoOp, ValueEdit::Nothing)
                    },
                    EditCommand::AddEffect => (o.update_action(), ValueEdit::AppendEffect(f.effects@.last())),
                    EditCommand::RemoveEffect => match o.removal_index() {
                        Some(i) => (o.update_action(), ValueEdit::RemoveEffect(i)),
                        None => (Action::NoOp, ValueEdit::Nothing),
                    },
                    EditCommand::TogglePoly | EditCommand::ToggleLfo => (o.update_action(), ValueEdit::Nothing),
                    EditCommand::ToggleActive => if o.source == SourceKind::AudioInput {
                        (o.update_action(), ValueEdit::Nothing)
                    } else {
                        (Action::NoOp, ValueEdit::Nothing)
                    },
                    EditCommand::LoadSample => match o.instrument_id {
                        Some(id) => if o.source == SourceKind::Sample {
                            (Action::Session(SessionAction::OpenFileBrowser(FileSelectAction::LoadPitchedSample(id))), ValueEdit::Nothing)
                        } else {
                            (Action::NoOp, ValueEdit::Nothing)
                        },
                        None => (Action::NoOp, ValueEdit::Nothing),
                    },
                    EditCommand::ZeroParam => (o.update_action(), ValueEdit::ZeroParam),
                    EditCommand::ZeroSection => (o.update_action(), ValueEdit::ZeroSection),
                    EditCommand::CycleLfoShape => (o.update_action(), ValueEdit::CycleLfoShape),
                    EditCommand::CycleLfoTarget => (o.update_action(), ValueEdit::CycleLfoTarget),
                    _ => (Action::NoOp, ValueEdit::Nothing),
                }
            }),
    {
        let cmd = edit_command(action);
        let (sec, local) = self.row_info(self.selected_row);
        let on_sample_row = self.source == SourceKind::Sample && sec == Section::Source && local == 0;
        let update = match self.instrument_id {
            Some(id) => Action::Instrument(InstrumentAction::Update(id)),
            None => Action::NoOp,
        };
        match cmd {
            EditCommand::TextConfirm => {
                self.editing = false;
                if on_sample_row {
                    (Action::NoOp, ValueEdit::Nothing)
                } else {
                    (update, ValueEdit::ApplyText)
                }
            },
            EditCommand::TextCancel => {
                self.editing = false;
                (Action::NoOp, ValueEdit::Nothing)
            },
            EditCommand::Done => (update, ValueEdit::Nothing),
            EditCommand::Next => {
                let total = self.total_rows();
                self.selected_row = (self.selected_row + 1) % total;
                (Action::NoOp, ValueEdit::Nothing)
            },
            EditCommand::Prev => {
                let total = self.total_rows();
                self.selected_row = if self.selected_row == 0 { total - 1 } else { self.selected_row - 1 };
                (Action::NoOp, ValueEdit::Nothing)
            },
            EditCommand::Adjust { increase, big } => (update, ValueEdit::Adjust { increase, big }),
            EditCommand::EnterEdit => {
                if on_sample_row {
                    match self.instrument_id {
                        Some(id) => (Action::Session(SessionAction::OpenFileBrowser(FileSelectAction::LoadPitchedSample(id))), ValueEdit::Nothing),
                        None => (Action::NoOp, ValueEdit::Nothing),
                    }
                } else {
                    self.editing = true;
                    (Action::PushLayer("text_edit"), ValueEdit::Nothing)
                }
            },
            EditCommand::ToggleFilter => {
                if self.filter.is_some() {
                    self.filter = None;
                    (update, ValueEdit::DropFilter)
                } else {
                    self.filter = Some(FilterType::Lpf);
                    (update, ValueEdit::NewFilter)
                }
            },
            EditCommand::CycleFilterType => match self.filter {
                Some(t) => {
                    self.filter = Some(match t {
                        FilterType::Lpf => FilterType::Hpf,
                        FilterType::Hpf => FilterType::Bpf,
                        FilterType::Bpf => FilterType::Lpf,
                    });
                    (update, ValueEdit::Nothing)
                },
                None => (Action::NoOp, ValueEdit::Nothing),
            },
            EditCommand::AddEffect => {
                let n = self.effects.len();
                let next = if n == 0 {
                    EffectType::Delay
                } else {
                    match self.effects[n - 1] {
                        EffectType::Delay => EffectType::Reverb,
                        EffectType::Reverb => EffectType::Gate,
                        EffectType::Gate => EffectType::TapeComp,
                        EffectType::TapeComp => EffectType::SidechainComp,
                        _ => EffectType::Delay,
                    }
                };
                self.effects.push(next);
                (update, ValueEdit::AppendEffect(next))
            },
            EditCommand::RemoveEffect => {
                let n = self.effects.len();
                if sec == Section::Effects && n > 0 {
                    let idx = if local < n - 1 { local } else { n - 1 };
                    self.effects.remove(idx);
                    (update, ValueEdit::RemoveEffect(idx))
                } else {
                    (Action::NoOp, ValueEdit::Nothing)
                }
            },
            EditCommand::TogglePoly => {
                self.polyphonic = !self.polyphonic;
                (update, ValueEdit::Nothing)
            },
            EditCommand::ToggleActive => {
                if self.source == SourceKind::AudioInput {
                    self.active = !self.active;
                    (update, ValueEdit::Nothing)
                } else {
                    (Action::NoOp, ValueEdit::Nothing)
                }
            },
            EditCommand::LoadSample => match self.instrument_id {
                Some(id) => if self.source == SourceKind::Sample {
                    (Action::Session(SessionAction::OpenFileBrowser(FileSelectAction::LoadPitchedSample(id))), ValueEdit::Nothing)
                } else {
                    (Action::NoOp, ValueEdit::Nothing)
                },
                None => (Action::NoOp, ValueEdit::Nothing),
            },
            EditCommand::ZeroParam => {
                if sec == Section::Lfo && local == 0 {
                    self.lfo_enabled = false;
                }
                (update, ValueEdit::ZeroParam)
            },
            EditCommand::ZeroSection => {
                if sec == Section::Lfo {
                    self.lfo_enabled = false;
                }
                (update, ValueEdit::ZeroSection)
            },
            EditCommand::ToggleLfo => {
                self.lfo_enabled = !self.lfo_enabled;
                (update, ValueEdit::Nothing)
            },
            EditCommand::CycleLfoShape => (update, ValueEdit::CycleLfoShape),
            EditCommand::CycleLfoTarget => (update, ValueEdit::CycleLfoTarget),
            EditCommand::NextSection => {
                let skip_env = self.source == SourceKind::Vst;
                let target = match sec {
                    Section::Source => Section::Filter,
                    Section::Filter => Section::Effects,
                    Section::Effects => Section::Lfo,
                    Section::Lfo => if skip_env { Section::Source } else { Section::Envelope },
                    Section::Envelope => Section::Source,
                };
                match self.first_row_of(target) {
                    Some(i) => {
                        self.selected_row = i;
                    },
                    None => {},
                }
                (Action::NoOp, ValueEdit::Nothing)
            },
            EditCommand::PrevSection => {
                let skip_env = self.source == SourceKind::Vst;
                let target = match sec {
                    Section::Source => if skip_env { Section::Lfo } else { Section::Envelope },
                    Section::Filter => Section::Source,
                    Section::Effects => Section::Filter,
                    Section::Lfo => Section::Effects,
                    Section::Envelope => Section::Lfo,
                };
                match self.first_row_of(target) {
                    Some(i) => {
                        self.selected_row = i;
                    },
                    None => {},
                }
                (Action::NoOp, ValueEdit::Nothing)
            },
            EditCommand::Unknown => (Action::NoOp, ValueEdit::Nothing),
        }
    }

    /// Scrolls the highlight one row up or down, wrapping around.
    pub fn scroll(&mut self, down: bool)
        requires
            old(self).wf(),
        ensures
            *final(self) == (InstrumentEditPane {
                selected_row: (if down {
                    (old(self).selected_row + 1) % old(self).spec_total_rows()
                } else if old(self).selected_row == 0 {
                    old(self).spec_total_rows() - 1
                } else {
                    old(self).selected_row - 1
                }) as usize,
                ..*old(self)
            }),
    {
        let total = self.total_rows();
        if down {
            self.selected_row = (self.selected_row + 1) % total;
        } else {
            self.selected_row = if self.selected_row == 0 { total - 1 } else { self.selected_row - 1 };
        }
    }
}

/// The first row whose section is `sec`, with no earlier row in it, is the
/// section's start.
proof fn lemma_first_row(p: InstrumentEditPane, sec: Section, i: int)
    requires
        p.spec_section_for_row(i) == sec,
        0 <= i,
        forall|j: int| 0 <= j < i ==> p.spec_section_for_row(j) != sec,
    ensures
        p.has_section(sec) || i >= p.spec_total_rows(),
        i == p.section_start(sec),
{
    let k = p.section_start(sec);
    if i > k {
        assert(p.spec_section_for_row(k) == sec);
    }
}

/// Every section with rows starts on a row of its own, below the row count.
pub proof fn lemma_section_starts(p: InstrumentEditPane, s: Section)
    requires
        p.has_section(s),
    ensures
        0 <= p.section_start(s) < p.spec_total_rows(),
        p.spec_section_for_row(p.section_start(s)) == s,
        p.spec_row_info(p.section_start(s)) == (s, 0int),
{
}

/// Restoring a tab index recorded from the editor brings back the same tab: after
/// `set_tab_index(i)`, `tab_index()` is `i` for every tab the instrument has
/// (source 0 to envelope 4, without the envelope for a VST instrument), and the
/// source tab for an index past the last.
pub proof fn lemma_tab_round_trip(p: InstrumentEditPane, idx: u8)
    requires
        p.wf(),
        p.has_section(section_of_tab(idx)),
    ensures
        ({
            let q = InstrumentEditPane { selected_row: p.section_start(section_of_tab(idx)) as usize, ..p };
            tab_of_section(q.spec_section_for_row(q.selected_row as int)) == if idx <= 4 { idx } else { 0 }
        }),
{
    lemma_section_starts(p, section_of_tab(idx));
}

/// Each row lies in exactly one section: the row's position within its section is
/// below that section's row count.
pub proof fn lemma_row_info_in_section(p: InstrumentEditPane, row: int)
    requires
        0 <= row < p.spec_total_rows(),
    ensures
        ({
            let (s, local) = p.spec_row_info(row);
            &&& p.has_section(s)
            &&& 0 <= local
            &&& p.section_start(s) + local == row
            &&& local < match s {
                Section::Source => source_rows(p.source, p.source_param_count as int),
                Section::Filter => filter_rows(p.filter is Some),
                Section::Effects => effect_rows(p.effects@.len() as int),
                Section::Lfo => lfo_rows(),
                Section::Envelope => env_rows(p.source),
            }
        }),
{
}

} // verus!

verus! {

/// A line of the editor's list as it is drawn, top to bottom.
#[derive(Debug, Clone, Copy, PartialEq, Eq, Structural)]
pub enum EditLine {
    /// The header of a section.
    Header(Section),
    /// Selectable row `row` (counted over all sections) of `section`: a
    /// placeholder ("(no parameters)", "(disabled)", "(no effects)") stands for an
    /// empty section; `highlighted` when it is the highlighted row.
    Row { section: Section, row: usize, placeholder: bool, highlighted: bool },
    /// An empty line between sections.
    Gap,
}

/// Rows `start` .. `start + n` of section `s`, the one at position
/// `placeholder` (if any) being a placeholder, row `selected` highlighted.
pub open spec fn section_rows(s: Section, start: int, n: int, placeholder: int, selected: int) -> Seq<EditLine> {
    Seq::new(
        n as nat,
        |i: int| EditLine::Row { section: s, row: (start + i) as usize, placeholder: i == placeholder, highlighted: start + i == selected },
    )
}

impl InstrumentEditPane {
    /// The source section's lines: header, rows, and an empty line unless the
    /// section ends with its placeholder.
    pub open spec fn source_lines(&self) -> Seq<EditLine> {
        let no_params = self.source_param_count == 0;
        let n = source_rows(self.source, self.source_param_count as int);
        seq![EditLine::Header(Section::Source)] + section_rows(
            Section::Source,
            0,
            n,
            if no_params { n - 1 } else { -1 },
            self.selected_row as int,
        ) + (if no_params { Seq::empty() } else { seq![EditLine::Gap] })
    }

    /// The filter section's lines: header, rows (a placeholder when off), an empty line.
    pub open spec fn filter_lines(&self) -> Seq<EditLine> {
        seq![EditLine::Header(Section::Filter)] + section_rows(
            Section::Filter,
            self.section_start(Section::Filter),
            filter_rows(self.filter is Some),
            if self.filter is None { 0int } else { -1int },
            self.selected_row as int,
        ) + seq![EditLine::Gap]
    }

    /// The effects section's lines: header, rows, and an empty line unless the
    /// section is only its placeholder.
    pub open spec fn effect_lines(&self) -> Seq<EditLine> {
        let none = self.effects@.len() == 0;
        seq![EditLine::Header(Section::Effects)] + section_rows(
            Section::Effects,
            self.section_start(Section::Effects),
            effect_rows(self.effects@.len() as int),
            if none { 0int } else { -1int },
            self.selected_row as int,
        ) + (if none { Seq::empty() } else { seq![EditLine::Gap] })
    }

    /// The LFO section's lines: header, its four rows, an empty line.
    pub open spec fn lfo_lines(&self) -> Seq<EditLine> {
        seq![EditLine::Header(Section::Lfo)] + section_rows(
            Section::Lfo,
            self.section_start(Section::Lfo),
            lfo_rows(),
            -1,
            self.selected_row as int,
        ) + seq![EditLine::Gap]
    }

    /// The envelope section's lines: header and four rows, none for a VST instrument.
    pub open spec fn envelope_lines(&self) -> Seq<EditLine> {
        if self.source == SourceKind::Vst {
            Seq::empty()
        } else {
            seq![EditLine::Header(Section::Envelope)] + section_rows(
                Section::Envelope,
                self.section_start(Section::Envelope),
                env_rows(self.source),
                -1,
                self.selected_row as int,
            )
        }
    }

    /// The lines of the editor, section after section.
    pub open spec fn edit_lines(&self) -> Seq<EditLine> {
        self.source_lines() + self.filter_lines() + self.effect_lines() + self.lfo_lines() + self.envelope_lines()
    }

    /// The lines the editor draws, top to bottom.
    #[verifier::spinoff_prover]
    #[verifier::rlimit(50)]
    pub fn instrument_edit_rows(&self) -> (r: Vec<EditLine>)
        requires
            self.wf(),
        ensures
            r@ == self.edit_lines(),
    {
        let (f, e, l, env) = self.section_starts();
        let sel = self.selected_row;
        let no_params = self.source_param_count == 0;
        let no_effects = self.effects.len() == 0;
        let mut lines: Vec<EditLine> = Vec::new();
        lines.push(EditLine::Header(Section::Source));
        push_section_rows(&mut lines, Section::Source, 0, f, if no_params { Some(f - 1) } else { None }, sel);
        if !no_params {
            lines.push(EditLine::Gap);
        }
        assert(lines@ =~= self.source_lines());
        let ghost a = lines@;
        lines.push(EditLine::Header(Section::Filter));
        push_section_rows(&mut lines, Section::Filter, f, e - f, if self.filter.is_none() { Some(0) } else { None }, sel);
        lines.push(EditLine::Gap);
        assert(lines@ =~= a + self.filter_lines());
        let ghost b = lines@;
        lines.push(EditLine::Header(Section::Effects));
        push_section_rows(&mut lines, Section::Effects, e, l - e, if no_effects { Some(0) } else { None }, sel);
        if !no_effects {
            lines.push(EditLine::Gap);
        }
        assert(lines@ =~= b + self.effect_lines());
        let ghost c = lines@;
        lines.push(EditLine::Header(Section::Lfo));
        push_section_rows(&mut lines, Section::Lfo, l, 4, None, sel);
        lines.push(EditLine::Gap);
        assert(lines@ =~= c + self.lfo_lines());
        let ghost d = lines@;
        if self.source != SourceKind::Vst {
            lines.push(EditLine::Header(Section::Envelope));
            push_section_rows(&mut lines, Section::Envelope, env, 4, None, sel);
        }
        assert(lines@ =~= d + self.envelope_lines());
        lines
    }
}

/// Appends rows `start` .. `start + n` of section `s`.
fn push_section_rows(lines: &mut Vec<EditLine>, s: Section, start: usize, n: usize, placeholder: Option<usize>, selected: usize)
    requires
        start + n <= usize::MAX,
    ensures
        final(lines)@ == old(lines)@ + section_rows(
            s,
            start as int,
            n as int,
            match placeholder {
                Some(p) => p as int,
                None => -1,
            },
            selected as int,
        ),
{
    let ghost ph: int = match placeholder {
        Some(p) => p as int,
        None => -1,
    };
    let ghost before = lines@;
    let mut i: usize = 0;
    while i < n
        invariant
            i <= n,
            start + n <= usize::MAX,
            ph == match placeholder {
                Some(p) => p as int,
                None => -1,
            },
            lines@ == before + section_rows(s, start as int, i as int, ph, selected as int),
        decreases n - i,
    {
        let is_ph = match placeholder {
            Some(p) => p == i,
            None => false,
        };
        lines.push(EditLine::Row { section: s, row: start + i, placeholder: is_ph, highlighted: start + i == selected });
        proof {
            assert(is_ph == (i as int == ph));
            let next = section_rows(s, start as int, i + 1, ph, selected as int);
            assert(next[i as int] == EditLine::Row {
                section: s,
                row: (start + i) as usize,
                placeholder: is_ph,
                highlighted: start + i == selected,
            });
            assert(next =~= section_rows(s, start as int, i as int, ph, selected as int).push(
                EditLine::Row { section: s, row: (start + i) as usize, placeholder: is_ph, highlighted: start + i == selected },
            ));
        }
        i = i + 1;
        assert(lines@ =~= before + section_rows(s, start as int, i as int, ph, selected as int));
    }
}

} // verus!
