//! The rack of strips: the strip list, the dialog that adds a strip, and the
//! tabbed strip editor (source, filter, effects, envelope).

use vstd::prelude::*;
use crate::action::{Action, NavAction, OscType, StripAction};
use crate::effects::EffectType;
use crate::instrument_edit::{next_filter_type, FilterType, ValueEdit};
use crate::keymap::{KeyCode, Keymap};
use crate::text::str_eq;

verus! {

/// The oscillator kinds in the order the add dialog lists them.
pub open spec fn all_osc_types() -> Seq<OscType> {
    seq![OscType::Saw, OscType::Sin, OscType::Sqr, OscType::Tri]
}

/// The oscillator kinds in the order the add dialog lists them.
pub fn osc_types() -> (r: Vec<OscType>)
    ensures
        r@ == all_osc_types(),
{
    let r = vec![OscType::Saw, OscType::Sin, OscType::Sqr, OscType::Tri];
    assert(r@ =~= all_osc_types());
    r
}

/// A strip, apart from its real-valued parameters.
#[derive(Debug, Clone)]
pub struct StripSummary {
    pub id: u32,
    pub name: String,
    pub source: OscType,
    pub source_param_count: usize,
    pub filter: Option<FilterType>,
    pub effects: Vec<EffectType>,
    pub polyphonic: bool,
    pub has_track: bool,
}

/// The strips of the rack and the selected one.
#[derive(Debug)]
pub struct StripState {
    pub strips: Vec<StripSummary>,
    pub selected: Option<usize>,
}

impl StripState {
    /// An empty rack.
    pub fn new() -> (s: StripState)
        ensures
            s.strips@.len() == 0,
            s.selected is None,
    {
        StripState { strips: Vec::new(), selected: None }
    }

    /// Moves the selection one strip down, stopping at the last (the first strip is
    /// selected when nothing was).
    pub fn select_next(&mut self)
        ensures
            final(self).strips@ == old(self).strips@,
            final(self).selected == if old(self).strips@.len() == 0 {
                old(self).selected
            } else {
                match old(self).selected {
                    None => Some(0usize),
                    Some(i) => Some(if i + 1 < old(self).strips@.len() { (i + 1) as usize } else { (old(self).strips@.len() - 1) as usize }),
                }
            },
    {
        let n = self.strips.len();
        if n > 0 {
            self.selected = match self.selected {
                None => Some(0),
                Some(i) => Some(if i < n - 1 { i + 1 } else { n - 1 }),
            };
        }
    }

    /// Moves the selection one strip up, stopping at the first (the first strip is
    /// selected when nothing was).
    pub fn select_prev(&mut self)
        ensures
            final(self).strips@ == old(self).strips@,
            final(self).selected == if old(self).strips@.len() == 0 {
                old(self).selected
            } else {
                match old(self).selected {
                    None => Some(0usize),
                    Some(i) => Some(if i > 0 { (i - 1) as usize } else { 0 }),
                }
            },
    {
        if self.strips.len() > 0 {
            self.selected = match self.selected {
                None => Some(0),
                Some(i) => Some(if i > 0 { i - 1 } else { 0 }),
            };
        }
    }

    /// The id of the selected strip, if a strip is selected.
    pub fn selected_strip_id(&self) -> (r: Option<u32>)
        ensures
            r == match self.selected {
                Some(i) => if i < self.strips@.len() { Some(self.strips@[i as int].id) } else { None },
                None => None,
            },
    {
        match self.selected {
            Some(i) => if i < self.strips.len() {
                Some(self.strips[i].id)
            } else {
                None
            },
            None => None,
        }
    }
}

/// The strip list pane.
pub struct StripPane {
    pub keymap: Keymap,
    pub state: StripState,
}

impl StripPane {
    /// A strip list over an empty rack, with its key bindings.
    pub fn new() -> (p: StripPane)
        ensures
            p.state.strips@.len() == 0,
            p.state.selected is None,
            p.keymap.bindings@.len() == 10,
    {
        let keymap = Keymap::new()
            .bind("q", "quit", "Quit the application")
            .bind("Down", "next", "Next strip")
            .bind("Up", "prev", "Previous strip")
            .bind("Home", "goto_top", "Go to top")
            .bind("End", "goto_bottom", "Go to bottom")
            .bind("a", "add", "Add strip")
            .bind("d", "delete", "Delete strip")
            .bind("Enter", "edit", "Edit strip")
            .bind("w", "save", "Save")
            .bind("o", "load", "Load");
        StripPane { keymap, state: StripState::new() }
    }

    pub fn id(&self) -> (r: &'static str)
        ensures
            r@ == "strip"@,
    {
        "strip"
    }

    /// The rack.
    pub fn state(&self) -> (r: &StripState)
        ensures
            *r == self.state,
    {
        &self.state
    }

    /// The rack, to change in place.
    pub fn state_mut(&mut self) -> (r: &mut StripState)
        ensures
            *r == old(self).state,
            final(self).keymap == old(self).keymap,
            final(self).state == *final(r),
    {
        &mut self.state
    }

    /// Replaces the rack.
    pub fn set_state(&mut self, state: StripState)
        ensures
            final(self).state == state,
            final(self).keymap == old(self).keymap,
    {
        self.state = state;
    }

    /// Handles one action of the strip list.
    pub fn handle_action(&mut self, action: &str) -> (r: Action)
        ensures
            final(self).keymap == old(self).keymap,
            final(self).state.strips@ == old(self).state.strips@,
            ({
                let n = old(self).state.strips@.len();
                let sel = old(self).state.selected;
                let picked = match sel {
                    Some(i) => if i < n { Some(old(self).state.strips@[i as int].id) } else { None },
                    None => None,
                };
                if action@ == "quit"@ {
                    r == Action::Quit && final(self).state.selected == sel
                } else if action@ == "next"@ {
                    r == Action::NoOp && final(self).state.selected == if n == 0 { sel } else {
                        match sel {
                            None => Some(0usize),
                            Some(i) => Some(if i + 1 < n { (i + 1) as usize } else { (n - 1) as usize }),
                        }
                    }
                } else if action@ == "prev"@ {
                    r == Action::NoOp && final(self).state.selected == if n == 0 { sel } else {
                        match sel {
                            None => Some(0usize),
                            Some(i) => Some(if i > 0 { (i - 1) as usize } else { 0 }),
                        }
                    }
                } else if action@ == "goto_top"@ {
                    r == Action::NoOp && final(self).state.selected == if n > 0 { Some(0usize) } else { sel }
                } else if action@ == "goto_bottom"@ {
                    r == Action::NoOp && final(self).state.selected == if n > 0 { Some((n - 1) as usize) } else { sel }
                } else if action@ == "add"@ {
                    r == Action::Nav(NavAction::SwitchPane("add")) && final(self).state.selected == sel
                } else if action@ == "delete"@ {
                    final(self).state.selected == sel && r == match picked {
                        Some(id) => Action::Strip(StripAction::Delete(id)),
                        None => Action::NoOp,
                    }
                } else if action@ == "edit"@ {
                    final(self).state.selected == sel && r == match picked {
                        Some(id) => Action::Strip(StripAction::Edit(id)),
                        None => Action::NoOp,
                    }
                } else if action@ == "save"@ {
                    r == Action::Strip(StripAction::SaveRack) && final(self).state.selected == sel
                } else if action@ == "load"@ {
                    r == Action::Strip(StripAction::LoadRack) && final(self).state.selected == sel
                } else {
                    r == Action::NoOp && final(self).state.selected == sel
                }
            }),
    {
        proof {
            reveal_strlit("quit");
            reveal_strlit("next");
            reveal_strlit("prev");
            reveal_strlit("goto_top");
            reveal_strlit("goto_bottom");
            reveal_strlit("add");
            reveal_strlit("delete");
            reveal_strlit("edit");
            reveal_strlit("save");
            reveal_strlit("load");
        }
        let n = self.state.strips.len();
        if str_eq(action, "quit") {
            Action::Quit
        } else if str_eq(action, "next") {
            self.state.select_next();
            Action::NoOp
        } else if str_eq(action, "prev") {
            self.state.select_prev();
            Action::NoOp
        } else if str_eq(action, "goto_top") {
            if n > 0 {
                self.state.selected = Some(0);
            }
            Action::NoOp
        } else if str_eq(action, "goto_bottom") {
            if n > 0 {
                self.state.selected = Some(n - 1);
            }
            Action::NoOp
        } else if str_eq(action, "add") {
            Action::Nav(NavAction::SwitchPane("add"))
        } else if str_eq(action, "delete") {
            match self.state.selected_strip_id() {
                Some(id) => Action::Strip(StripAction::Delete(id)),
                None => Action::NoOp,
            }
        } else if str_eq(action, "edit") {
            match self.state.selected_strip_id() {
                Some(id) => Action::Strip(StripAction::Edit(id)),
                None => Action::NoOp,
            }
        } else if str_eq(action, "save") {
            Action::Strip(StripAction::SaveRack)
        } else if str_eq(action, "load") {
            Action::Strip(StripAction::LoadRack)
        } else {
            Action::NoOp
        }
    }
}

/// The dialog that adds a strip: a list of oscillator kinds to pick from.
pub struct AddPane {
    pub keymap: Keymap,
    pub items: Vec<OscType>,
    /// The highlighted item.
    pub selected: usize,
}

impl AddPane {
    /// The highlight is on an item.
    pub open spec fn wf(&self) -> bool {
        self.selected < self.items@.len()
    }

    /// The dialog over every oscillator kind, the first highlighted.
    pub fn new() -> (p: AddPane)
        ensures
            p.wf(),
            p.items@ == all_osc_types(),
            p.selected == 0,
            p.keymap.bindings@.len() == 4,
    {
        let keymap = Keymap::new()
            .bind("Enter", "confirm", "Add selected strip")
            .bind("Escape", "cancel", "Cancel and return")
            .bind("Down", "next", "Next")
            .bind("Up", "prev", "Previous");
        AddPane { keymap, items: osc_types(), selected: 0 }
    }

    pub fn id(&self) -> (r: &'static str)
        ensures
            r@ == "add"@,
    {
        "add"
    }

    /// Handles one action: add the highlighted kind, go back to the strip list, or
    /// move the highlight (wrapping around).
    pub fn handle_action(&mut self, action: &str) -> (r: Action)
        requires
            old(self).wf(),
        ensures
            final(self).wf(),
            final(self).keymap == old(self).keymap,
            final(self).items@ == old(self).items@,
            ({
                let n = old(self).items@.len();
                let sel = old(self).selected;
                if action@ == "confirm"@ {
                    r == Action::Strip(StripAction::Add(old(self).items@[sel as int])) && final(self).selected == sel
                } else if action@ == "cancel"@ {
                    r == Action::Nav(NavAction::SwitchPane("strip")) && final(self).selected == sel
                } else if action@ == "next"@ {
                    r == Action::NoOp && final(self).selected == (sel + 1) % (n as int)
                } else if action@ == "prev"@ {
                    r == Action::NoOp && final(self).selected == (if sel == 0 { n - 1 } else { sel - 1 })
                } else {
                    r == Action::NoOp && final(self).selected == sel
                }
            }),
    {
        proof {
            reveal_strlit("confirm");
            reveal_strlit("cancel");
            reveal_strlit("next");
            reveal_strlit("prev");
        }
        let n = self.items.len();
        if str_eq(action, "confirm") {
            Action::Strip(StripAction::Add(self.items[self.selected]))
        } else if str_eq(action, "cancel") {
            Action::Nav(NavAction::SwitchPane("strip"))
        } else if str_eq(action, "next") {
            self.selected = (self.selected + 1) % n;
            Action::NoOp
        } else if str_eq(action, "prev") {
            self.selected = if self.selected == 0 { n - 1 } else { self.selected - 1 };
            Action::NoOp
        } else {
            Action::NoOp
        }
    }
}

/// A tab of the strip editor.
#[derive(Debug, Clone, Copy, PartialEq, Eq, Structural)]
pub enum Tab {
    Source,
    Filter,
    Effects,
    Envelope,
}

/// The editor's tabs, in order.
pub open spec fn all_tabs() -> Seq<Tab> {
    seq![Tab::Source, Tab::Filter, Tab::Effects, Tab::Envelope]
}

/// The tab after `t`, wrapping around.
pub open spec fn next_tab(t: Tab) -> Tab {
    match t {
        Tab::Source => Tab::Filter,
        Tab::Filter => Tab::Effects,
        Tab::Effects => Tab::Envelope,
        Tab::Envelope => Tab::Source,
    }
}

/// The title of a tab.
pub open spec fn tab_name(t: Tab) -> Seq<char> {
    match t {
        Tab::Source => "Source"@,
        Tab::Filter => "Filter"@,
        Tab::Effects => "Effects"@,
        Tab::Envelope => "Envelope"@,
    }
}

impl Tab {
    /// The editor's tabs, in order.
    pub fn all() -> (r: Vec<Tab>)
        ensures
            r@ == all_tabs(),
    {
        let r = vec![Tab::Source, Tab::Filter, Tab::Effects, Tab::Envelope];
        assert(r@ =~= all_tabs());
        r
    }

    /// The title of the tab.
    pub fn name(&self) -> (r: &'static str)
        ensures
            r@ == tab_name(*self),
    {
        match self {
            Tab::Source => "Source",
            Tab::Filter => "Filter",
            Tab::Effects => "Effects",
            Tab::Envelope => "Envelope",
        }
    }

    /// The tab after this one, wrapping around.
    pub fn next(&self) -> (r: Tab)
        ensures
            r == next_tab(*self),
    {
        match self {
            Tab::Source => Tab::Filter,
            Tab::Filter => Tab::Effects,
            Tab::Effects => Tab::Envelope,
            Tab::Envelope => Tab::Source,
        }
    }
}

/// Pressing next tab four times comes back to the same tab.
pub proof fn lemma_tab_cycle(t: Tab)
    ensures
        next_tab(next_tab(next_tab(next_tab(t)))) == t,
        all_tabs().contains(t),
{
    assert(all_tabs()[0] == Tab::Source);
    assert(all_tabs()[1] == Tab::Filter);
    assert(all_tabs()[2] == Tab::Effects);
    assert(all_tabs()[3] == Tab::Envelope);
}

/// The rows of a tab of the strip editor.
pub open spec fn tab_rows(tab: Tab, param_count: usize, has_filter: bool, effect_count: nat) -> nat {
    match tab {
        Tab::Source => param_count as nat,
        Tab::Filter => if has_filter { 3 } else { 1 },
        Tab::Effects => if effect_count > 1 { effect_count } else { 1 },
        Tab::Envelope => 4,
    }
}

/// The effect kind the strip editor appends after an effect of kind `last`.
pub open spec fn next_strip_effect(last: Option<EffectType>) -> EffectType {
    match last {
        Some(EffectType::Delay) => EffectType::Reverb,
        _ => EffectType::Delay,
    }
}

/// The strip editor's state.
pub struct StripEditPane {
    pub keymap: Keymap,
    pub strip_id: Option<u32>,
    pub strip_name: String,
    pub source: OscType,
    pub source_param_count: usize,
    pub filter: Option<FilterType>,
    pub effects: Vec<EffectType>,
    pub polyphonic: bool,
    pub has_track: bool,
    pub tab: Tab,
    /// The highlighted row of the tab.
    pub selected_row: usize,
    /// Whether a value is being typed in.
    pub editing: bool,
}

impl StripEditPane {
    /// The highlighted row has a successor, and effects can be added.
    pub open spec fn wf(&self) -> bool {
        &&& self.selected_row < usize::MAX
        &&& self.effects@.len() < usize::MAX
    }

    /// The rows of the current tab.
    pub open spec fn spec_row_count(&self) -> nat {
        tab_rows(self.tab, self.source_param_count, self.filter is Some, self.effects@.len())
    }

    /// The request to apply the edits to the strip, if there is one.
    pub open spec fn update_action(&self) -> Action {
        match self.strip_id {
            Some(id) => Action::Strip(StripAction::Update(id)),
            None => Action::NoOp,
        }
    }

    /// An editor for no strip, with its key bindings: a saw strip with no
    /// parameters, no filter and no effects, polyphonic, with a track.
    pub fn new() -> (p: StripEditPane)
        ensures
            p.wf(),
            p.strip_id is None,
            p.strip_name@.len() == 0,
            p.source == OscType::Saw,
            p.source_param_count == 0,
            p.filter is None,
            p.effects@.len() == 0,
            p.polyphonic,
            p.has_track,
            p.tab == Tab::Source,
            p.selected_row == 0,
            !p.editing,
            p.keymap.bindings@.len() == 15,
    {
        let keymap = Keymap::new()
            .bind("Escape", "done", "Done editing")
            .bind("Tab", "next_tab", "Next tab")
            .bind("Down", "next", "Next item")
            .bind("Up", "prev", "Previous item")
            .bind("Left", "decrease", "Decrease value")
            .bind("Right", "increase", "Increase value")
            .bind("PageUp", "increase_big", "Increase +10%")
            .bind("PageDown", "decrease_big", "Decrease -10%")
            .bind("Enter", "enter_edit", "Type value")
            .bind("f", "toggle_filter", "Toggle filter on/off")
            .bind("t", "cycle_filter_type", "Cycle filter type")
            .bind("a", "add_effect", "Add effect")
            .bind("d", "remove_effect", "Remove effect")
            .bind("p", "toggle_poly", "Toggle polyphonic")
            .bind("r", "toggle_track", "Toggle piano roll track");
        StripEditPane {
            keymap,
            strip_id: None,
            strip_name: String::new(),
            source: OscType::Saw,
            source_param_count: 0,
            filter: None,
            effects: Vec::new(),
            polyphonic: true,
            has_track: true,
            tab: Tab::Source,
            selected_row: 0,
            editing: false,
        }
    }

    pub fn id(&self) -> (r: &'static str)
        ensures
            r@ == "strip_edit"@,
    {
        "strip_edit"
    }

    /// Loads a strip into the editor, on the first row of the source tab.
    pub fn set_strip(&mut self, strip: &StripSummary)
        requires
            strip.effects@.len() < usize::MAX,
        ensures
            final(self).wf(),
            final(self).keymap == old(self).keymap,
            final(self).strip_id == Some(strip.id),
            final(self).strip_name@ == strip.name@,
            final(self).source == strip.source,
            final(self).source_param_count == strip.source_param_count,
            final(self).filter == strip.filter,
            final(self).effects@ == strip.effects@,
            final(self).polyphonic == strip.polyphonic,
            final(self).has_track == strip.has_track,
            final(self).tab == Tab::Source,
            final(self).selected_row == 0,
            final(self).editing == old(self).editing,
    {
        self.strip_id = Some(strip.id);
        self.strip_name = strip.name.clone();
        self.source = strip.source;
        self.source_param_count = strip.source_param_count;
        self.filter = strip.filter;
        self.effects = strip.effects.clone();
        self.polyphonic = strip.polyphonic;
        self.has_track = strip.has_track;
        self.tab = Tab::Source;
        self.selected_row = 0;
    }

    /// The strip being edited.
    pub fn strip_id(&self) -> (r: Option<u32>)
        ensures
            r == self.strip_id,
    {
        self.strip_id
    }

    /// Writes the edits back to a strip (its id and name stay).
    pub fn apply_to(&self, strip: &mut StripSummary)
        ensures
            final(strip).id == old(strip).id,
            final(strip).name == old(strip).name,
            final(strip).source == self.source,
            final(strip).source_param_count == self.source_param_count,
            final(strip).filter == self.filter,
            final(strip).effects@ == self.effects@,
            final(strip).polyphonic == self.polyphonic,
            final(strip).has_track == self.has_track,
    {
        strip.source = self.source;
        strip.source_param_count = self.source_param_count;
        strip.filter = self.filter;
        strip.effects = self.effects.clone();
        strip.polyphonic = self.polyphonic;
        strip.has_track = self.has_track;
    }

    /// The rows of the current tab.
    pub fn row_count(&self) -> (r: usize)
        ensures
            r == self.spec_row_count(),
    {
        match self.tab {
            Tab::Source => self.source_param_count,
            Tab::Filter => if self.filter.is_some() { 3 } else { 1 },
            Tab::Effects => if self.effects.len() > 1 { self.effects.len() } else { 1 },
            Tab::Envelope => 4,
        }
    }

    /// Handles a key while a value is typed in: Enter applies the typed text and
    /// asks for the strip's update, Escape drops it; other keys go to the text.
    pub fn handle_raw_input(&mut self, key: KeyCode) -> (r: (Action, ValueEdit))
        requires
            old(self).editing,
        ensures
            *final(self) == (StripEditPane {
                editing: !(key == KeyCode::Enter || key == KeyCode::Escape),
                ..*old(self)
            }),
            r == match key {
                KeyCode::Enter => (old(self).update_action(), ValueEdit::ApplyText),
                _ => (Action::NoOp, ValueEdit::Nothing),
            },
    {
        match key {
            KeyCode::Enter => {
                self.editing = false;
                let r = match self.strip_id {
                    Some(id) => Action::Strip(StripAction::Update(id)),
                    None => Action::NoOp,
                };
                (r, ValueEdit::ApplyText)
            },
            KeyCode::Escape => {
                self.editing = false;
                (Action::NoOp, ValueEdit::Nothing)
            },
            _ => (Action::NoOp, ValueEdit::Nothing),
        }
    }

    /// Handles one action of the strip editor. Returns what to ask of the
    /// application, and the edit of a real-valued parameter (or of the
    /// application's copy of the parameter lists) that goes with it, at the current
    /// tab and row.
    pub fn handle_action(&mut self, action: &str) -> (r: (Action, ValueEdit))
        requires
            old(self).wf(),
            old(self).effects@.len() + 1 < usize::MAX,
        ensures
            final(self).wf(),
            final(self).keymap == old(self).keymap,
            final(self).strip_id == old(self).strip_id,
            final(self).strip_name == old(self).strip_name,
            final(self).source == old(self).source,
            final(self).source_param_count == old(self).source_param_count,
            ({
                let o = *old(self);
                let f = *final(self);
                let count = o.spec_row_count();
                let upd = o.update_action();
                let n = o.effects@.len();
                if action@ == "done"@ {
                    r == (upd, ValueEdit::Nothing) && f == o
                } else if action@ == "next_tab"@ {
                    r == (Action::NoOp, ValueEdit::Nothing) && f == (StripEditPane { tab: next_tab(o.tab), selected_row: 0, ..o })
                } else if action@ == "next"@ {
                    r == (Action::NoOp, ValueEdit::Nothing) && f == (StripEditPane {
                        selected_row: if count > 0 { ((o.selected_row + 1) % (count as int)) as usize } else { o.selected_row },
                        ..o
                    })
                } else if action@ == "prev"@ {
                    r == (Action::NoOp, ValueEdit::Nothing) && f == (StripEditPane {
                        selected_row: if count > 0 {
                            if o.selected_row == 0 { (count - 1) as usize } else { (o.selected_row - 1) as usize }
                        } else {
                            o.selected_row
                        },
                        ..o
                    })
                } else if action@ == "increase"@ {
                    f == o && r == (upd, ValueEdit::Adjust { increase: true, big: false })
                } else if action@ == "decrease"@ {
                    f == o && r == (upd, ValueEdit::Adjust { increase: false, big: false })
                } else if action@ == "increase_big"@ {
                    f == o && r == (upd, ValueEdit::Adjust { increase: true, big: true })
                } else if action@ == "decrease_big"@ {
                    f == o && r == (upd, ValueEdit::Adjust { increase: false, big: true })
                } else if action@ == "enter_edit"@ {
                    r == (Action::NoOp, ValueEdit::Nothing) && f == (StripEditPane { editing: true, ..o })
                } else if action@ == "toggle_filter"@ {
                    &&& f.filter == (if o.filter is Some { None } else { Some(FilterType::Lpf) })
                    &&& f.selected_row == 0
                    &&& f.effects@ == o.effects@ && f.tab == o.tab && f.editing == o.editing
                    &&& f.polyphonic == o.polyphonic && f.has_track == o.has_track
                    &&& r == (upd, if o.filter is Some { ValueEdit::DropFilter } else { ValueEdit::NewFilter })
                } else if action@ == "cycle_filter_type"@ {
                    &&& f.filter == match o.filter { Some(t) => Some(next_filter_type(t)), None => None }
                    &&& f.selected_row == o.selected_row
                    &&& f.effects@ == o.effects@ && f.tab == o.tab && f.editing == o.editing
                    &&& f.polyphonic == o.polyphonic && f.has_track == o.has_track
                    &&& r == (if o.filter is Some { upd } else { Action::NoOp }, ValueEdit::Nothing)
                } else if action@ == "add_effect"@ {
                    let next = next_strip_effect(if n > 0 { Some(o.effects@.last()) } else { None });
                    &&& f.filter == o.filter && f.selected_row == o.selected_row && f.tab == o.tab
                    &&& f.editing == o.editing && f.polyphonic == o.polyphonic && f.has_track == o.has_track
                    &&& if o.tab == Tab::Effects {
                        f.effects@ == o.effects@.push(next) && r == (upd, ValueEdit::AppendEffect(next))
                    } else {
                        f.effects@ == o.effects@ && r == (Action::NoOp, ValueEdit::Nothing)
                    }
                } else if action@ == "remove_effect"@ {
                    &&& f.filter == o.filter && f.tab == o.tab
                    &&& f.editing == o.editing && f.polyphonic == o.polyphonic && f.has_track == o.has_track
                    &&& if o.tab == Tab::Effects && n > 0 {
                        let idx = if o.selected_row < n - 1 { o.selected_row as int } else { n - 1 };
                        &&& f.effects@ == o.effects@.remove(idx)
                        &&& f.selected_row == (if o.selected_row > 0 && o.selected_row >= n - 1 {
                            if n - 1 > 0 { (n - 2) as usize } else { 0 }
                        } else {
                            o.selected_row
                        })
                        &&& r == (upd, ValueEdit::RemoveEffect(idx as usize))
                    } else {
                        f.effects@ == o.effects@ && f.selected_row == o.selected_row && r == (Action::NoOp, ValueEdit::Nothing)
                    }
                } else if action@ == "toggle_poly"@ {
                    r == (upd, ValueEdit::Nothing) && f == (StripEditPane { polyphonic: !o.polyphonic, ..o })
                } else if action@ == "toggle_track"@ {
                    r == (upd, ValueEdit::Nothing) && f == (StripEditPane { has_track: !o.has_track, ..o })
                } else {
                    r == (Action::NoOp, ValueEdit::Nothing) && f == o
                }
            }),
    {
        proof {
            reveal_strlit("done");
            reveal_strlit("next_tab");
            reveal_strlit("next");
            reveal_strlit("prev");
            reveal_strlit("increase");
            reveal_strlit("decrease");
            reveal_strlit("increase_big");
            reveal_strlit("decrease_big");
            reveal_strlit("enter_edit");
            reveal_strlit("toggle_filter");
            reveal_strlit("cycle_filter_type");
            reveal_strlit("add_effect");
            reveal_strlit("remove_effect");
            reveal_strlit("toggle_poly");
            reveal_strlit("toggle_track");
        }
        let upd = match self.strip_id {
            Some(id) => Action::Strip(StripAction::Update(id)),
            None => Action::NoOp,
        };
        let nothing = (Action::NoOp, ValueEdit::Nothing);
        if str_eq(action, "done") {
            (upd, ValueEdit::Nothing)
        } else if str_eq(action, "next_tab") {
            self.tab = self.tab.next();
            self.selected_row = 0;
            nothing
        } else if str_eq(action, "next") {
            let count = self.row_count();
            if count > 0 {
                self.selected_row = (self.selected_row + 1) % count;
            }
            nothing
        } else if str_eq(action, "prev") {
            let count = self.row_count();
            if count > 0 {
                self.selected_row = if self.selected_row == 0 { count - 1 } else { self.selected_row - 1 };
            }
            nothing
        } else if str_eq(action, "increase") {
            (upd, ValueEdit::Adjust { increase: true, big: false })
        } else if str_eq(action, "decrease") {
            (upd, ValueEdit::Adjust { increase: false, big: false })
        } else if str_eq(action, "increase_big") {
            (upd, ValueEdit::Adjust { increase: true, big: true })
        } else if str_eq(action, "decrease_big") {
            (upd, ValueEdit::Adjust { increase: false, big: true })
        } else if str_eq(action, "enter_edit") {
            self.editing = true;
            nothing
        } else if str_eq(action, "toggle_filter") {
            self.selected_row = 0;
            if self.filter.is_some() {
                self.filter = None;
                (upd, ValueEdit::DropFilter)
            } else {
                self.filter = Some(FilterType::Lpf);
                (upd, ValueEdit::NewFilter)
            }
        } else if str_eq(action, "cycle_filter_type") {
            match self.filter {
                Some(t) => {
                    self.filter = Some(match t {
                        FilterType::Lpf => FilterType::Hpf,
                        FilterType::Hpf => FilterType::Bpf,
                        FilterType::Bpf => FilterType::Lpf,
                    });
                    (upd, ValueEdit::Nothing)
                },
                None => nothing,
            }
        } else if str_eq(action, "add_effect") {
            if self.tab == Tab::Effects {
                let n = self.effects.len();
                let next = if n == 0 {
                    EffectType::Delay
                } else {
                    match self.effects[n - 1] {
                        EffectType::Delay => EffectType::Reverb,
                        _ => EffectType::Delay,
                    }
                };
                self.effects.push(next);
                (upd, ValueEdit::AppendEffect(next))
            } else {
                nothing
            }
        } else if str_eq(action, "remove_effect") {
            let n = self.effects.len();
            if self.tab == Tab::Effects && n > 0 {
                let idx = if self.selected_row < n - 1 { self.selected_row } else { n - 1 };
                self.effects.remove(idx);
                let m = self.effects.len();
                if self.selected_row > 0 && self.selected_row >= m {
                    self.selected_row = if m > 0 { m - 1 } else { 0 };
                }
                (upd, ValueEdit::RemoveEffect(idx))
            } else {
                nothing
            }
        } else if str_eq(action, "toggle_poly") {
            self.polyphonic = !self.polyphonic;
            (upd, ValueEdit::Nothing)
        } else if str_eq(action, "toggle_track") {
            self.has_track = !self.has_track;
            (upd, ValueEdit::Nothing)
        } else {
            nothing
        }
    }
}

} // verus!
