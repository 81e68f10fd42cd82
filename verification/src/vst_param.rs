//! The VST parameter pane: the parameters of the selected instrument's plugin,
//! narrowed by a case-insensitive search, with a highlighted row that nudges,
//! resets or automates the parameter under it.

use vstd::prelude::*;
use crate::action::{Action, AutomationAction, AutomationTarget, VstParamAction};
use crate::keymap::{KeyCode, Keymap};
use crate::text::{contains_chars, lowercase_chars, lowercase_of, occurs_in, str_eq};

verus! {

/// One parameter of a plugin: the plugin's own index for it and its name.
#[derive(Debug, Clone)]
pub struct VstParamInfo {
    pub index: u32,
    pub name: Vec<char>,
}

/// A parameter matches a search when the search is empty or its lower-cased text
/// occurs in the lower-cased name.
pub open spec fn param_matches(p: VstParamInfo, query: Seq<char>) -> bool {
    query.len() == 0 || occurs_in(lowercase_of(p.name@), lowercase_of(query))
}

/// The positions, in order, of the first `n` parameters that match `query`.
pub open spec fn matching_params(params: Seq<VstParamInfo>, query: Seq<char>, n: int) -> Seq<usize>
    decreases n,
{
    if n <= 0 {
        Seq::empty()
    } else if param_matches(params[n - 1], query) {
        matching_params(params, query, n - 1).push((n - 1) as usize)
    } else {
        matching_params(params, query, n - 1)
    }
}

/// The rows the pane lists: the matching parameters of the plugin, none without one.
pub open spec fn listed(params: Option<Seq<VstParamInfo>>, query: Seq<char>) -> Seq<usize> {
    match params {
        None => Seq::empty(),
        Some(p) => matching_params(p, query, p.len() as int),
    }
}

/// The view of an optional parameter list.
pub open spec fn params_view(params: Option<&Vec<VstParamInfo>>) -> Option<Seq<VstParamInfo>> {
    match params {
        None => None,
        Some(v) => Some(v@),
    }
}

proof fn lemma_matching_params_bounds(params: Seq<VstParamInfo>, query: Seq<char>, n: int)
    requires
        0 <= n <= params.len(),
    ensures
        matching_params(params, query, n).len() <= n,
        forall|i: int|
            0 <= i < matching_params(params, query, n).len() ==> #[trigger] matching_params(params, query, n)[i] < n,
    decreases n,
{
    if n > 0 {
        lemma_matching_params_bounds(params, query, n - 1);
    }
}

/// A command of the VST parameter pane, named by its action string.
#[derive(Debug, Clone, Copy, PartialEq, Eq, Structural)]
pub enum VstParamCommand {
    Up,
    Down,
    Nudge(i32),
    Reset,
    Automate,
    Discover,
    Search,
    GotoTop,
    GotoBottom,
    Cancel,
    Unknown,
}

/// The command an action string names; nudges are in hundredths of the range.
pub open spec fn spec_vst_command(a: Seq<char>) -> VstParamCommand {
    if a == "up"@ || a == "prev"@ {
        VstParamCommand::Up
    } else if a == "down"@ || a == "next"@ {
        VstParamCommand::Down
    } else if a == "left"@ || a == "adjust_down"@ {
        VstParamCommand::Nudge(-1i32)
    } else if a == "right"@ || a == "adjust_up"@ {
        VstParamCommand::Nudge(1i32)
    } else if a == "coarse_left"@ {
        VstParamCommand::Nudge(-10i32)
    } else if a == "coarse_right"@ {
        VstParamCommand::Nudge(10i32)
    } else if a == "reset"@ {
        VstParamCommand::Reset
    } else if a == "automate"@ {
        VstParamCommand::Automate
    } else if a == "discover"@ {
        VstParamCommand::Discover
    } else if a == "search"@ {
        VstParamCommand::Search
    } else if a == "goto_top"@ {
        VstParamCommand::GotoTop
    } else if a == "goto_bottom"@ {
        VstParamCommand::GotoBottom
    } else if a == "escape"@ || a == "cancel"@ {
        VstParamCommand::Cancel
    } else {
        VstParamCommand::Unknown
    }
}

/// The command an action string names.
pub fn vst_command(a: &str) -> (c: VstParamCommand)
    ensures
        c == spec_vst_command(a@),
{
    if str_eq(a, "up") || str_eq(a, "prev") {
        VstParamCommand::Up
    } else if str_eq(a, "down") || str_eq(a, "next") {
        VstParamCommand::Down
    } else if str_eq(a, "left") || str_eq(a, "adjust_down") {
        VstParamCommand::Nudge(-1)
    } else if str_eq(a, "right") || str_eq(a, "adjust_up") {
        VstParamCommand::Nudge(1)
    } else if str_eq(a, "coarse_left") {
        VstParamCommand::Nudge(-10)
    } else if str_eq(a, "coarse_right") {
        VstParamCommand::Nudge(10)
    } else if str_eq(a, "reset") {
        VstParamCommand::Reset
    } else if str_eq(a, "automate") {
        VstParamCommand::Automate
    } else if str_eq(a, "discover") {
        VstParamCommand::Discover
    } else if str_eq(a, "search") {
        VstParamCommand::Search
    } else if str_eq(a, "goto_top") {
        VstParamCommand::GotoTop
    } else if str_eq(a, "goto_bottom") {
        VstParamCommand::GotoBottom
    } else if str_eq(a, "escape") || str_eq(a, "cancel") {
        VstParamCommand::Cancel
    } else {
        VstParamCommand::Unknown
    }
}

/// The VST parameter pane's state.
pub struct VstParamPane {
    pub keymap: Keymap,
    /// The instrument whose plugin parameters are listed.
    pub instrument_id: Option<u32>,
    /// The highlighted position in `filtered_indices`.
    pub selected_param: usize,
    pub scroll_offset: usize,
    pub search_text: Vec<char>,
    pub search_active: bool,
    /// Positions in the plugin's parameter list of the rows shown.
    pub filtered_indices: Vec<usize>,
}

/// The plugin index of the parameter at position `pos` of `params`.
pub open spec fn plugin_index_at(params: Option<Seq<VstParamInfo>>, pos: usize) -> Option<u32> {
    match params {
        Some(p) => if pos < p.len() { Some(p[pos as int].index) } else { None },
        None => None,
    }
}

impl VstParamPane {
    /// A pane with no instrument, no search and nothing listed.
    pub fn new(keymap: Keymap) -> (p: VstParamPane)
        ensures
            p.keymap == keymap,
            p.instrument_id is None,
            p.selected_param == 0,
            p.scroll_offset == 0,
            p.search_text@.len() == 0,
            !p.search_active,
            p.filtered_indices@.len() == 0,
    {
        VstParamPane {
            keymap,
            instrument_id: None,
            selected_param: 0,
            scroll_offset: 0,
            search_text: Vec::new(),
            search_active: false,
            filtered_indices: Vec::new(),
        }
    }

    pub fn id(&self) -> (r: &'static str)
        ensures
            r@ == "vst_params"@,
    {
        "vst_params"
    }

    /// Lists again the parameters (of `params`, the plugin of the pane's instrument;
    /// `None` when it has none) that match the search text.
    pub fn rebuild_filter(&mut self, params: Option<&Vec<VstParamInfo>>)
        ensures
            final(self).filtered_indices@ == listed(params_view(params), old(self).search_text@),
            final(self).instrument_id == old(self).instrument_id,
            final(self).selected_param == old(self).selected_param,
            final(self).scroll_offset == old(self).scroll_offset,
            final(self).search_text == old(self).search_text,
            final(self).search_active == old(self).search_active,
    {
        let mut out: Vec<usize> = Vec::new();
        match params {
            None => {},
            Some(ps) => {
                let empty = self.search_text.len() == 0;
                let query = lowercase_chars(&self.search_text);
                let mut i: usize = 0;
                while i < ps.len()
                    invariant
                        i <= ps@.len(),
                        empty == (self.search_text@.len() == 0),
                        query@ == lowercase_of(self.search_text@),
                        out@ == matching_params(ps@, self.search_text@, i as int),
                    decreases ps@.len() - i,
                {
                    let yes = if empty {
                        true
                    } else {
                        let name = lowercase_chars(&ps[i].name);
                        contains_chars(&name, &query)
                    };
                    if yes {
                        out.push(i);
                    }
                    i = i + 1;
                }
            },
        }
        self.filtered_indices = out;
    }

    /// Follows the selected instrument (`selected`): when it changed, the highlight,
    /// scroll and search start over; then the list is rebuilt from `params`.
    pub fn sync_from_state(&mut self, selected: Option<u32>, params: Option<&Vec<VstParamInfo>>)
        ensures
            final(self).instrument_id == selected,
            selected != old(self).instrument_id ==> {
                &&& final(self).selected_param == 0
                &&& final(self).scroll_offset == 0
                &&& final(self).search_text@ == Seq::<char>::empty()
                &&& !final(self).search_active
            },
            selected == old(self).instrument_id ==> {
                &&& final(self).selected_param == old(self).selected_param
                &&& final(self).scroll_offset == old(self).scroll_offset
                &&& final(self).search_text == old(self).search_text
                &&& final(self).search_active == old(self).search_active
            },
            final(self).filtered_indices@ == listed(params_view(params), final(self).search_text@),
    {
        if selected != self.instrument_id {
            self.instrument_id = selected;
            self.selected_param = 0;
            self.scroll_offset = 0;
            self.search_text = Vec::new();
            self.search_active = false;
            assert(self.search_text@ =~= Seq::<char>::empty());
        }
        self.rebuild_filter(params);
    }

    /// The plugin's index for the parameter at position `param_idx` of `params`.
    pub fn get_param_index(&self, param_idx: usize, params: Option<&Vec<VstParamInfo>>) -> (r: Option<u32>)
        ensures
            r == plugin_index_at(params_view(params), param_idx),
    {
        match params {
            Some(ps) => if param_idx < ps.len() {
                Some(ps[param_idx].index)
            } else {
                None
            },
            None => None,
        }
    }

    fn highlighted(&self, params: Option<&Vec<VstParamInfo>>) -> (r: Option<u32>)
        ensures
            r == Self::index_at_row(self.filtered_indices@, self.selected_param, params_view(params)),
    {
        if self.selected_param < self.filtered_indices.len() {
            self.get_param_index(self.filtered_indices[self.selected_param], params)
        } else {
            None
        }
    }

    /// The highlight, scroll offset and search flag after `cmd`, from highlight
    /// `sel` and scroll offset `scroll` over `n` listed rows (search not active).
    pub open spec fn step(cmd: VstParamCommand, sel: usize, scroll: usize, n: nat) -> (usize, usize, bool) {
        match cmd {
            VstParamCommand::Up => if sel > 0 {
                let s = (sel - 1) as usize;
                (s, if s < scroll { s } else { scroll }, false)
            } else {
                (sel, scroll, false)
            },
            VstParamCommand::Down => if n > 0 && sel + 1 < n {
                ((sel + 1) as usize, scroll, false)
            } else {
                (sel, scroll, false)
            },
            VstParamCommand::Search => (sel, scroll, true),
            VstParamCommand::GotoTop => (0, 0, false),
            VstParamCommand::GotoBottom => if n > 0 {
                ((n - 1) as usize, scroll, false)
            } else {
                (sel, scroll, false)
            },
            _ => (sel, scroll, false),
        }
    }

    /// The highlight is on a listed row (or at the top of an empty list), and the
    /// list is not scrolled past it.
    pub open spec fn rows_in_bounds(self) -> bool {
        let n = self.filtered_indices@.len();
        &&& (self.selected_param < n || (n == 0 && self.selected_param == 0))
        &&& self.scroll_offset <= self.selected_param
    }

    /// The plugin index of the parameter at row `sel` of `rows`, if there is one.
    pub open spec fn index_at_row(rows: Seq<usize>, sel: usize, params: Option<Seq<VstParamInfo>>) -> Option<u32> {
        if sel < rows.len() {
            plugin_index_at(params, rows[sel as int])
        } else {
            None
        }
    }

    /// What `cmd` asks of the application for instrument `id`, with the highlighted
    /// parameter's plugin index `hl`.
    pub open spec fn command_action(cmd: VstParamCommand, id: u32, hl: Option<u32>, r: Action) -> bool {
        match cmd {
            VstParamCommand::Nudge(d) => match hl {
                Some(idx) => r == Action::VstParam(VstParamAction::AdjustParam(id, idx, d)),
                None => r == Action::NoOp,
            },
            VstParamCommand::Reset => match hl {
                Some(idx) => r == Action::VstParam(VstParamAction::ResetParam(id, idx)),
                None => r == Action::NoOp,
            },
            VstParamCommand::Automate => match hl {
                Some(idx) => r == Action::Automation(AutomationAction::AddLane(AutomationTarget::VstParam(id, idx))),
                None => r == Action::NoOp,
            },
            VstParamCommand::Discover => r == Action::VstParam(VstParamAction::DiscoverParams(id)),
            _ => r == Action::NoOp,
        }
    }

    /// Handles one action, after following the selected instrument (`selected`,
    /// whose plugin parameters are `params`). While searching only a cancel acts:
    /// it ends the search, clears it and lists every parameter again.
    pub fn handle_action(&mut self, action: &str, selected: Option<u32>, params: Option<&Vec<VstParamInfo>>) -> (r: Action)
        ensures
            final(self).instrument_id == selected,
            ({
                let o = *old(self);
                &&& o.rows_in_bounds()
                &&& !o.search_active
                &&& selected == o.instrument_id
                &&& o.filtered_indices@ == listed(params_view(params), o.search_text@)
            }) ==> final(self).rows_in_bounds(),
            ({
                let cmd = spec_vst_command(action@);
                let reset = selected != old(self).instrument_id;
                let active = if reset { false } else { old(self).search_active };
                let query = if reset { Seq::<char>::empty() } else { old(self).search_text@ };
                let sel = if reset { 0 } else { old(self).selected_param };
                let scroll = if reset { 0 } else { old(self).scroll_offset };
                let rows = listed(params_view(params), query);
                if active {
                    let cancel = cmd == VstParamCommand::Cancel;
                    &&& r == Action::NoOp
                    &&& final(self).search_active == !cancel
                    &&& final(self).search_text@ == (if cancel { Seq::empty() } else { query })
                    &&& final(self).filtered_indices@ == listed(params_view(params), final(self).search_text@)
                    &&& final(self).selected_param == sel
                    &&& final(self).scroll_offset == scroll
                } else {
                    &&& final(self).filtered_indices@ == rows
                    &&& match selected {
                        None => {
                            &&& r == Action::NoOp
                            &&& final(self).search_text@ == query
                            &&& final(self).selected_param == sel
                            &&& final(self).scroll_offset == scroll
                            &&& !final(self).search_active
                        },
                        Some(id) => {
                            let next = Self::step(cmd, sel, scroll, rows.len());
                            &&& final(self).selected_param == next.0
                            &&& final(self).scroll_offset == next.1
                            &&& final(self).search_active == next.2
                            &&& final(self).search_text@ == (if cmd == VstParamCommand::Search { Seq::empty() } else { query })
                            &&& Self::command_action(cmd, id, Self::index_at_row(rows, sel, params_view(params)), r)
                        },
                    }
                }
            }),
    {
        proof {
            let o = *old(self);
            assert(o.filtered_indices@.len() == o.filtered_indices.len());
            if o.rows_in_bounds() {
                lemma_step_keeps_rows_in_bounds(
                    spec_vst_command(action@),
                    o.selected_param,
                    o.scroll_offset,
                    o.filtered_indices@.len(),
                );
            }
        }
        self.sync_from_state(selected, params);
        let cmd = vst_command(action);
        if self.search_active {
            if cmd == VstParamCommand::Cancel {
                self.search_active = false;
                self.search_text = Vec::new();
                self.rebuild_filter(params);
            }
            return Action::NoOp;
        }
        let id = match self.instrument_id {
            Some(id) => id,
            None => return Action::NoOp,
        };
        let n = self.filtered_indices.len();
        match cmd {
            VstParamCommand::Up => {
                if self.selected_param > 0 {
                    self.selected_param = self.selected_param - 1;
                    if self.selected_param < self.scroll_offset {
                        self.scroll_offset = self.selected_param;
                    }
                }
                Action::NoOp
            },
            VstParamCommand::Down => {
                if n > 0 && self.selected_param < n - 1 {
                    self.selected_param = self.selected_param + 1;
                }
                Action::NoOp
            },
            VstParamCommand::Nudge(d) => match self.highlighted(params) {
                Some(idx) => Action::VstParam(VstParamAction::AdjustParam(id, idx, d)),
                None => Action::NoOp,
            },
            VstParamCommand::Reset => match self.highlighted(params) {
                Some(idx) => Action::VstParam(VstParamAction::ResetParam(id, idx)),
                None => Action::NoOp,
            },
            VstParamCommand::Automate => match self.highlighted(params) {
                Some(idx) => Action::Automation(AutomationAction::AddLane(AutomationTarget::VstParam(id, idx))),
                None => Action::NoOp,
            },
            VstParamCommand::Discover => Action::VstParam(VstParamAction::DiscoverParams(id)),
            VstParamCommand::Search => {
                self.search_active = true;
                self.search_text = Vec::new();
                Action::NoOp
            },
            VstParamCommand::GotoTop => {
                self.selected_param = 0;
                self.scroll_offset = 0;
                Action::NoOp
            },
            VstParamCommand::GotoBottom => {
                if n > 0 {
                    self.selected_param = n - 1;
                }
                Action::NoOp
            },
            _ => Action::NoOp,
        }
    }

    /// Handles a typed key, after following the selected instrument. While
    /// searching, a character extends the search and Backspace shortens it (the
    /// list is rebuilt and the highlight returns to the top); Escape and Enter end
    /// the search and keep it.
    pub fn handle_raw_input(&mut self, key: KeyCode, selected: Option<u32>, params: Option<&Vec<VstParamInfo>>) -> (r: Action)
        ensures
            r == Action::NoOp,
            final(self).instrument_id == selected,
            ({
                let reset = selected != old(self).instrument_id;
                let active = if reset { false } else { old(self).search_active };
                let query = if reset { Seq::<char>::empty() } else { old(self).search_text@ };
                let sel = if reset { 0 } else { old(self).selected_param };
                let scroll = if reset { 0 } else { old(self).scroll_offset };
                if active {
                    match key {
                        KeyCode::Char(c) => {
                            &&& final(self).search_text@ == query.push(c)
                            &&& final(self).filtered_indices@ == listed(params_view(params), query.push(c))
                            &&& final(self).selected_param == 0 && final(self).scroll_offset == 0
                            &&& final(self).search_active
                        },
                        KeyCode::Backspace => {
                            let q = if query.len() > 0 { query.drop_last() } else { query };
                            &&& final(self).search_text@ == q
                            &&& final(self).filtered_indices@ == listed(params_view(params), q)
                            &&& final(self).selected_param == 0 && final(self).scroll_offset == 0
                            &&& final(self).search_active
                        },
                        KeyCode::Escape | KeyCode::Enter => {
                            &&& final(self).search_text@ == query
                            &&& final(self).filtered_indices@ == listed(params_view(params), query)
                            &&& final(self).selected_param == sel && final(self).scroll_offset == scroll
                            &&& !final(self).search_active
                        },
                        _ => {
                            &&& final(self).search_text@ == query
                            &&& final(self).filtered_indices@ == listed(params_view(params), query)
                            &&& final(self).selected_param == sel && final(self).scroll_offset == scroll
                            &&& final(self).search_active
                        },
                    }
                } else {
                    &&& final(self).search_text@ == query
                    &&& final(self).filtered_indices@ == listed(params_view(params), query)
                    &&& final(self).selected_param == sel && final(self).scroll_offset == scroll
                    &&& !final(self).search_active
                }
            }),
    {
        self.sync_from_state(selected, params);
        if self.search_active {
            match key {
                KeyCode::Char(c) => {
                    self.search_text.push(c);
                    self.rebuild_filter(params);
                    self.selected_param = 0;
                    self.scroll_offset = 0;
                },
                KeyCode::Backspace => {
                    if self.search_text.len() > 0 {
                        self.search_text.pop();
                    }
                    self.rebuild_filter(params);
                    self.selected_param = 0;
                    self.scroll_offset = 0;
                },
                KeyCode::Escape | KeyCode::Enter => {
                    self.search_active = false;
                },
                _ => {},
            }
        }
        Action::NoOp
    }
}

/// Every listed row names a parameter of the plugin.
pub proof fn lemma_listed_in_range(params: Seq<VstParamInfo>, query: Seq<char>)
    ensures
        listed(Some(params), query).len() <= params.len(),
        forall|i: int|
            0 <= i < listed(Some(params), query).len() ==> #[trigger] listed(Some(params), query)[i] < params.len(),
{
    lemma_matching_params_bounds(params, query, params.len() as int);
}

/// With an empty search every parameter is listed, in order.
pub proof fn lemma_empty_search_lists_all(params: Seq<VstParamInfo>, n: int)
    requires
        0 <= n <= params.len(),
        params.len() <= usize::MAX,
    ensures
        matching_params(params, Seq::empty(), n).len() == n,
        forall|i: int| 0 <= i < n ==> #[trigger] matching_params(params, Seq::empty(), n)[i] == i,
    decreases n,
{
    if n > 0 {
        lemma_empty_search_lists_all(params, n - 1);
        let q = Seq::<char>::empty();
        assert(param_matches(params[n - 1], q));
        assert(matching_params(params, q, n) == matching_params(params, q, n - 1).push((n - 1) as usize));
    }
}

/// Every command keeps the highlight on a listed row (or at the top of an empty
/// list) with the list not scrolled past it; going to the bottom highlights the
/// last row and going to the top resets both the highlight and the scroll.
pub proof fn lemma_step_keeps_rows_in_bounds(cmd: VstParamCommand, sel: usize, scroll: usize, n: nat)
    requires
        sel < n || (n == 0 && sel == 0),
        scroll <= sel,
        n <= usize::MAX,
    ensures
        ({
            let next = VstParamPane::step(cmd, sel, scroll, n);
            &&& next.0 < n || (n == 0 && next.0 == 0)
            &&& next.1 <= next.0
            &&& cmd == VstParamCommand::GotoBottom && n > 0 ==> next.0 == n - 1
            &&& cmd == VstParamCommand::GotoTop ==> next.0 == 0 && next.1 == 0
            &&& cmd != VstParamCommand::Search ==> !next.2
        }),
{
}

} // verus!
