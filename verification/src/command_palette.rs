//! The command palette: a prompt that filters the available commands by what is
//! typed (case-insensitively, in the action name or the description), completes
//! with Tab, and hands the chosen command back when it closes.

use vstd::prelude::*;
use crate::action::{Action, NavAction};
use crate::keymap::{KeyCode, Keymap};
use crate::text::{
    chars_of, contains_chars, copy_chars, is_prefix, lcp, lcp_chars, lemma_lcp, lowercase_chars, lowercase_of,
    occurs_in, str_eq, string_of,
};

verus! {

/// Rows of matches the palette shows at once.
pub const MAX_VISIBLE: usize = 10;

/// A command the palette offers: its action name, description, and key display.
#[derive(Debug)]
pub struct PaletteEntry {
    pub action: Vec<char>,
    pub description: Vec<char>,
    pub keys: String,
}

/// Whether an entry matches the lower-cased query `q` (an empty query matches all).
pub open spec fn entry_matches(e: PaletteEntry, q: Seq<char>) -> bool {
    lowered_match(lowercase_of(e.action@), lowercase_of(e.description@), q)
}

/// An entry whose action and description lower-case to `action` and
/// `description` matches the lower-cased query `q`: every entry matches an empty
/// query, else `q` occurs in the action or in the description.
pub open spec fn lowered_match(action: Seq<char>, description: Seq<char>, q: Seq<char>) -> bool {
    q.len() == 0 || occurs_in(action, q) || occurs_in(description, q)
}

/// Whether an entry matches, given its action and description and the query,
/// each already in lower case.
pub fn matches_lowered(action: &Vec<char>, description: &Vec<char>, query: &Vec<char>) -> (r: bool)
    ensures
        r == lowered_match(action@, description@, query@),
{
    query.len() == 0 || contains_chars(action, query) || contains_chars(description, query)
}

/// The indices, in order, of the first `n` entries that match `q`.
pub open spec fn matching(cmds: Seq<PaletteEntry>, q: Seq<char>, n: int) -> Seq<usize>
    decreases n,
{
    if n <= 0 {
        Seq::empty()
    } else if entry_matches(cmds[n - 1], q) {
        matching(cmds, q, n - 1).push((n - 1) as usize)
    } else {
        matching(cmds, q, n - 1)
    }
}

/// The indices of the entries that match the typed filter `base`.
pub open spec fn filtered_for(cmds: Seq<PaletteEntry>, base: Seq<char>) -> Seq<usize> {
    matching(cmds, lowercase_of(base), cmds.len() as int)
}

/// The longest common prefix of the action names of the first `n` matches.
pub open spec fn lcp_of_matches(cmds: Seq<PaletteEntry>, filtered: Seq<usize>, n: int) -> Seq<char>
    decreases n,
{
    if n <= 1 {
        cmds[filtered[0] as int].action@
    } else {
        lcp(lcp_of_matches(cmds, filtered, n - 1), cmds[filtered[n - 1] as int].action@)
    }
}

/// The scroll offset that keeps row `selected` among the `MAX_VISIBLE` shown rows.
pub open spec fn scroll_for(selected: usize, scroll: usize) -> usize {
    if selected < scroll {
        selected
    } else if selected >= scroll + MAX_VISIBLE {
        (selected - (MAX_VISIBLE - 1)) as usize
    } else {
        scroll
    }
}

/// With an empty query every entry matches, in order.
proof fn lemma_empty_query_lists_all(cmds: Seq<PaletteEntry>, q: Seq<char>, n: int)
    requires
        0 <= n <= cmds.len(),
        cmds.len() <= usize::MAX,
        q.len() == 0,
    ensures
        matching(cmds, q, n) == Seq::new(n as nat, |i: int| i as usize),
    decreases n,
{
    if n > 0 {
        lemma_empty_query_lists_all(cmds, q, n - 1);
        assert(matching(cmds, q, n) =~= Seq::new(n as nat, |i: int| i as usize));
    }
}

proof fn lemma_matching_bounds(cmds: Seq<PaletteEntry>, q: Seq<char>, n: int)
    requires
        0 <= n <= cmds.len(),
    ensures
        matching(cmds, q, n).len() <= n,
        forall|i: int| 0 <= i < matching(cmds, q, n).len() ==> #[trigger] matching(cmds, q, n)[i] < n,
    decreases n,
{
    if n > 0 {
        lemma_matching_bounds(cmds, q, n - 1);
    }
}

/// The common prefix of the first `n` matches' action names begins each of them.
proof fn lemma_lcp_of_matches_is_common(cmds: Seq<PaletteEntry>, filtered: Seq<usize>, n: int)
    requires
        1 <= n <= filtered.len(),
        forall|i: int| 0 <= i < filtered.len() ==> #[trigger] filtered[i] < cmds.len(),
    ensures
        forall|i: int| 0 <= i < n ==> is_prefix(lcp_of_matches(cmds, filtered, n), #[trigger] cmds[filtered[i] as int].action@),
    decreases n,
{
    if n > 1 {
        lemma_lcp_of_matches_is_common(cmds, filtered, n - 1);
        let prev = lcp_of_matches(cmds, filtered, n - 1);
        let last = cmds[filtered[n - 1] as int].action@;
        let l = lcp(prev, last);
        lemma_lcp(prev, last, l);
        assert forall|i: int| 0 <= i < n implies is_prefix(l, #[trigger] cmds[filtered[i] as int].action@) by {
            if i < n - 1 {
                let a = cmds[filtered[i] as int].action@;
                assert(a.subrange(0, l.len() as int) =~= prev.subrange(0, l.len() as int));
            }
        }
    } else {
        let a = cmds[filtered[0] as int].action@;
        assert(a.subrange(0, a.len() as int) =~= a);
    }
}

/// A text that begins two texts begins their longest common prefix.
proof fn lemma_common_prefix_in_lcp(t: Seq<char>, a: Seq<char>, b: Seq<char>)
    requires
        is_prefix(t, a),
        is_prefix(t, b),
    ensures
        is_prefix(t, lcp(a, b)),
{
    let l = lcp(a, b);
    lemma_lcp(a, b, l);
    if t.len() > l.len() {
        assert(a[l.len() as int] == a.subrange(0, t.len() as int)[l.len() as int]);
        assert(b[l.len() as int] == b.subrange(0, t.len() as int)[l.len() as int]);
    }
    assert(l.subrange(0, t.len() as int) =~= a.subrange(0, l.len() as int).subrange(0, t.len() as int));
    assert(a.subrange(0, l.len() as int).subrange(0, t.len() as int) =~= a.subrange(0, t.len() as int));
}

/// A text that begins each of the first `n` matches' action names begins their
/// common prefix.
proof fn lemma_common_prefix_in_lcp_of_matches(t: Seq<char>, cmds: Seq<PaletteEntry>, filtered: Seq<usize>, n: int)
    requires
        1 <= n <= filtered.len(),
        forall|i: int| 0 <= i < n ==> is_prefix(t, #[trigger] cmds[filtered[i] as int].action@),
    ensures
        is_prefix(t, lcp_of_matches(cmds, filtered, n)),
    decreases n,
{
    if n > 1 {
        lemma_common_prefix_in_lcp_of_matches(t, cmds, filtered, n - 1);
        lemma_common_prefix_in_lcp(t, lcp_of_matches(cmds, filtered, n - 1), cmds[filtered[n - 1] as int].action@);
    } else {
        assert(is_prefix(t, cmds[filtered[0] as int].action@));
    }
}

/// The command palette's state.
pub struct CommandPalettePane {
    pub keymap: Keymap,
    pub commands: Vec<PaletteEntry>,
    /// The text at the prompt.
    pub input: Vec<char>,
    /// The character position of the prompt cursor.
    pub cursor: usize,
    /// Indices into `commands` of the entries matching `filter_base`.
    pub filtered: Vec<usize>,
    /// The highlighted position within `filtered`.
    pub selected: usize,
    /// The first shown position within `filtered`.
    pub scroll: usize,
    /// The text typed by hand, which the matches follow (Tab cycling changes `input`
    /// but not this).
    pub filter_base: Vec<char>,
    /// The command chosen when the palette closed.
    pub pending_command: Option<Vec<char>>,
}

impl CommandPalettePane {
    /// The cursor is within the prompt text, the matches point at commands, and the
    /// highlight is on a shown match (or 0 when nothing matches).
    pub open spec fn wf(&self) -> bool {
        &&& self.cursor <= self.input@.len()
        &&& forall|i: int| 0 <= i < self.filtered@.len() ==> #[trigger] self.filtered@[i] < self.commands@.len()
        &&& if self.filtered@.len() == 0 {
            self.selected == 0
        } else {
            self.selected < self.filtered@.len()
        }
        &&& self.scroll <= self.selected
    }

    /// An empty palette.
    pub fn new(keymap: Keymap) -> (p: CommandPalettePane)
        ensures
            p.wf(),
            p.keymap == keymap,
            p.commands@.len() == 0,
            p.input@.len() == 0,
            p.cursor == 0,
            p.filtered@.len() == 0,
            p.selected == 0,
            p.scroll == 0,
            p.filter_base@.len() == 0,
            p.pending_command is None,
    {
        CommandPalettePane {
            keymap,
            commands: Vec::new(),
            input: Vec::new(),
            cursor: 0,
            filtered: Vec::new(),
            selected: 0,
            scroll: 0,
            filter_base: Vec::new(),
            pending_command: None,
        }
    }

    pub fn id(&self) -> (r: &'static str)
        ensures
            r@ == "command_palette"@,
    {
        "command_palette"
    }

    /// Recomputes the matches of the typed filter and highlights the first one.
    pub fn update_filter(&mut self)
        requires
            old(self).cursor <= old(self).input@.len(),
        ensures
            final(self).wf(),
            final(self).filtered@ == filtered_for(old(self).commands@, old(self).filter_base@),
            final(self).selected == 0,
            final(self).scroll == 0,
            final(self).commands == old(self).commands,
            final(self).input == old(self).input,
            final(self).cursor == old(self).cursor,
            final(self).filter_base == old(self).filter_base,
            final(self).pending_command == old(self).pending_command,
            final(self).keymap == old(self).keymap,
            old(self).filter_base@.len() == 0 ==> final(self).filtered@ == Seq::new(
                old(self).commands@.len(),
                |i: int| i as usize,
            ),
    {
        let q = lowercase_chars(&self.filter_base);
        let ghost qs = lowercase_of(self.filter_base@);
        let mut out: Vec<usize> = Vec::new();
        let mut i: usize = 0;
        let n = self.commands.len();
        while i < n
            invariant
                n == self.commands@.len(),
                i <= n,
                q@ == qs,
                out@ == matching(self.commands@, qs, i as int),
            decreases n - i,
        {
            let e = &self.commands[i];
            let m = if q.len() == 0 {
                true
            } else {
                let a = lowercase_chars(&e.action);
                let d = lowercase_chars(&e.description);
                matches_lowered(&a, &d, &q)
            };
            if m {
                out.push(i);
            }
            i = i + 1;
        }
        proof {
            lemma_matching_bounds(self.commands@, qs, n as int);
            if self.filter_base@.len() == 0 {
                lemma_empty_query_lists_all(self.commands@, qs, n as int);
            }
        }
        self.filtered = out;
        self.selected = 0;
        self.scroll = 0;
    }

    /// Fills the palette with `commands` (action, description, key display) and
    /// clears the prompt; everything matches.
    pub fn open(&mut self, commands: Vec<(String, String, String)>)
        ensures
            final(self).wf(),
            final(self).commands@.len() == commands@.len(),
            forall|i: int|
                0 <= i < commands@.len() ==> {
                    &&& (#[trigger] final(self).commands@[i]).action@ == commands@[i].0@
                    &&& final(self).commands@[i].description@ == commands@[i].1@
                    &&& final(self).commands@[i].keys@ == commands@[i].2@
                },
            final(self).input@.len() == 0,
            final(self).cursor == 0,
            final(self).filter_base@.len() == 0,
            final(self).pending_command is None,
            final(self).filtered@ == filtered_for(final(self).commands@, Seq::<char>::empty()),
            final(self).filtered@ == Seq::new(commands@.len(), |i: int| i as usize),
            final(self).selected == 0,
            final(self).scroll == 0,
            final(self).keymap == old(self).keymap,
    {
        let mut entries: Vec<PaletteEntry> = Vec::new();
        let mut i: usize = 0;
        while i < commands.len()
            invariant
                i <= commands@.len(),
                entries@.len() == i,
                forall|j: int|
                    0 <= j < i ==> {
                        &&& (#[trigger] entries@[j]).action@ == commands@[j].0@
                        &&& entries@[j].description@ == commands@[j].1@
                        &&& entries@[j].keys@ == commands@[j].2@
                    },
            decreases commands@.len() - i,
        {
            let (a, d, k) = &commands[i];
            let entry = PaletteEntry {
                action: chars_of(a.as_str()),
                description: chars_of(d.as_str()),
                keys: k.clone(),
            };
            entries.push(entry);
            i = i + 1;
        }
        self.commands = entries;
        self.input = Vec::new();
        self.cursor = 0;
        self.filter_base = Vec::new();
        self.pending_command = None;
        self.selected = 0;
        self.scroll = 0;
        self.update_filter();
        assert(self.filter_base@ =~= Seq::<char>::empty());
    }

    /// Hands out the command chosen when the palette closed, and forgets it.
    pub fn take_command(&mut self) -> (r: Option<String>)
        ensures
            match old(self).pending_command {
                Some(c) => r is Some && r->0@ == c@,
                None => r is None,
            },
            final(self).pending_command is None,
            final(self).commands == old(self).commands,
            final(self).input == old(self).input,
            final(self).cursor == old(self).cursor,
            final(self).filtered == old(self).filtered,
            final(self).selected == old(self).selected,
            final(self).scroll == old(self).scroll,
            final(self).filter_base == old(self).filter_base,
            final(self).keymap == old(self).keymap,
    {
        let p = self.pending_command.take();
        match p {
            Some(c) => Some(string_of(&c)),
            None => None,
        }
    }

    /// Scrolls so that the highlighted match is shown.
    pub fn ensure_visible(&mut self)
        ensures
            final(self).scroll == scroll_for(old(self).selected, old(self).scroll),
            final(self).scroll <= final(self).selected,
            final(self).selected < final(self).scroll + MAX_VISIBLE,
            final(self).selected == old(self).selected,
            final(self).commands == old(self).commands,
            final(self).input == old(self).input,
            final(self).cursor == old(self).cursor,
            final(self).filtered == old(self).filtered,
            final(self).filter_base == old(self).filter_base,
            final(self).pending_command == old(self).pending_command,
            final(self).keymap == old(self).keymap,
    {
        if self.selected < self.scroll {
            self.scroll = self.selected;
        } else if self.selected - self.scroll >= MAX_VISIBLE {
            self.scroll = self.selected - (MAX_VISIBLE - 1);
        }
    }

    /// Puts the action name of the highlighted match at the prompt, cursor at its end.
    fn show_selected(&mut self)
        requires
            old(self).wf(),
            old(self).filtered@.len() > 0,
        ensures
            final(self).input@ == old(self).commands@[old(self).filtered@[old(self).selected as int] as int].action@,
            final(self).cursor == final(self).input@.len(),
            final(self).commands == old(self).commands,
            final(self).filtered == old(self).filtered,
            final(self).selected == old(self).selected,
            final(self).scroll == old(self).scroll,
            final(self).filter_base == old(self).filter_base,
            final(self).pending_command == old(self).pending_command,
            final(self).keymap == old(self).keymap,
    {
        let idx = self.filtered[self.selected];
        let a = copy_chars(&self.commands[idx].action);
        self.input = a;
        self.cursor = self.input.len();
    }

    /// Tab: when the common prefix of the matches' action names extends the
    /// prompt, fill it in and filter by it; with a single match, fill in its name;
    /// otherwise highlight the next match and show its name (keeping the filter).
    pub fn tab_complete(&mut self)
        requires
            old(self).wf(),
        ensures
            final(self).wf(),
            final(self).commands == old(self).commands,
            final(self).keymap == old(self).keymap,
            final(self).pending_command == old(self).pending_command,
            old(self).tab_completed(*final(self)),
    {
        let n = self.filtered.len();
        if n == 0 {
            return;
        }
        let mut l = copy_chars(&self.commands[self.filtered[0]].action);
        let mut i: usize = 1;
        while i < n
            invariant
                self.wf(),
                n == self.filtered@.len(),
                1 <= i <= n,
                l@ == lcp_of_matches(self.commands@, self.filtered@, i as int),
            decreases n - i,
        {
            let idx = self.filtered[i];
            l = lcp_chars(&l, &self.commands[idx].action);
            i = i + 1;
        }
        // Does the common prefix extend the prompt?
        let mut extends = l.len() > self.input.len();
        if extends {
            let mut j: usize = 0;
            while j < self.input.len()
                invariant
                    j <= self.input@.len(),
                    self.input@.len() < l@.len(),
                    extends == (forall|k: int| 0 <= k < j ==> l@[k] == self.input@[k]),
                decreases self.input@.len() - j,
            {
                if l[j] != self.input[j] {
                    extends = false;
                }
                j = j + 1;
            }
            proof {
                if extends {
                    assert(l@.subrange(0, self.input@.len() as int) =~= self.input@);
                } else {
                    if is_prefix(self.input@, l@) {
                        let k = choose|k: int| 0 <= k < self.input@.len() && l@[k] != self.input@[k];
                        assert(l@.subrange(0, self.input@.len() as int)[k] == l@[k]);
                    }
                }
            }
        }
        if extends {
            let base = copy_chars(&l);
            self.cursor = l.len();
            self.input = l;
            self.filter_base = base;
            self.update_filter();
        } else if n == 1 {
            let a = copy_chars(&self.commands[self.filtered[0]].action);
            let base = copy_chars(&a);
            self.cursor = a.len();
            self.input = a;
            self.filter_base = base;
            self.update_filter();
        } else {
            self.selected = (self.selected + 1) % n;
            self.ensure_visible();
            self.show_selected();
        }
    }

    /// The palette `new` is what Tab makes of this one.
    pub open spec fn tab_completed(self, new: CommandPalettePane) -> bool {
        &&& new.commands == self.commands
        &&& new.keymap == self.keymap
        &&& new.pending_command == self.pending_command
        &&& self.filtered@.len() == 0 ==> new == self
        &&& self.filtered@.len() > 0 ==> {
            let l = lcp_of_matches(self.commands@, self.filtered@, self.filtered@.len() as int);
            let n = self.filtered@.len();
            if l.len() > self.input@.len() && is_prefix(self.input@, l) {
                &&& new.input@ == l
                &&& new.cursor == l.len()
                &&& new.filter_base@ == l
                &&& new.filtered@ == filtered_for(self.commands@, l)
                &&& new.selected == 0
                &&& new.scroll == 0
            } else if n == 1 {
                let a = self.commands@[self.filtered@[0] as int].action@;
                &&& new.input@ == a
                &&& new.cursor == a.len()
                &&& new.filter_base@ == a
                &&& new.filtered@ == filtered_for(self.commands@, a)
                &&& new.selected == 0
                &&& new.scroll == 0
            } else {
                let sel = ((self.selected + 1) % (n as int)) as usize;
                &&& new.selected == sel
                &&& new.scroll == scroll_for(sel, self.scroll)
                &&& new.input@ == self.commands@[self.filtered@[sel as int] as int].action@
                &&& new.cursor == new.input@.len()
                &&& new.filter_base == self.filter_base
                &&& new.filtered == self.filtered
            }
        }
    }

    /// Tab with several matches and no longer text that starts with the prompt
    /// and begins every match's action name moves the highlight to the next
    /// match (from the last back to the first) and shows its action name at the
    /// prompt, with the cursor at its end; the matches and the filter stay.
    pub proof fn lemma_tab_cycles_matches(self, new: CommandPalettePane)
        requires
            self.wf(),
            self.tab_completed(new),
            1 < self.filtered@.len() <= usize::MAX,
            forall|t: Seq<char>| t.len() > self.input@.len() && #[trigger] is_prefix(self.input@, t)
                ==> exists|i: int| 0 <= i < self.filtered@.len()
                    && !is_prefix(t, #[trigger] self.commands@[self.filtered@[i] as int].action@),
        ensures
            new.selected == (self.selected + 1) % (self.filtered@.len() as int),
            new.input@ == self.commands@[self.filtered@[new.selected as int] as int].action@,
            new.cursor == new.input@.len(),
            new.filtered == self.filtered,
            new.filter_base == self.filter_base,
    {
        let n = self.filtered@.len() as int;
        let l = lcp_of_matches(self.commands@, self.filtered@, n);
        lemma_lcp_of_matches_is_common(self.commands@, self.filtered@, n);
        assert(0 <= (self.selected + 1) % n < n) by (nonlinear_arith)
            requires
                n > 1,
        ;
        if l.len() > self.input@.len() && is_prefix(self.input@, l) {
            let i = choose|i: int| 0 <= i < self.filtered@.len()
                && !is_prefix(l, #[trigger] self.commands@[self.filtered@[i] as int].action@);
            assert(false);
        }
    }

    /// Tab when some text longer than the prompt starts with it and begins every
    /// match's action name puts at the prompt the longest text that begins every
    /// match's action name: it starts with the old prompt and is longer, and
    /// every text that begins all of them begins it. The matches are then
    /// filtered by it, with the first highlighted.
    pub proof fn lemma_tab_extends_prompt(self, new: CommandPalettePane, t: Seq<char>)
        requires
            self.wf(),
            self.tab_completed(new),
            self.filtered@.len() > 0,
            t.len() > self.input@.len(),
            is_prefix(self.input@, t),
            forall|i: int| 0 <= i < self.filtered@.len()
                ==> is_prefix(t, #[trigger] self.commands@[self.filtered@[i] as int].action@),
        ensures
            is_prefix(self.input@, new.input@),
            new.input@.len() > self.input@.len(),
            forall|i: int| 0 <= i < self.filtered@.len()
                ==> is_prefix(new.input@, #[trigger] self.commands@[self.filtered@[i] as int].action@),
            forall|u: Seq<char>| (forall|i: int| 0 <= i < self.filtered@.len()
                ==> is_prefix(u, #[trigger] self.commands@[self.filtered@[i] as int].action@))
                ==> #[trigger] is_prefix(u, new.input@),
            new.cursor == new.input@.len(),
            new.filter_base@ == new.input@,
            new.filtered@ == filtered_for(self.commands@, new.input@),
            new.selected == 0,
    {
        let n = self.filtered@.len() as int;
        let l = lcp_of_matches(self.commands@, self.filtered@, n);
        lemma_lcp_of_matches_is_common(self.commands@, self.filtered@, n);
        lemma_common_prefix_in_lcp_of_matches(t, self.commands@, self.filtered@, n);
        assert(l.subrange(0, self.input@.len() as int) =~= l.subrange(0, t.len() as int).subrange(0, self.input@.len() as int));
        assert(t.subrange(0, self.input@.len() as int) =~= self.input@);
        assert forall|u: Seq<char>| (forall|i: int| 0 <= i < self.filtered@.len()
            ==> is_prefix(u, #[trigger] self.commands@[self.filtered@[i] as int].action@))
            implies #[trigger] is_prefix(u, new.input@) by {
            lemma_common_prefix_in_lcp_of_matches(u, self.commands@, self.filtered@, n);
        }
    }

    /// `new` has the typed text `text` with the cursor at `cursor`, filters by it,
    /// and highlights the first match; commands and pending choice are kept.
    pub open spec fn retyped(self, new: CommandPalettePane, text: Seq<char>, cursor: int) -> bool {
        &&& new.commands == self.commands
        &&& new.keymap == self.keymap
        &&& new.pending_command == self.pending_command
        &&& new.input@ == text
        &&& new.cursor == cursor
        &&& new.filter_base@ == text
        &&& new.filtered@ == filtered_for(self.commands@, text)
        &&& new.selected == 0
        &&& new.scroll == 0
    }

    /// `new` highlights match `sel` and shows its action name at the prompt.
    pub open spec fn highlighted(self, new: CommandPalettePane, sel: usize) -> bool {
        &&& new.commands == self.commands
        &&& new.keymap == self.keymap
        &&& new.pending_command == self.pending_command
        &&& new.filtered == self.filtered
        &&& new.filter_base == self.filter_base
        &&& new.selected == sel
        &&& new.scroll == scroll_for(sel, self.scroll)
        &&& new.input@ == self.commands@[self.filtered@[sel as int] as int].action@
        &&& new.cursor == new.input@.len()
    }

    /// `new` differs from this palette only in the prompt cursor.
    pub open spec fn cursor_moved(self, new: CommandPalettePane, cursor: int) -> bool {
        &&& new.commands == self.commands
        &&& new.keymap == self.keymap
        &&& new.pending_command == self.pending_command
        &&& new.filtered == self.filtered
        &&& new.filter_base == self.filter_base
        &&& new.selected == self.selected
        &&& new.scroll == self.scroll
        &&& new.input == self.input
        &&& new.cursor == cursor
    }

    /// The palette `new` is what key `key` makes of this one.
    pub open spec fn key_handled(self, key: KeyCode, new: CommandPalettePane) -> bool {
        let n = self.filtered@.len();
        match key {
            KeyCode::Char(c) => self.retyped(new, self.input@.insert(self.cursor as int, c), self.cursor + 1),
            KeyCode::Backspace => if self.cursor > 0 {
                self.retyped(new, self.input@.remove(self.cursor - 1), self.cursor - 1)
            } else {
                new == self
            },
            KeyCode::Delete => if self.cursor < self.input@.len() {
                self.retyped(new, self.input@.remove(self.cursor as int), self.cursor as int)
            } else {
                new == self
            },
            KeyCode::Left => if self.cursor > 0 {
                self.cursor_moved(new, self.cursor - 1)
            } else {
                new == self
            },
            KeyCode::Right => if self.cursor < self.input@.len() {
                self.cursor_moved(new, self.cursor + 1)
            } else {
                new == self
            },
            KeyCode::Home => self.cursor_moved(new, 0),
            KeyCode::End => self.cursor_moved(new, self.input@.len() as int),
            KeyCode::Tab => self.tab_completed(new),
            KeyCode::Up => if n > 0 {
                self.highlighted(new, if self.selected > 0 { (self.selected - 1) as usize } else { (n - 1) as usize })
            } else {
                new == self
            },
            KeyCode::Down => if n > 0 {
                self.highlighted(new, ((self.selected + 1) % (n as int)) as usize)
            } else {
                new == self
            },
            _ => new == self,
        }
    }

    /// Handles a key typed into the prompt: editing keys change the text and the
    /// matches, arrows move the cursor or the highlight, Tab completes.
    pub fn handle_raw_input(&mut self, key: KeyCode) -> (r: Action)
        requires
            old(self).wf(),
            key is Char ==> old(self).input@.len() < usize::MAX,
        ensures
            final(self).wf(),
            old(self).key_handled(key, *final(self)),
            r == Action::NoOp,
    {
        match key {
            KeyCode::Char(c) => {
                let at = self.cursor;
                self.input.insert(at, c);
                self.cursor = at + 1;
                self.filter_base = copy_chars(&self.input);
                self.update_filter();
            },
            KeyCode::Backspace => {
                if self.cursor > 0 {
                    let at = self.cursor - 1;
                    self.input.remove(at);
                    self.cursor = at;
                    self.filter_base = copy_chars(&self.input);
                    self.update_filter();
                }
            },
            KeyCode::Delete => {
                if self.cursor < self.input.len() {
                    let at = self.cursor;
                    self.input.remove(at);
                    self.filter_base = copy_chars(&self.input);
                    self.update_filter();
                }
            },
            KeyCode::Left => {
                if self.cursor > 0 {
                    self.cursor = self.cursor - 1;
                }
            },
            KeyCode::Right => {
                if self.cursor < self.input.len() {
                    self.cursor = self.cursor + 1;
                }
            },
            KeyCode::Home => {
                self.cursor = 0;
            },
            KeyCode::End => {
                self.cursor = self.input.len();
            },
            KeyCode::Tab => {
                self.tab_complete();
            },
            KeyCode::Up => {
                if self.filtered.len() > 0 {
                    if self.selected > 0 {
                        self.selected = self.selected - 1;
                    } else {
                        self.selected = self.filtered.len() - 1;
                    }
                    self.ensure_visible();
                    self.show_selected();
                }
            },
            KeyCode::Down => {
                if self.filtered.len() > 0 {
                    self.selected = (self.selected + 1) % self.filtered.len();
                    self.ensure_visible();
                    self.show_selected();
                }
            },
            _ => {},
        }
        Action::NoOp
    }

    /// Closes the palette: "palette:confirm" chooses the highlighted match (or the
    /// typed text when nothing matches), "palette:cancel" chooses nothing.
    pub fn handle_action(&mut self, action: &str) -> (r: Action)
        requires
            old(self).wf(),
        ensures
            final(self).wf(),
            final(self).commands == old(self).commands,
            final(self).input == old(self).input,
            final(self).cursor == old(self).cursor,
            final(self).filtered == old(self).filtered,
            final(self).selected == old(self).selected,
            final(self).scroll == old(self).scroll,
            final(self).filter_base == old(self).filter_base,
            final(self).keymap == old(self).keymap,
            action@ == "palette:confirm"@ ==> {
                &&& r == Action::Nav(NavAction::PopPane)
                &&& if old(self).filtered@.len() > 0 {
                    final(self).pending_command is Some && final(self).pending_command->0@
                        == old(self).commands@[old(self).filtered@[old(self).selected as int] as int].action@
                } else if old(self).input@.len() > 0 {
                    final(self).pending_command is Some && final(self).pending_command->0@ == old(self).input@
                } else {
                    final(self).pending_command == old(self).pending_command
                }
            },
            action@ == "palette:cancel"@ ==> r == Action::Nav(NavAction::PopPane)
                && final(self).pending_command is None,
            action@ != "palette:confirm"@ && action@ != "palette:cancel"@ ==> r == Action::NoOp
                && final(self).pending_command == old(self).pending_command,
    {
        proof {
            reveal_strlit("palette:confirm");
            reveal_strlit("palette:cancel");
            assert("palette:confirm"@.len() != "palette:cancel"@.len());
        }
        if str_eq(action, "palette:confirm") {
            if self.filtered.len() > 0 {
                let idx = self.filtered[self.selected];
                self.pending_command = Some(copy_chars(&self.commands[idx].action));
            } else if self.input.len() > 0 {
                self.pending_command = Some(copy_chars(&self.input));
            }
            Action::Nav(NavAction::PopPane)
        } else if str_eq(action, "palette:cancel") {
            self.pending_command = None;
            Action::Nav(NavAction::PopPane)
        } else {
            Action::NoOp
        }
    }
}

} // verus!
