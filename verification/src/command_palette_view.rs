//! What the command palette shows: its requested size, the prompt split at the
//! cursor, and one row per visible match with the action name, description and
//! key binding fitted to the row width.

use vstd::prelude::*;
use crate::command_palette::{CommandPalettePane, MAX_VISIBLE};
use crate::text::{chars_of, take_chars};

verus! {

/// One visible match.
pub struct PaletteRow {
    /// Index of the command in the palette's list.
    pub command: usize,
    pub selected: bool,
    /// A space and the action name, cut to the room left of the key binding.
    pub action: Vec<char>,
    /// Two spaces and the description, cut to the room that is left.
    pub description: Vec<char>,
    /// Spaces between the description and the key binding.
    pub padding: usize,
    /// The key binding between spaces.
    pub keys: Vec<char>,
}

/// The contents of the palette box.
pub struct PaletteFrame {
    /// The box size the palette asks for.
    pub width: u16,
    pub height: u16,
    /// Whether anything is drawn inside the border.
    pub shown: bool,
    /// The prompt text before the cursor, under it, and after it.
    pub before_cursor: Vec<char>,
    pub at_cursor: char,
    pub after_cursor: Vec<char>,
    /// "No matches" is shown.
    pub no_matches: bool,
    pub rows: Vec<PaletteRow>,
}

/// `a - b`, or 0 when `b` is larger.
pub open spec fn minus(a: int, b: int) -> int {
    if a >= b { a - b } else { 0 }
}

/// `r` shows a match with these action, description and key texts in a row
/// `width` columns wide: the key binding keeps its room, the action name takes
/// what it needs of the rest, the description what is then left, and spaces
/// fill the gap.
pub open spec fn row_shows(r: PaletteRow, action: Seq<char>, desc: Seq<char>, keys: Seq<char>, width: int) -> bool {
    let key_display = seq![' '] + keys + seq![' '];
    let remaining = minus(width, key_display.len() as int);
    let a = take_chars(seq![' '] + action, remaining);
    let d = take_chars(seq![' ', ' '] + desc, minus(remaining, a.len() as int));
    &&& r.action@ == a
    &&& r.description@ == d
    &&& r.keys@ == key_display
    &&& r.padding == minus(width, (a.len() + d.len() + key_display.len()) as int)
}

/// The first `n` characters of `v` (all of it when it is shorter).
fn cut_chars(v: &Vec<char>, n: usize) -> (r: Vec<char>)
    ensures
        r@ == take_chars(v@, n as int),
{
    let mut r: Vec<char> = Vec::new();
    let mut i: usize = 0;
    while i < v.len() && i < n
        invariant
            i <= v@.len(),
            i <= n,
            r@ == v@.subrange(0, i as int),
        decreases v@.len() - i,
    {
        r.push(v[i]);
        i = i + 1;
        assert(r@ =~= v@.subrange(0, i as int));
    }
    assert(v@.len() <= n ==> v@.subrange(0, v@.len() as int) =~= v@);
    r
}

/// `prefix` followed by `v`.
fn prepend(prefix: &Vec<char>, v: &Vec<char>) -> (r: Vec<char>)
    ensures
        r@ == prefix@ + v@,
{
    let mut r: Vec<char> = Vec::new();
    let mut i: usize = 0;
    while i < prefix.len()
        invariant
            i <= prefix@.len(),
            r@ == prefix@.subrange(0, i as int),
        decreases prefix@.len() - i,
    {
        r.push(prefix[i]);
        i = i + 1;
        assert(r@ =~= prefix@.subrange(0, i as int));
    }
    let mut j: usize = 0;
    while j < v.len()
        invariant
            i == prefix@.len(),
            j <= v@.len(),
            r@ == prefix@ + v@.subrange(0, j as int),
        decreases v@.len() - j,
    {
        r.push(v[j]);
        j = j + 1;
        assert(r@ =~= prefix@ + v@.subrange(0, j as int));
    }
    assert(v@.subrange(0, v@.len() as int) =~= v@);
    r
}

/// A match row `width` columns wide.
fn fit_row(command: usize, selected: bool, action: &Vec<char>, desc: &Vec<char>, keys: &String, width: usize) -> (r: PaletteRow)
    ensures
        r.command == command,
        r.selected == selected,
        row_shows(r, action@, desc@, keys@, width as int),
{
    let space = vec![' '];
    let two = vec![' ', ' '];
    let key_chars = chars_of(keys.as_str());
    let with_key = prepend(&space, &key_chars);
    let key_display = prepend(&with_key, &space);
    assert(key_display@ =~= seq![' '] + keys@ + seq![' ']);
    let remaining = width.saturating_sub(key_display.len());
    let a = cut_chars(&prepend(&space, action), remaining);
    assert(space@ =~= seq![' ']);
    let d = cut_chars(&prepend(&two, desc), remaining.saturating_sub(a.len()));
    assert(two@ =~= seq![' ', ' ']);
    let used: u64 = a.len() as u64 + d.len() as u64 + key_display.len() as u64;
    let padding: usize = if (width as u64) >= used { (width as u64 - used) as usize } else { 0 };
    PaletteRow { command, selected, action: a, description: d, padding, keys: key_display }
}

impl CommandPalettePane {
    /// The palette for a screen `area_width` wide, drawn in a box whose inside
    /// is `inner_width` by `inner_height`.
    pub fn render(&self, area_width: u16, inner_width: u16, inner_height: u16) -> (f: PaletteFrame)
        requires
            self.wf(),
        ensures
            f.width == if area_width >= 64 { 60 } else { minus(area_width as int, 4) },
            f.height == (if self.filtered@.len() < MAX_VISIBLE {
                if 3 + self.filtered@.len() > 5 { 3 + self.filtered@.len() } else { 5 }
            } else {
                13
            }),
            f.shown == (inner_width > 0 && inner_height > 0),
            f.shown ==> {
                &&& f.before_cursor@ == self.input@.subrange(0, self.cursor as int)
                &&& f.at_cursor == if self.cursor < self.input@.len() { self.input@[self.cursor as int] } else { ' ' }
                &&& f.after_cursor@ == if self.cursor < self.input@.len() {
                    self.input@.subrange(self.cursor + 1, self.input@.len() as int)
                } else {
                    Seq::empty()
                }
            },
            f.no_matches == (f.shown && self.filtered@.len() == 0 && inner_height > 2),
            ({
                let available = minus(inner_height as int, 2);
                let left = minus(self.filtered@.len() as int, self.scroll as int);
                let count = if !f.shown { 0 } else if available < left { available } else { left };
                &&& f.rows@.len() == count
                &&& forall|r: int|
                    0 <= r < count ==> {
                        let i = self.scroll + r;
                        let c = self.filtered@[i];
                        &&& (#[trigger] f.rows@[r]).command == c
                        &&& f.rows@[r].selected == (i == self.selected)
                        &&& row_shows(
                            f.rows@[r],
                            self.commands@[c as int].action@,
                            self.commands@[c as int].description@,
                            self.commands@[c as int].keys@,
                            inner_width as int,
                        )
                    }
            }),
    {
        let n = self.filtered.len();
        let list_height: usize = if n < MAX_VISIBLE { n } else { MAX_VISIBLE };
        let height: u16 = if 3 + list_height > 5 { (3 + list_height) as u16 } else { 5 };
        let room = area_width.saturating_sub(4);
        let width: u16 = if room < 60 { room } else { 60 };
        if inner_height == 0 || inner_width == 0 {
            return PaletteFrame {
                width,
                height,
                shown: false,
                before_cursor: Vec::new(),
                at_cursor: ' ',
                after_cursor: Vec::new(),
                no_matches: false,
                rows: Vec::new(),
            };
        }
        let before_cursor = cut_chars(&self.input, self.cursor);
        let len = self.input.len();
        let at_cursor = if self.cursor < len { self.input[self.cursor] } else { ' ' };
        let mut after_cursor: Vec<char> = Vec::new();
        if self.cursor < len {
            let mut i = self.cursor + 1;
            while i < len
                invariant
                    self.cursor < len == self.input@.len(),
                    self.cursor + 1 <= i <= len,
                    after_cursor@ == self.input@.subrange(self.cursor + 1, i as int),
                decreases len - i,
            {
                after_cursor.push(self.input[i]);
                i = i + 1;
                assert(after_cursor@ =~= self.input@.subrange(self.cursor + 1, i as int));
            }
        }
        let available: usize = (inner_height as usize).saturating_sub(2);
        let no_matches = n == 0 && available > 0;
        let left = n.saturating_sub(self.scroll);
        let count = if available < left { available } else { left };
        let mut rows: Vec<PaletteRow> = Vec::new();
        let mut r: usize = 0;
        while r < count
            invariant
                self.wf(),
                n == self.filtered@.len(),
                count == if available < left { available } else { left },
                left == minus(n as int, self.scroll as int),
                r <= count,
                rows@.len() == r,
                forall|q: int|
                    0 <= q < r ==> {
                        let i = self.scroll + q;
                        let c = self.filtered@[i];
                        &&& (#[trigger] rows@[q]).command == c
                        &&& rows@[q].selected == (i == self.selected)
                        &&& row_shows(
                            rows@[q],
                            self.commands@[c as int].action@,
                            self.commands@[c as int].description@,
                            self.commands@[c as int].keys@,
                            inner_width as int,
                        )
                    },
            decreases count - r,
        {
            let i = self.scroll + r;
            let c = self.filtered[i];
            let e = &self.commands[c];
            let row = fit_row(c, i == self.selected, &e.action, &e.description, &e.keys, inner_width as usize);
            rows.push(row);
            r = r + 1;
        }
        PaletteFrame { width, height, shown: true, before_cursor, at_cursor, after_cursor, no_matches, rows }
    }
}

} // verus!
