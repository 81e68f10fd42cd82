//! The "save as" dialog: a one-line project name editor that accepts only
//! characters safe in a file name, and asks to save under the trimmed name.

use vstd::prelude::*;
use crate::action::{Action, NavAction, SessionAction};
use crate::keymap::{KeyCode, Keymap};
use crate::text::{
    byte_len, byte_length, char_at_byte, char_index, is_char_boundary, lemma_byte_len_concat, lemma_byte_len_increasing,
    lemma_byte_len_whole, string_of, utf8_char_len, utf8_len,
};

verus! {

/// Whether `char::is_alphanumeric` holds of a character (Unicode alphabetic or
/// numeric).
pub uninterp spec fn alphanumeric(c: char) -> bool;

/// Whether a character has the Unicode White_Space property (what
/// `char::is_whitespace` tests): tab to carriage return, space, next line,
/// no-break space, ogham space mark, the spaces from en quad to hair space, the
/// line and paragraph separators, the narrow no-break space, the medium
/// mathematical space and the ideographic space.
pub open spec fn whitespace(c: char) -> bool {
    let u = c as u32;
    ||| 0x9 <= u <= 0xD
    ||| u == 0x20
    ||| u == 0x85
    ||| u == 0xA0
    ||| u == 0x1680
    ||| 0x2000 <= u <= 0x200A
    ||| u == 0x2028
    ||| u == 0x2029
    ||| u == 0x202F
    ||| u == 0x205F
    ||| u == 0x3000
}

/// `char::is_alphanumeric`.
#[verifier::external_body]
fn is_alphanumeric(c: char) -> (r: bool)
    ensures
        r == alphanumeric(c),
{
    c.is_alphanumeric()
}

/// Whether a character is white space (as `char::is_whitespace` decides).
fn is_whitespace(c: char) -> (r: bool)
    ensures
        r == whitespace(c),
{
    let u = c as u32;
    (0x9 <= u && u <= 0xD) || u == 0x20 || u == 0x85 || u == 0xA0 || u == 0x1680 || (0x2000 <= u && u <= 0x200A)
        || u == 0x2028 || u == 0x2029 || u == 0x202F || u == 0x205F || u == 0x3000
}

/// Whether the dialog accepts a typed character into the name.
pub open spec fn name_char(c: char) -> bool {
    alphanumeric(c) || c == '-' || c == '_' || c == ' '
}

/// The position of the first character from `i` on that is not white space
/// (the length when there is none).
pub open spec fn first_non_ws(s: Seq<char>, i: int) -> int
    decreases s.len() - i,
{
    if i < 0 || i >= s.len() {
        s.len() as int
    } else if whitespace(s[i]) {
        first_non_ws(s, i + 1)
    } else {
        i
    }
}

/// The end of the text before `j` once trailing white space is dropped.
pub open spec fn end_non_ws(s: Seq<char>, j: int) -> int
    decreases j,
{
    if j <= 0 || j > s.len() {
        0
    } else if whitespace(s[j - 1]) {
        end_non_ws(s, j - 1)
    } else {
        j
    }
}

/// The text without leading and trailing white space (`str::trim`).
pub open spec fn trimmed(s: Seq<char>) -> Seq<char> {
    let a = first_non_ws(s, 0);
    if a >= s.len() {
        Seq::empty()
    } else {
        s.subrange(a, end_non_ws(s, s.len() as int))
    }
}

/// The file name a project named `name` is saved under.
pub open spec fn project_file(name: Seq<char>) -> Seq<char> {
    name + ".sqlite"@
}

/// The save-as dialog's state.
pub struct SaveAsPane {
    pub keymap: Keymap,
    /// The name being typed.
    pub name_buf: Vec<char>,
    /// The cursor, as a byte offset into the name's UTF-8 text.
    pub cursor: usize,
    /// The message shown when the name was refused.
    pub error: Option<String>,
}

impl SaveAsPane {
    /// The cursor is within the name's bytes, whose count fits in a machine word.
    pub open spec fn wf(&self) -> bool {
        &&& self.cursor <= byte_len(self.name_buf@)
        &&& byte_len(self.name_buf@) < usize::MAX
    }

    /// An empty dialog.
    pub fn new(keymap: Keymap) -> (p: SaveAsPane)
        ensures
            p.wf(),
            p.keymap == keymap,
            p.name_buf@.len() == 0,
            p.cursor == 0,
            p.error is None,
    {
        SaveAsPane { keymap, name_buf: Vec::new(), cursor: 0, error: None }
    }

    pub fn id(&self) -> (r: &'static str)
        ensures
            r@ == "save_as"@,
    {
        "save_as"
    }

    /// Starts over with `default_name`, the cursor at its end (after its last
    /// byte), and no error.
    pub fn reset(&mut self, default_name: &str)
        requires
            byte_len(default_name@) < usize::MAX,
        ensures
            final(self).wf(),
            final(self).keymap == old(self).keymap,
            final(self).name_buf@ == default_name@,
            final(self).cursor == byte_len(default_name@),
            final(self).error is None,
    {
        let n = default_name.unicode_len();
        let mut buf: Vec<char> = Vec::new();
        let mut i: usize = 0;
        while i < n
            invariant
                n == default_name@.len(),
                i <= n,
                buf@ == default_name@.subrange(0, i as int),
            decreases n - i,
        {
            buf.push(default_name.get_char(i));
            i = i + 1;
            assert(buf@ =~= default_name@.subrange(0, i as int));
        }
        assert(default_name@.subrange(0, n as int) =~= default_name@);
        let len = byte_length(&buf);
        self.name_buf = buf;
        self.cursor = len;
        self.error = None;
    }

    /// The name without leading and trailing white space.
    pub fn trimmed_name(&self) -> (r: Vec<char>)
        ensures
            r@ == trimmed(self.name_buf@),
    {
        let n = self.name_buf.len();
        let mut a: usize = 0;
        while a < n && is_whitespace(self.name_buf[a])
            invariant
                n == self.name_buf@.len(),
                a <= n,
                first_non_ws(self.name_buf@, 0) == first_non_ws(self.name_buf@, a as int),
            decreases n - a,
        {
            a = a + 1;
        }
        if a >= n {
            assert(trimmed(self.name_buf@) =~= Seq::<char>::empty());
            return Vec::new();
        }
        let ghost s = self.name_buf@;
        assert(first_non_ws(s, a as int) == a);
        let mut b: usize = n;
        while b > 0 && is_whitespace(self.name_buf[b - 1])
            invariant
                n == s.len(),
                s == self.name_buf@,
                a < n,
                !whitespace(s[a as int]),
                a < b <= n,
                end_non_ws(s, n as int) == end_non_ws(s, b as int),
            decreases b,
        {
            b = b - 1;
        }
        assert(end_non_ws(s, b as int) == b);
        let mut out: Vec<char> = Vec::new();
        let mut k: usize = a;
        while k < b
            invariant
                s == self.name_buf@,
                a <= k <= b,
                b <= s.len(),
                out@ == s.subrange(a as int, k as int),
            decreases b - k,
        {
            out.push(self.name_buf[k]);
            k = k + 1;
            assert(out@ =~= s.subrange(a as int, k as int));
        }
        out
    }

    /// Handles a typed key. Letters, digits, `-`, `_` and space go in at the
    /// cursor, which moves on by one byte; Backspace and Delete remove the
    /// character before or at the cursor; the arrows move it by a byte, Home and
    /// End to the start and the end; Enter asks to save under the trimmed name
    /// (or shows an error for an empty one); Escape closes the dialog. The cursor
    /// counts bytes, so a character is inserted or removed only where one starts.
    pub fn handle_raw_input(&mut self, key: KeyCode) -> (r: Action)
        requires
            old(self).wf(),
            ({
                let o = *old(self);
                let len = byte_len(o.name_buf@);
                match key {
                    KeyCode::Char(c) => name_char(c) && len + utf8_len(c) < usize::MAX ==> is_char_boundary(
                        o.name_buf@,
                        o.cursor as int,
                    ),
                    KeyCode::Backspace => o.cursor > 0 ==> is_char_boundary(o.name_buf@, o.cursor - 1),
                    KeyCode::Delete => o.cursor < len ==> is_char_boundary(o.name_buf@, o.cursor as int),
                    _ => true,
                }
            }),
        ensures
            final(self).keymap == old(self).keymap,
            ({
                let o = *old(self);
                let f = *final(self);
                let len = byte_len(o.name_buf@);
                match key {
                    KeyCode::Char(c) => r == Action::NoOp && if name_char(c) && len + utf8_len(c) < usize::MAX {
                        &&& f.name_buf@ == o.name_buf@.insert(char_index(o.name_buf@, o.cursor as int), c)
                        &&& f.cursor == o.cursor + 1
                        &&& f.error is None
                    } else {
                        f.name_buf@ == o.name_buf@ && f.cursor == o.cursor && f.error == o.error
                    },
                    KeyCode::Backspace => r == Action::NoOp && if o.cursor > 0 {
                        &&& f.name_buf@ == o.name_buf@.remove(char_index(o.name_buf@, o.cursor - 1))
                        &&& f.cursor == o.cursor - 1
                        &&& f.error is None
                    } else {
                        f.name_buf@ == o.name_buf@ && f.cursor == o.cursor && f.error == o.error
                    },
                    KeyCode::Delete => r == Action::NoOp && if o.cursor < len {
                        &&& f.name_buf@ == o.name_buf@.remove(char_index(o.name_buf@, o.cursor as int))
                        &&& f.cursor == o.cursor
                        &&& f.error is None
                    } else {
                        f.name_buf@ == o.name_buf@ && f.cursor == o.cursor && f.error == o.error
                    },
                    KeyCode::Left => r == Action::NoOp && f.name_buf@ == o.name_buf@ && f.error == o.error
                        && f.cursor == (if o.cursor > 0 { o.cursor - 1 } else { 0 }),
                    KeyCode::Right => r == Action::NoOp && f.name_buf@ == o.name_buf@ && f.error == o.error
                        && f.cursor == (if o.cursor < len { o.cursor + 1 } else { o.cursor as int }),
                    KeyCode::Home => r == Action::NoOp && f.name_buf@ == o.name_buf@ && f.error == o.error
                        && f.cursor == 0,
                    KeyCode::End => r == Action::NoOp && f.name_buf@ == o.name_buf@ && f.error == o.error
                        && f.cursor == len,
                    KeyCode::Enter => {
                        &&& f.name_buf@ == o.name_buf@ && f.cursor == o.cursor
                        &&& if trimmed(o.name_buf@).len() == 0 {
                            &&& r == Action::NoOp
                            &&& f.error is Some && f.error->0@ == "Name cannot be empty"@
                        } else {
                            &&& f.error == o.error
                            &&& r matches Action::Session(SessionAction::SaveAs(file))
                            &&& file@ == project_file(trimmed(o.name_buf@))
                        }
                    },
                    KeyCode::Escape => r == Action::Nav(NavAction::PopPane) && f.name_buf@ == o.name_buf@
                        && f.cursor == o.cursor && f.error == o.error,
                    _ => r == Action::NoOp && f.name_buf@ == o.name_buf@ && f.cursor == o.cursor && f.error == o.error,
                }
            }),
            final(self).wf(),
    {
        let len = byte_length(&self.name_buf);
        proof {
            lemma_byte_len_whole(self.name_buf@);
        }
        match key {
            KeyCode::Char(c) => {
                let u = utf8_char_len(c);
                if (is_alphanumeric(c) || c == '-' || c == '_' || c == ' ') && len < usize::MAX - u {
                    if let Some(k) = char_at_byte(&self.name_buf, self.cursor) {
                        proof {
                            lemma_insert_bytes(self.name_buf@, k as int, c);
                        }
                        self.name_buf.insert(k, c);
                        self.cursor = self.cursor + 1;
                        self.error = None;
                    }
                }
                Action::NoOp
            },
            KeyCode::Backspace => {
                if self.cursor > 0 {
                    if let Some(k) = char_at_byte(&self.name_buf, self.cursor - 1) {
                        proof {
                            lemma_remove_bytes(self.name_buf@, k as int);
                        }
                        self.cursor = self.cursor - 1;
                        self.name_buf.remove(k);
                        self.error = None;
                    }
                }
                Action::NoOp
            },
            KeyCode::Delete => {
                if self.cursor < len {
                    if let Some(k) = char_at_byte(&self.name_buf, self.cursor) {
                        proof {
                            lemma_remove_bytes(self.name_buf@, k as int);
                        }
                        self.name_buf.remove(k);
                        self.error = None;
                    }
                }
                Action::NoOp
            },
            KeyCode::Left => {
                if self.cursor > 0 {
                    self.cursor = self.cursor - 1;
                }
                Action::NoOp
            },
            KeyCode::Right => {
                if self.cursor < len {
                    self.cursor = self.cursor + 1;
                }
                Action::NoOp
            },
            KeyCode::Home => {
                self.cursor = 0;
                Action::NoOp
            },
            KeyCode::End => {
                self.cursor = len;
                Action::NoOp
            },
            KeyCode::Enter => {
                let mut name = self.trimmed_name();
                if name.len() == 0 {
                    self.error = Some(String::from_str("Name cannot be empty"));
                    proof {
                        reveal_strlit("Name cannot be empty");
                    }
                    return Action::NoOp;
                }
                let ghost base = name@;
                name.push('.');
                name.push('s');
                name.push('q');
                name.push('l');
                name.push('i');
                name.push('t');
                name.push('e');
                proof {
                    reveal_strlit(".sqlite");
                    assert(name@ =~= project_file(base));
                }
                Action::Session(SessionAction::SaveAs(string_of(&name)))
            },
            KeyCode::Escape => Action::Nav(NavAction::PopPane),
            _ => Action::NoOp,
        }
    }
}

/// Inserting a character at a character position adds its bytes.
proof fn lemma_insert_bytes(s: Seq<char>, k: int, c: char)
    requires
        0 <= k <= s.len(),
    ensures
        byte_len(s.insert(k, c)) == byte_len(s) + utf8_len(c),
{
    assert(s =~= s.take(k) + s.skip(k));
    assert(s.insert(k, c) =~= s.take(k) + (seq![c] + s.skip(k)));
    lemma_byte_len_concat(s.take(k), s.skip(k));
    lemma_byte_len_concat(seq![c], s.skip(k));
    lemma_byte_len_concat(s.take(k), seq![c] + s.skip(k));
    assert(seq![c].drop_last() =~= Seq::<char>::empty());
    assert(byte_len(Seq::<char>::empty()) == 0);
    assert(byte_len(seq![c]) == utf8_len(c));
}

/// Removing the character at position `k` takes away its bytes, and the bytes
/// before it and its own fit in the text.
proof fn lemma_remove_bytes(s: Seq<char>, k: int)
    requires
        0 <= k < s.len(),
    ensures
        byte_len(s.remove(k)) + utf8_len(s[k]) == byte_len(s),
        byte_len(s.take(k)) + utf8_len(s[k]) <= byte_len(s),
{
    assert(s =~= s.take(k) + (seq![s[k]] + s.skip(k + 1)));
    assert(s.remove(k) =~= s.take(k) + s.skip(k + 1));
    lemma_byte_len_concat(s.take(k), s.skip(k + 1));
    lemma_byte_len_concat(seq![s[k]], s.skip(k + 1));
    lemma_byte_len_concat(s.take(k), seq![s[k]] + s.skip(k + 1));
    assert(seq![s[k]].drop_last() =~= Seq::<char>::empty());
    assert(byte_len(Seq::<char>::empty()) == 0);
    assert(byte_len(seq![s[k]]) == utf8_len(s[k]));
    lemma_byte_len_increasing(s, k, s.len() as int);
    lemma_byte_len_whole(s);
}

} // verus!

verus! {

/// What the save dialog shows in its name field.
pub struct NameField {
    /// The dialog's requested size.
    pub width: u16,
    pub height: u16,
    /// The part of the name that fits in the field.
    pub text: Vec<char>,
    /// The field column of the cursor, when it lies inside the field.
    pub cursor_col: Option<usize>,
    /// The cursor sits before the end of the name's bytes (else after its end).
    pub cursor_on_char: bool,
}

impl SaveAsPane {
    /// The dialog on a screen `area_width` wide, drawn in a box whose inside is
    /// `inner_width` wide: the field leaves two columns on each side.
    pub fn render(&self, area_width: u16, inner_width: u16) -> (f: NameField)
        requires
            self.wf(),
        ensures
            f.width == (if area_width >= 50 { 46 } else if area_width >= 4 { area_width - 4 } else { 0 }),
            f.height == (if self.error is Some { 8int } else { 7 }),
            ({
                let fw: int = if inner_width >= 4 { inner_width - 4 } else { 0 };
                &&& f.text@ == (if self.name_buf@.len() <= fw { self.name_buf@ } else { self.name_buf@.subrange(0, fw) })
                &&& f.cursor_col == (if self.cursor < fw { Some(self.cursor) } else { None::<usize> })
                &&& f.cursor_on_char == (self.cursor < byte_len(self.name_buf@))
            }),
    {
        let room = area_width.saturating_sub(4);
        let width: u16 = if room < 46 { room } else { 46 };
        let height: u16 = if self.error.is_some() { 8 } else { 7 };
        let fw: usize = inner_width.saturating_sub(4) as usize;
        let mut text: Vec<char> = Vec::new();
        let mut i: usize = 0;
        while i < self.name_buf.len() && i < fw
            invariant
                i <= self.name_buf@.len(),
                i <= fw,
                text@ == self.name_buf@.subrange(0, i as int),
            decreases self.name_buf@.len() - i,
        {
            text.push(self.name_buf[i]);
            i = i + 1;
            assert(text@ =~= self.name_buf@.subrange(0, i as int));
        }
        assert(self.name_buf@.len() <= fw ==> self.name_buf@.subrange(0, self.name_buf@.len() as int) =~= self.name_buf@);
        let cursor_col = if self.cursor < fw { Some(self.cursor) } else { None };
        let len = byte_length(&self.name_buf);
        NameField { width, height, text, cursor_col, cursor_on_char: self.cursor < len }
    }
}

} // verus!
