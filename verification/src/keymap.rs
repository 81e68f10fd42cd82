//! Key bindings of a pane: which key names trigger which action names.

use vstd::prelude::*;
use crate::text::str_eq;

verus! {

/// A key of the keyboard, as the panes that read raw keys see it.
#[derive(Debug, Clone, Copy, PartialEq, Eq, Structural)]
pub enum KeyCode {
    Char(char),
    Backspace,
    Delete,
    Left,
    Right,
    Up,
    Down,
    Home,
    End,
    PageUp,
    PageDown,
    Tab,
    Enter,
    Escape,
    Other,
}

/// One binding: a key, the action it triggers, and a description for help screens.
#[derive(Debug, Clone)]
pub struct KeyBinding {
    pub key: String,
    pub action: String,
    pub description: String,
}

/// The key bindings of one pane, in the order they were added.
#[derive(Debug, Clone)]
pub struct Keymap {
    pub bindings: Vec<KeyBinding>,
}

impl Keymap {
    /// A keymap with no bindings.
    pub fn new() -> (k: Keymap)
        ensures
            k.bindings@.len() == 0,
    {
        Keymap { bindings: Vec::new() }
    }

    /// Adds a binding at the end.
    pub fn bind(self, key: &str, action: &str, description: &str) -> (k: Keymap)
        ensures
            k.bindings@.len() == self.bindings@.len() + 1,
            k.bindings@.subrange(0, self.bindings@.len() as int) == self.bindings@,
            k.bindings@.last().key@ == key@,
            k.bindings@.last().action@ == action@,
            k.bindings@.last().description@ == description@,
    {
        let mut bindings = self.bindings;
        bindings.push(
            KeyBinding {
                key: String::from_str(key),
                action: String::from_str(action),
                description: String::from_str(description),
            },
        );
        Keymap { bindings }
    }

    /// The position of the first binding of `key`, if any.
    pub fn lookup(&self, key: &str) -> (r: Option<usize>)
        ensures
            match r {
                Some(i) => i < self.bindings@.len() && self.bindings@[i as int].key@ == key@
                    && forall|j: int| 0 <= j < i ==> self.bindings@[j].key@ != key@,
                None => forall|j: int|
                    0 <= j < self.bindings@.len() ==> self.bindings@[j].key@ != key@,
            },
    {
        let mut i: usize = 0;
        while i < self.bindings.len()
            invariant
                i <= self.bindings@.len(),
                forall|j: int| 0 <= j < i ==> self.bindings@[j].key@ != key@,
            decreases self.bindings@.len() - i,
        {
            if str_eq(self.bindings[i].key.as_str(), key) {
                return Some(i);
            }
            i = i + 1;
        }
        None
    }
}

} // verus!
