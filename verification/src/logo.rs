//! The logo pane: shows the program's logo; its only key quits.

use vstd::prelude::*;
use crate::action::Action;
use crate::keymap::Keymap;
use crate::text::str_eq;

verus! {

/// The logo pane's state.
pub struct LogoPane {
    pub keymap: Keymap,
    /// The logo's text, line by line.
    pub logo_content: String,
}

impl LogoPane {
    /// A logo pane showing `logo_content`.
    pub fn new(keymap: Keymap, logo_content: String) -> (p: LogoPane)
        ensures
            p.keymap == keymap,
            p.logo_content@ == logo_content@,
    {
        LogoPane { keymap, logo_content }
    }

    pub fn id(&self) -> (r: &'static str)
        ensures
            r@ == "logo"@,
    {
        "logo"
    }

    /// `quit` quits; other actions do nothing.
    pub fn handle_action(&self, action: &str) -> (r: Action)
        ensures
            r == if action@ == "quit"@ { Action::Quit } else { Action::NoOp },
    {
        if str_eq(action, "quit") {
            Action::Quit
        } else {
            Action::NoOp
        }
    }
}

} // verus!
