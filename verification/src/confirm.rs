//! The confirmation dialog: a message, a pending action, and a Yes/No choice.

use vstd::prelude::*;
use crate::action::{Action, NavAction, SessionAction};
use crate::keymap::{KeyCode, Keymap};
use crate::text::str_eq;

verus! {

/// What to do when the user confirms the dialog.
#[derive(Debug, Clone)]
pub enum PendingAction {
    Quit,
    NewProject,
    LoadDefault,
    LoadFrom(String),
}

/// The confirmation dialog's state.
pub struct ConfirmPane {
    pub keymap: Keymap,
    pub message: String,
    pub pending: Option<PendingAction>,
    /// Whether "Yes" is highlighted (false: "No").
    pub selected: bool,
}

/// What confirming `pending` asks for: quitting, a new project, loading the default
/// project or a file, or (with nothing pending) just closing the dialog.
pub open spec fn spec_confirm_action(pending: Option<PendingAction>) -> Action {
    match pending {
        Some(PendingAction::Quit) => Action::Quit,
        Some(PendingAction::NewProject) => Action::Session(SessionAction::NewProject),
        Some(PendingAction::LoadDefault) => Action::Session(SessionAction::Load),
        Some(PendingAction::LoadFrom(path)) => Action::Session(SessionAction::LoadFrom(path)),
        None => Action::Nav(NavAction::PopPane),
    }
}

impl ConfirmPane {
    /// A dialog with no message, nothing pending, and "No" highlighted.
    pub fn new(keymap: Keymap) -> (p: ConfirmPane)
        ensures
            p.keymap == keymap,
            p.message@.len() == 0,
            p.pending is None,
            !p.selected,
    {
        ConfirmPane { keymap, message: String::new(), pending: None, selected: false }
    }

    pub fn id(&self) -> (r: &'static str)
        ensures
            r@ == "confirm"@,
    {
        "confirm"
    }

    /// Sets up the dialog before it is shown; "No" is highlighted.
    pub fn set_confirm(&mut self, message: &str, pending: PendingAction)
        ensures
            final(self).message@ == message@,
            final(self).pending == Some(pending),
            !final(self).selected,
            final(self).keymap == old(self).keymap,
    {
        self.message = String::from_str(message);
        self.pending = Some(pending);
        self.selected = false;
    }

    /// What confirming asks for.
    pub fn confirm_action(&self) -> (r: Action)
        ensures
            r == spec_confirm_action(self.pending),
    {
        match &self.pending {
            Some(PendingAction::Quit) => Action::Quit,
            Some(PendingAction::NewProject) => Action::Session(SessionAction::NewProject),
            Some(PendingAction::LoadDefault) => Action::Session(SessionAction::Load),
            Some(PendingAction::LoadFrom(path)) => Action::Session(SessionAction::LoadFrom(path.clone())),
            None => Action::Nav(NavAction::PopPane),
        }
    }

    /// "close"/"cancel" close the dialog; "confirm" carries out the pending action
    /// when "Yes" is highlighted and closes otherwise; "left"/"right"/"toggle" switch
    /// the highlight.
    pub fn handle_action(&mut self, action: &str) -> (r: Action)
        ensures
            final(self).message == old(self).message,
            final(self).pending == old(self).pending,
            final(self).keymap == old(self).keymap,
            if action@ == "close"@ || action@ == "cancel"@ {
                r == Action::Nav(NavAction::PopPane) && final(self).selected == old(self).selected
            } else if action@ == "confirm"@ {
                r == (if old(self).selected {
                    spec_confirm_action(old(self).pending)
                } else {
                    Action::Nav(NavAction::PopPane)
                }) && final(self).selected == old(self).selected
            } else if action@ == "left"@ || action@ == "right"@ || action@ == "toggle"@ {
                r == Action::NoOp && final(self).selected == !old(self).selected
            } else {
                r == Action::NoOp && final(self).selected == old(self).selected
            },
    {
        if str_eq(action, "close") || str_eq(action, "cancel") {
            Action::Nav(NavAction::PopPane)
        } else if str_eq(action, "confirm") {
            if self.selected {
                self.confirm_action()
            } else {
                Action::Nav(NavAction::PopPane)
            }
        } else if str_eq(action, "left") || str_eq(action, "right") || str_eq(action, "toggle") {
            self.selected = !self.selected;
            Action::NoOp
        } else {
            Action::NoOp
        }
    }

    /// "y"/"Y" carry out the pending action at once, "n"/"N" close, Tab switches
    /// the highlight.
    pub fn handle_raw_input(&mut self, key: KeyCode) -> (r: Action)
        ensures
            final(self).message == old(self).message,
            final(self).pending == old(self).pending,
            final(self).keymap == old(self).keymap,
            if key == KeyCode::Char('y') || key == KeyCode::Char('Y') {
                r == spec_confirm_action(old(self).pending) && final(self).selected == old(self).selected
            } else if key == KeyCode::Char('n') || key == KeyCode::Char('N') {
                r == Action::Nav(NavAction::PopPane) && final(self).selected == old(self).selected
            } else if key == KeyCode::Tab {
                r == Action::NoOp && final(self).selected == !old(self).selected
            } else {
                r == Action::NoOp && final(self).selected == old(self).selected
            },
    {
        match key {
            KeyCode::Char('y') | KeyCode::Char('Y') => self.confirm_action(),
            KeyCode::Char('n') | KeyCode::Char('N') => Action::Nav(NavAction::PopPane),
            KeyCode::Tab => {
                self.selected = !self.selected;
                Action::NoOp
            },
            _ => Action::NoOp,
        }
    }
}

} // verus!
