//! The parametric EQ pane: picks one of the twelve bands and one of its
//! parameters (frequency, gain, Q, on/off) and asks for nudges to it.

use vstd::prelude::*;
use crate::action::{Action, InstrumentAction, StepSize};
use crate::keymap::Keymap;
use crate::text::str_eq;

verus! {

/// The last band index.
pub const LAST_BAND: usize = 11;

/// The last parameter index (0 frequency, 1 gain, 2 Q, 3 on/off).
pub const LAST_PARAM: usize = 3;

/// What the EQ pane needs to know of the selected instrument: its id and, when its
/// EQ is on, whether each band is enabled.
pub struct EqTarget {
    pub id: u32,
    pub band_enabled: Option<Vec<bool>>,
}

/// The EQ pane's selection.
pub struct EqPane {
    pub keymap: Keymap,
    pub selected_band: usize,
    pub selected_param: usize,
}

/// The nudge size an action name asks for.
pub open spec fn spec_step_of(action: Seq<char>) -> StepSize {
    if action == "increase_big"@ || action == "decrease_big"@ {
        StepSize::Big
    } else if action == "increase_tiny"@ || action == "decrease_tiny"@ {
        StepSize::Tiny
    } else {
        StepSize::Normal
    }
}

impl EqPane {
    /// The first band, with the gain parameter selected.
    pub fn new(keymap: Keymap) -> (p: EqPane)
        ensures
            p.keymap == keymap,
            p.selected_band == 0,
            p.selected_param == 1,
    {
        EqPane { keymap, selected_band: 0, selected_param: 1 }
    }

    pub fn id(&self) -> (r: &'static str)
        ensures
            r@ == "eq"@,
    {
        "eq"
    }

    /// A nudge of the selected parameter; the on/off parameter and a switched-off
    /// EQ take none.
    pub open spec fn adjust(self, target: EqTarget, increase: bool, step: StepSize) -> Action {
        if target.band_enabled is Some && self.selected_param <= 2 {
            Action::Instrument(
                InstrumentAction::AdjustEqParam {
                    instrument: target.id,
                    band: self.selected_band,
                    param: self.selected_param,
                    increase,
                    step,
                },
            )
        } else {
            Action::NoOp
        }
    }

    /// Handles an action for the selected instrument `target` (nothing happens
    /// without one): moves between bands (0..=11) and parameters (0..=3), asks for
    /// nudges of the selected parameter, switches the EQ or the selected band.
    pub fn handle_action(&mut self, action: &str, target: Option<&EqTarget>) -> (r: Action)
        requires
            target matches Some(t) ==> (t.band_enabled matches Some(b) ==> old(self).selected_band < b@.len()),
        ensures
            final(self).keymap == old(self).keymap,
            target is None ==> *final(self) == *old(self) && r == Action::NoOp,
            target matches Some(t) ==> {
                let a = action@;
                if a == "prev_band"@ {
                    final(self).selected_band == (if old(self).selected_band == 0 { 0 } else { old(self).selected_band - 1 })
                        && final(self).selected_param == old(self).selected_param && r == Action::NoOp
                } else if a == "next_band"@ {
                    final(self).selected_band == (if old(self).selected_band + 1 > LAST_BAND { LAST_BAND as int } else { old(self).selected_band + 1 })
                        && final(self).selected_param == old(self).selected_param && r == Action::NoOp
                } else if a == "prev_param"@ {
                    final(self).selected_param == (if old(self).selected_param == 0 { 0 } else { old(self).selected_param - 1 })
                        && final(self).selected_band == old(self).selected_band && r == Action::NoOp
                } else if a == "next_param"@ {
                    final(self).selected_param == (if old(self).selected_param + 1 > LAST_PARAM { LAST_PARAM as int } else { old(self).selected_param + 1 })
                        && final(self).selected_band == old(self).selected_band && r == Action::NoOp
                } else {
                    &&& final(self).selected_band == old(self).selected_band
                    &&& final(self).selected_param == old(self).selected_param
                    &&& if a == "increase"@ || a == "increase_big"@ || a == "increase_tiny"@ {
                        r == old(self).adjust(*t, true, spec_step_of(a))
                    } else if a == "decrease"@ || a == "decrease_big"@ || a == "decrease_tiny"@ {
                        r == old(self).adjust(*t, false, spec_step_of(a))
                    } else if a == "toggle_eq"@ {
                        r == Action::Instrument(InstrumentAction::ToggleEq(t.id))
                    } else if a == "toggle_band"@ {
                        r == match t.band_enabled {
                            Some(b) => Action::Instrument(InstrumentAction::SetEqBandEnabled {
                                instrument: t.id,
                                band: old(self).selected_band,
                                enabled: !b@[old(self).selected_band as int],
                            }),
                            None => Action::NoOp,
                        }
                    } else {
                        r == Action::NoOp
                    }
                }
            },
    {
        let t = match target {
            Some(t) => t,
            None => return Action::NoOp,
        };
        if str_eq(action, "prev_band") {
            self.selected_band = self.selected_band.saturating_sub(1);
            Action::NoOp
        } else if str_eq(action, "next_band") {
            self.selected_band = if self.selected_band >= LAST_BAND { LAST_BAND } else { self.selected_band + 1 };
            Action::NoOp
        } else if str_eq(action, "prev_param") {
            self.selected_param = self.selected_param.saturating_sub(1);
            Action::NoOp
        } else if str_eq(action, "next_param") {
            self.selected_param = if self.selected_param >= LAST_PARAM { LAST_PARAM } else { self.selected_param + 1 };
            Action::NoOp
        } else if str_eq(action, "increase") || str_eq(action, "increase_big") || str_eq(action, "increase_tiny") {
            let step = step_of(action);
            self.adjust_exec(t, true, step)
        } else if str_eq(action, "decrease") || str_eq(action, "decrease_big") || str_eq(action, "decrease_tiny") {
            let step = step_of(action);
            self.adjust_exec(t, false, step)
        } else if str_eq(action, "toggle_eq") {
            Action::Instrument(InstrumentAction::ToggleEq(t.id))
        } else if str_eq(action, "toggle_band") {
            match &t.band_enabled {
                Some(b) => Action::Instrument(InstrumentAction::SetEqBandEnabled {
                    instrument: t.id,
                    band: self.selected_band,
                    enabled: !b[self.selected_band],
                }),
                None => Action::NoOp,
            }
        } else {
            Action::NoOp
        }
    }

    fn adjust_exec(&self, t: &EqTarget, increase: bool, step: StepSize) -> (r: Action)
        ensures
            r == self.adjust(*t, increase, step),
    {
        if t.band_enabled.is_some() && self.selected_param <= 2 {
            Action::Instrument(InstrumentAction::AdjustEqParam {
                instrument: t.id,
                band: self.selected_band,
                param: self.selected_param,
                increase,
                step,
            })
        } else {
            Action::NoOp
        }
    }
}

/// The nudge size an action name asks for.
pub fn step_of(action: &str) -> (r: StepSize)
    ensures
        r == spec_step_of(action@),
{
    if str_eq(action, "increase_big") || str_eq(action, "decrease_big") {
        StepSize::Big
    } else if str_eq(action, "increase_tiny") || str_eq(action, "decrease_tiny") {
        StepSize::Tiny
    } else {
        StepSize::Normal
    }
}

} // verus!
