//! The "add effect" menu: effect kinds grouped under separator headings, the
//! imported VST effects, and an entry to import another VST. The highlight skips
//! the separators and wraps around.

use vstd::prelude::*;
use crate::action::{Action, FileSelectAction, InstrumentAction, NavAction, SessionAction};
use crate::effects::EffectType;
use crate::keymap::Keymap;
use crate::screen::ScreenRect;
use crate::text::str_eq;

verus! {

/// An entry of the menu.
#[derive(Debug, Clone, Copy, PartialEq, Eq)]
pub enum AddEffectOption {
    Effect(EffectType),
    Separator(&'static str),
    ImportVst,
}

/// The built-in part of the menu.
pub open spec fn builtin_options() -> Seq<AddEffectOption> {
    seq![
        AddEffectOption::Separator("── Dynamics ──"),
        AddEffectOption::Effect(EffectType::TapeComp),
        AddEffectOption::Effect(EffectType::SidechainComp),
        AddEffectOption::Effect(EffectType::Gate),
        AddEffectOption::Effect(EffectType::Limiter),
        AddEffectOption::Separator("── Modulation ──"),
        AddEffectOption::Effect(EffectType::Chorus),
        AddEffectOption::Effect(EffectType::Flanger),
        AddEffectOption::Effect(EffectType::Phaser),
        AddEffectOption::Effect(EffectType::Tremolo),
        AddEffectOption::Separator("── Distortion ──"),
        AddEffectOption::Effect(EffectType::Distortion),
        AddEffectOption::Effect(EffectType::Bitcrusher),
        AddEffectOption::Effect(EffectType::Wavefolder),
        AddEffectOption::Effect(EffectType::Saturator),
        AddEffectOption::Separator("── EQ ──"),
        AddEffectOption::Effect(EffectType::TiltEq),
        AddEffectOption::Separator("── Stereo ──"),
        AddEffectOption::Effect(EffectType::StereoWidener),
        AddEffectOption::Effect(EffectType::FreqShifter),
        AddEffectOption::Separator("── Delay / Reverb ──"),
        AddEffectOption::Effect(EffectType::Delay),
        AddEffectOption::Effect(EffectType::Reverb),
        AddEffectOption::Effect(EffectType::ConvolutionReverb),
        AddEffectOption::Separator("── Utility ──"),
        AddEffectOption::Effect(EffectType::PitchShifter),
        AddEffectOption::Separator("── Lo-fi ──"),
        AddEffectOption::Effect(EffectType::Vinyl),
        AddEffectOption::Effect(EffectType::Cabinet),
        AddEffectOption::Separator("── Granular ──"),
        AddEffectOption::Effect(EffectType::GranularDelay),
        AddEffectOption::Effect(EffectType::GranularFreeze),
        AddEffectOption::Separator("── VST ──"),
    ]
}

/// The menu for the imported VST effects `vst_ids`: the built-in part, an entry per
/// VST effect, and the import entry.
pub open spec fn effect_list(vst_ids: Seq<u32>) -> Seq<AddEffectOption> {
    builtin_options() + Seq::new(vst_ids.len(), |i: int| AddEffectOption::Effect(EffectType::Vst(vst_ids[i])))
        + seq![AddEffectOption::ImportVst]
}

/// Whether an entry is a separator heading.
pub open spec fn is_separator(o: AddEffectOption) -> bool {
    o is Separator
}

/// Some entry of the menu can be highlighted.
pub open spec fn has_selectable(opts: Seq<AddEffectOption>) -> bool {
    exists|i: int| 0 <= i < opts.len() && !is_separator(#[trigger] opts[i])
}

/// `x` brought into 0..len when it lies one period below or above.
pub open spec fn wrap(x: int, len: int) -> int {
    if x >= len {
        x - len
    } else if x < 0 {
        x + len
    } else {
        x
    }
}

/// `n` is the first entry after `s` (cyclically, `s` itself last) that is not a
/// separator.
pub open spec fn next_selectable(opts: Seq<AddEffectOption>, s: int, n: int) -> bool {
    let len = opts.len() as int;
    exists|k: int|
        #![trigger wrap(s + 1 + k, len)]
        0 <= k < len && n == wrap(s + 1 + k, len) && !is_separator(opts[n]) && forall|j: int|
            0 <= j < k ==> is_separator(#[trigger] opts[wrap(s + 1 + j, len)])
}

/// `p` is the first entry before `s` (cyclically, `s` itself last) that is not a
/// separator.
pub open spec fn prev_selectable(opts: Seq<AddEffectOption>, s: int, p: int) -> bool {
    let len = opts.len() as int;
    exists|k: int|
        #![trigger wrap(s - 1 - k, len)]
        0 <= k < len && p == wrap(s - 1 - k, len) && !is_separator(opts[p]) && forall|j: int|
            0 <= j < k ==> is_separator(#[trigger] opts[wrap(s - 1 - j, len)])
}

proof fn lemma_mod_as_wrap(x: int, len: int)
    requires
        0 < len,
        0 <= x < 2 * len,
    ensures
        x % len == wrap(x, len),
{
    if x < len {
        vstd::arithmetic::div_mod::lemma_small_mod(x as nat, len as nat);
    } else {
        vstd::arithmetic::div_mod::lemma_mod_add_multiples_vanish(x - len, len);
        vstd::arithmetic::div_mod::lemma_small_mod((x - len) as nat, len as nat);
    }
}

/// A step forward to the next entry that is not a separator, and then a step back,
/// returns to the entry where it started.
pub proof fn lemma_next_then_prev(opts: Seq<AddEffectOption>, s: int, n: int)
    requires
        0 <= s < opts.len(),
        !is_separator(opts[s]),
        next_selectable(opts, s, n),
    ensures
        prev_selectable(opts, n, s),
{
    let len = opts.len() as int;
    let k = choose|k: int|
        #![trigger wrap(s + 1 + k, len)]
        0 <= k < len && n == wrap(s + 1 + k, len) && !is_separator(opts[n]) && forall|j: int|
            0 <= j < k ==> is_separator(#[trigger] opts[wrap(s + 1 + j, len)]);
    assert(s == wrap(n - 1 - k, len));
    assert forall|j: int| 0 <= j < k implies is_separator(#[trigger] opts[wrap(n - 1 - j, len)]) by {
        let j2 = k - 1 - j;
        assert(wrap(n - 1 - j, len) == wrap(s + 1 + j2, len));
        assert(is_separator(opts[wrap(s + 1 + j2, len)]));
    }
    assert(0 <= k < len && s == wrap(n - 1 - k, len) && !is_separator(opts[s]));
}

/// The "add effect" menu's state.
pub struct AddEffectPane {
    pub keymap: Keymap,
    pub selected: usize,
    pub cached_options: Vec<AddEffectOption>,
}

/// The menu for the imported VST effects `vst_ids`.
pub fn build_effect_list(vst_ids: &Vec<u32>) -> (r: Vec<AddEffectOption>)
    ensures
        r@ == effect_list(vst_ids@),
{
    let mut options: Vec<AddEffectOption> = vec![
        AddEffectOption::Separator("── Dynamics ──"),
        AddEffectOption::Effect(EffectType::TapeComp),
        AddEffectOption::Effect(EffectType::SidechainComp),
        AddEffectOption::Effect(EffectType::Gate),
        AddEffectOption::Effect(EffectType::Limiter),
        AddEffectOption::Separator("── Modulation ──"),
        AddEffectOption::Effect(EffectType::Chorus),
        AddEffectOption::Effect(EffectType::Flanger),
        AddEffectOption::Effect(EffectType::Phaser),
        AddEffectOption::Effect(EffectType::Tremolo),
        AddEffectOption::Separator("── Distortion ──"),
        AddEffectOption::Effect(EffectType::Distortion),
        AddEffectOption::Effect(EffectType::Bitcrusher),
        AddEffectOption::Effect(EffectType::Wavefolder),
        AddEffectOption::Effect(EffectType::Saturator),
        AddEffectOption::Separator("── EQ ──"),
        AddEffectOption::Effect(EffectType::TiltEq),
        AddEffectOption::Separator("── Stereo ──"),
        AddEffectOption::Effect(EffectType::StereoWidener),
        AddEffectOption::Effect(EffectType::FreqShifter),
        AddEffectOption::Separator("── Delay / Reverb ──"),
        AddEffectOption::Effect(EffectType::Delay),
        AddEffectOption::Effect(EffectType::Reverb),
        AddEffectOption::Effect(EffectType::ConvolutionReverb),
        AddEffectOption::Separator("── Utility ──"),
        AddEffectOption::Effect(EffectType::PitchShifter),
        AddEffectOption::Separator("── Lo-fi ──"),
        AddEffectOption::Effect(EffectType::Vinyl),
        AddEffectOption::Effect(EffectType::Cabinet),
        AddEffectOption::Separator("── Granular ──"),
        AddEffectOption::Effect(EffectType::GranularDelay),
        AddEffectOption::Effect(EffectType::GranularFreeze),
    ];
    options.push(AddEffectOption::Separator("── VST ──"));
    assert(options@ =~= builtin_options());
    let ghost base = options@;
    let mut i: usize = 0;
    while i < vst_ids.len()
        invariant
            i <= vst_ids@.len(),
            base == builtin_options(),
            options@ == base + Seq::new(i as nat, |j: int| AddEffectOption::Effect(EffectType::Vst(vst_ids@[j]))),
        decreases vst_ids@.len() - i,
    {
        options.push(AddEffectOption::Effect(EffectType::Vst(vst_ids[i])));
        i = i + 1;
        assert(options@ =~= base + Seq::new(i as nat, |j: int| AddEffectOption::Effect(EffectType::Vst(vst_ids@[j]))));
    }
    options.push(AddEffectOption::ImportVst);
    assert(options@ =~= effect_list(vst_ids@));
    options
}

/// The menu with no imported VST effects.
pub fn build_options_static() -> (r: Vec<AddEffectOption>)
    ensures
        r@ == effect_list(Seq::empty()),
{
    let none: Vec<u32> = Vec::new();
    let r = build_effect_list(&none);
    assert(none@ =~= Seq::<u32>::empty());
    r
}

/// Every menu has its import entry, which can be highlighted.
pub proof fn lemma_effect_list_selectable(vst_ids: Seq<u32>)
    ensures
        has_selectable(effect_list(vst_ids)),
{
    let l = effect_list(vst_ids);
    assert(!is_separator(l[l.len() - 1]));
}

impl AddEffectPane {
    /// The highlight is on an entry, and some entry can be highlighted.
    pub open spec fn wf(&self) -> bool {
        &&& self.selected < self.cached_options@.len()
        &&& has_selectable(self.cached_options@)
    }

    /// The menu without imported VST effects, the first entry highlighted.
    pub fn new(keymap: Keymap) -> (p: AddEffectPane)
        ensures
            p.wf(),
            p.keymap == keymap,
            p.selected == 0,
            p.cached_options@ == effect_list(Seq::empty()),
    {
        proof {
            lemma_effect_list_selectable(Seq::empty());
        }
        AddEffectPane { keymap, selected: 0, cached_options: build_options_static() }
    }

    pub fn id(&self) -> (r: &'static str)
        ensures
            r@ == "add_effect"@,
    {
        "add_effect"
    }

    /// Highlights the next entry that is not a separator, wrapping around.
    pub fn select_next(&mut self)
        requires
            old(self).wf(),
        ensures
            final(self).wf(),
            final(self).cached_options == old(self).cached_options,
            final(self).keymap == old(self).keymap,
            next_selectable(old(self).cached_options@, old(self).selected as int, final(self).selected as int),
    {
        let len = self.cached_options.len();
        let ghost opts = self.cached_options@;
        let ghost s = self.selected as int;
        proof {
            lemma_mod_as_wrap(s + 1, len as int);
        }
        let mut next = (self.selected + 1) % len;
        let ghost mut k: int = 0;
        while matches!(self.cached_options[next], AddEffectOption::Separator(_))
            invariant
                opts == self.cached_options@,
                len == opts.len(),
                s == self.selected,
                0 <= s < len,
                has_selectable(opts),
                0 <= k < len,
                next == wrap(s + 1 + k, len as int),
                forall|j: int| 0 <= j < k ==> is_separator(#[trigger] opts[wrap(s + 1 + j, len as int)]),
            decreases len - k,
        {
            proof {
                lemma_mod_as_wrap(next + 1, len as int);
                if k + 1 >= len {
                    let p = choose|p: int| 0 <= p < opts.len() && !is_separator(#[trigger] opts[p]);
                    let j = wrap(p - s - 1, len as int);
                    assert(wrap(s + 1 + j, len as int) == p);
                    assert(j <= k);
                    if j == k {
                        assert(is_separator(opts[next as int]));
                    } else {
                        assert(is_separator(opts[wrap(s + 1 + j, len as int)]));
                    }
                }
            }
            next = (next + 1) % len;
            proof {
                k = k + 1;
            }
        }
        self.selected = next;
    }

    /// Highlights the previous entry that is not a separator, wrapping around.
    pub fn select_prev(&mut self)
        requires
            old(self).wf(),
        ensures
            final(self).wf(),
            final(self).cached_options == old(self).cached_options,
            final(self).keymap == old(self).keymap,
            prev_selectable(old(self).cached_options@, old(self).selected as int, final(self).selected as int),
    {
        let len = self.cached_options.len();
        let ghost opts = self.cached_options@;
        let ghost s = self.selected as int;
        let mut prev = if self.selected == 0 {
            len - 1
        } else {
            self.selected - 1
        };
        let ghost mut k: int = 0;
        while matches!(self.cached_options[prev], AddEffectOption::Separator(_))
            invariant
                opts == self.cached_options@,
                len == opts.len(),
                s == self.selected,
                0 <= s < len,
                has_selectable(opts),
                0 <= k < len,
                prev == wrap(s - 1 - k, len as int),
                forall|j: int| 0 <= j < k ==> is_separator(#[trigger] opts[wrap(s - 1 - j, len as int)]),
            decreases len - k,
        {
            proof {
                if k + 1 >= len {
                    let p = choose|p: int| 0 <= p < opts.len() && !is_separator(#[trigger] opts[p]);
                    let j = wrap(s - 1 - p, len as int);
                    assert(wrap(s - 1 - j, len as int) == p);
                    assert(j <= k);
                    if j == k {
                        assert(is_separator(opts[prev as int]));
                    } else {
                        assert(is_separator(opts[wrap(s - 1 - j, len as int)]));
                    }
                }
            }
            prev = if prev == 0 {
                len - 1
            } else {
                prev - 1
            };
            proof {
                k = k + 1;
            }
        }
        self.selected = prev;
    }

    /// Rebuilds the menu for the imported VST effects `vst_ids`, keeping the
    /// highlight on the menu and off the separators.
    pub fn update_options(&mut self, vst_ids: &Vec<u32>)
        ensures
            final(self).wf(),
            final(self).cached_options@ == effect_list(vst_ids@),
            final(self).keymap == old(self).keymap,
            ({
                let opts = effect_list(vst_ids@);
                let kept = if old(self).selected >= opts.len() { (opts.len() - 1) as int } else { old(self).selected as int };
                if is_separator(opts[kept]) {
                    next_selectable(opts, kept, final(self).selected as int)
                } else {
                    final(self).selected == kept
                }
            }),
    {
        self.cached_options = build_effect_list(vst_ids);
        proof {
            lemma_effect_list_selectable(vst_ids@);
        }
        if self.selected >= self.cached_options.len() {
            self.selected = self.cached_options.len() - 1;
        }
        if matches!(self.cached_options[self.selected], AddEffectOption::Separator(_)) {
            self.select_next();
        }
    }

    /// Handles an action for the selected instrument: "confirm" adds the
    /// highlighted effect to it (or opens the file browser to import a VST),
    /// "cancel" closes the menu, "next"/"prev" move the highlight.
    pub fn handle_action(&mut self, action: &str, selected_instrument: Option<u32>) -> (r: Action)
        requires
            old(self).wf(),
        ensures
            final(self).wf(),
            final(self).cached_options == old(self).cached_options,
            action@ == "confirm"@ ==> final(self).selected == old(self).selected && r == match old(self).cached_options@[old(self).selected as int] {
                AddEffectOption::Effect(t) => match selected_instrument {
                    Some(id) => Action::Instrument(InstrumentAction::AddEffect(id, t)),
                    None => Action::NoOp,
                },
                AddEffectOption::ImportVst => Action::Session(SessionAction::OpenFileBrowser(FileSelectAction::ImportVstEffect)),
                AddEffectOption::Separator(_) => Action::NoOp,
            },
            action@ != "confirm"@ && action@ == "cancel"@ ==> final(self).selected == old(self).selected && r == Action::Nav(NavAction::PopPane),
            action@ != "confirm"@ && action@ != "cancel"@ && action@ == "next"@ ==> r == Action::NoOp
                && next_selectable(old(self).cached_options@, old(self).selected as int, final(self).selected as int),
            action@ != "confirm"@ && action@ != "cancel"@ && action@ != "next"@ && action@ == "prev"@ ==> r == Action::NoOp
                && prev_selectable(old(self).cached_options@, old(self).selected as int, final(self).selected as int),
            action@ != "confirm"@ && action@ != "cancel"@ && action@ != "next"@ && action@ != "prev"@ ==> r == Action::NoOp
                && final(self).selected == old(self).selected,
    {
        if str_eq(action, "confirm") {
            match self.cached_options[self.selected] {
                AddEffectOption::Effect(t) => match selected_instrument {
                    Some(id) => Action::Instrument(InstrumentAction::AddEffect(id, t)),
                    None => Action::NoOp,
                },
                AddEffectOption::ImportVst => Action::Session(SessionAction::OpenFileBrowser(FileSelectAction::ImportVstEffect)),
                AddEffectOption::Separator(_) => Action::NoOp,
            }
        } else if str_eq(action, "cancel") {
            Action::Nav(NavAction::PopPane)
        } else if str_eq(action, "next") {
            self.select_next();
            Action::NoOp
        } else if str_eq(action, "prev") {
            self.select_prev();
            Action::NoOp
        } else {
            Action::NoOp
        }
    }
}

} // verus!

verus! {

impl AddEffectPane {
    /// A left click on row `row` of the menu drawn in `area` (its list starts five
    /// rows below the top): an entry that is not a separator becomes highlighted and
    /// is confirmed at once.
    pub fn handle_click(&mut self, row: u16, area: ScreenRect, selected_instrument: Option<u32>) -> (r: Action)
        requires
            old(self).wf(),
            area.y + 5 <= u16::MAX,
        ensures
            final(self).wf(),
            final(self).cached_options == old(self).cached_options,
            final(self).keymap == old(self).keymap,
            ({
                let top = area.y + 5;
                let idx = row - top;
                let opts = old(self).cached_options@;
                if row >= top && idx < opts.len() && !is_separator(opts[idx]) {
                    &&& final(self).selected == idx
                    &&& r == match opts[idx] {
                        AddEffectOption::Effect(t) => match selected_instrument {
                            Some(id) => Action::Instrument(InstrumentAction::AddEffect(id, t)),
                            None => Action::NoOp,
                        },
                        _ => Action::Session(SessionAction::OpenFileBrowser(FileSelectAction::ImportVstEffect)),
                    }
                } else {
                    final(self).selected == old(self).selected && r == Action::NoOp
                }
            }),
    {
        let top = area.y + 5;
        if row < top {
            return Action::NoOp;
        }
        let idx = (row - top) as usize;
        if idx >= self.cached_options.len() {
            return Action::NoOp;
        }
        match self.cached_options[idx] {
            AddEffectOption::Separator(_) => Action::NoOp,
            AddEffectOption::Effect(t) => {
                self.selected = idx;
                match selected_instrument {
                    Some(id) => Action::Instrument(InstrumentAction::AddEffect(id, t)),
                    None => Action::NoOp,
                }
            },
            AddEffectOption::ImportVst => {
                self.selected = idx;
                Action::Session(SessionAction::OpenFileBrowser(FileSelectAction::ImportVstEffect))
            },
        }
    }
}

} // verus!
