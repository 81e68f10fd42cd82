//! The project browser: the recently opened projects, newest first, with a
//! highlighted entry to open or forget, and how long ago each was opened.

use vstd::prelude::*;
use crate::action::{Action, NavAction, SessionAction};
use crate::keymap::{KeyCode, Keymap};
use crate::text::{decimal, push_decimal, str_eq, take_chars, take_str};

verus! {

/// A recently opened project.
#[derive(Debug, Clone)]
pub struct ProjectEntry {
    pub name: String,
    /// Where the project file is.
    pub path: String,
    /// When it was last opened, in seconds since the Unix epoch.
    pub last_opened_secs: u64,
}

/// How long ago something happened, for a list of recent items: "just now" under
/// a minute, then whole minutes, hours and days up to a week, and after that the
/// year (counted as 365-day years since 1970) of `since_epoch_secs`.
pub open spec fn time_ago_text(elapsed_secs: u64, since_epoch_secs: u64) -> Seq<char> {
    if elapsed_secs < 60 {
        "just now"@
    } else if elapsed_secs < 3600 {
        decimal((elapsed_secs / 60) as nat) + " min ago"@
    } else if elapsed_secs < 86400 {
        decimal((elapsed_secs / 3600) as nat) + " hours ago"@
    } else if elapsed_secs < 604800 {
        decimal((elapsed_secs / 86400) as nat) + " days ago"@
    } else {
        decimal((1970 + since_epoch_secs / 86400 / 365) as nat)
    }
}

/// How long ago a project was opened: `elapsed_secs` is the time since then
/// (0 when that time lies in the future), `since_epoch_secs` the time itself.
pub fn format_time_ago(elapsed_secs: u64, since_epoch_secs: u64) -> (r: String)
    ensures
        r@ == time_ago_text(elapsed_secs, since_epoch_secs),
{
    let mut s = String::new();
    if elapsed_secs < 60 {
        proof {
            reveal_strlit("just now");
        }
        s.append("just now");
    } else if elapsed_secs < 3600 {
        push_decimal(&mut s, elapsed_secs / 60);
        s.append(" min ago");
    } else if elapsed_secs < 86400 {
        push_decimal(&mut s, elapsed_secs / 3600);
        s.append(" hours ago");
    } else if elapsed_secs < 604800 {
        push_decimal(&mut s, elapsed_secs / 86400);
        s.append(" days ago");
    } else {
        let days = since_epoch_secs / 86400;
        push_decimal(&mut s, 1970 + days / 365);
    }
    proof {
        assert(s@ =~= time_ago_text(elapsed_secs, since_epoch_secs));
    }
    s
}

/// The project browser's state.
pub struct ProjectBrowserPane {
    pub keymap: Keymap,
    pub entries: Vec<ProjectEntry>,
    /// The highlighted entry.
    pub selected: usize,
}

/// What a project browser command asks of the application: an action, and the
/// path of a project to forget (after which the list is read again).
pub struct BrowserOutcome {
    pub action: Action,
    pub forget: Option<String>,
}

impl ProjectBrowserPane {
    /// An empty browser.
    pub fn new(keymap: Keymap) -> (p: ProjectBrowserPane)
        ensures
            p.keymap == keymap,
            p.entries@.len() == 0,
            p.selected == 0,
    {
        ProjectBrowserPane { keymap, entries: Vec::new(), selected: 0 }
    }

    pub fn id(&self) -> (r: &'static str)
        ensures
            r@ == "project_browser"@,
    {
        "project_browser"
    }

    /// Takes the list of recent projects as read again; the highlight moves to the
    /// last entry when it was past the end (to 0 for an empty list).
    pub fn refresh(&mut self, entries: Vec<ProjectEntry>)
        ensures
            final(self).keymap == old(self).keymap,
            final(self).entries@ == entries@,
            final(self).selected == if old(self).selected >= entries@.len() {
                if entries@.len() > 0 { (entries@.len() - 1) as usize } else { 0 }
            } else {
                old(self).selected
            },
    {
        self.entries = entries;
        if self.selected >= self.entries.len() {
            self.selected = if self.entries.len() > 0 { self.entries.len() - 1 } else { 0 };
        }
    }

    /// The path of the highlighted entry.
    fn selected_path(&self) -> (r: Option<String>)
        ensures
            match r {
                Some(p) => self.selected < self.entries@.len() && p@ == self.entries@[self.selected as int].path@,
                None => self.selected >= self.entries@.len(),
            },
    {
        if self.selected < self.entries.len() {
            Some(self.entries[self.selected].path.clone())
        } else {
            None
        }
    }

    /// Handles one action: close, move the highlight, open the highlighted project,
    /// start a new one, or forget the highlighted one.
    pub fn handle_action(&mut self, action: &str) -> (r: BrowserOutcome)
        ensures
            final(self).keymap == old(self).keymap,
            final(self).entries@ == old(self).entries@,
            ({
                let n = old(self).entries@.len();
                let sel = old(self).selected;
                let has = sel < n;
                if action@ == "close"@ {
                    r.action == Action::Nav(NavAction::PopPane) && r.forget is None && final(self).selected == sel
                } else if action@ == "up"@ {
                    r.action == Action::NoOp && r.forget is None
                        && final(self).selected == (if sel > 0 { (sel - 1) as usize } else { sel })
                } else if action@ == "down"@ {
                    r.action == Action::NoOp && r.forget is None
                        && final(self).selected == (if sel + 1 < n { (sel + 1) as usize } else { sel })
                } else if action@ == "select"@ {
                    &&& r.forget is None && final(self).selected == sel
                    &&& if has {
                        r.action matches Action::Session(SessionAction::LoadFrom(p))
                            && p@ == old(self).entries@[sel as int].path@
                    } else {
                        r.action == Action::NoOp
                    }
                } else if action@ == "new_project"@ {
                    r.action == Action::Session(SessionAction::NewProject) && r.forget is None && final(self).selected == sel
                } else if action@ == "delete_entry"@ {
                    &&& r.action == Action::NoOp && final(self).selected == sel
                    &&& if has {
                        r.forget is Some && r.forget->0@ == old(self).entries@[sel as int].path@
                    } else {
                        r.forget is None
                    }
                } else {
                    r.action == Action::NoOp && r.forget is None && final(self).selected == sel
                }
            }),
    {
        let none = BrowserOutcome { action: Action::NoOp, forget: None };
        proof {
            reveal_strlit("close");
            reveal_strlit("up");
            reveal_strlit("down");
            reveal_strlit("select");
            reveal_strlit("new_project");
            reveal_strlit("delete_entry");
        }
        if str_eq(action, "close") {
            BrowserOutcome { action: Action::Nav(NavAction::PopPane), forget: None }
        } else if str_eq(action, "up") {
            if self.selected > 0 {
                self.selected = self.selected - 1;
            }
            none
        } else if str_eq(action, "down") {
            let n = self.entries.len();
            if n > 0 && self.selected < n - 1 {
                self.selected = self.selected + 1;
            }
            none
        } else if str_eq(action, "select") {
            match self.selected_path() {
                Some(p) => BrowserOutcome { action: Action::Session(SessionAction::LoadFrom(p)), forget: None },
                None => none,
            }
        } else if str_eq(action, "new_project") {
            BrowserOutcome { action: Action::Session(SessionAction::NewProject), forget: None }
        } else if str_eq(action, "delete_entry") {
            BrowserOutcome { action: Action::NoOp, forget: self.selected_path() }
        } else {
            none
        }
    }

    /// Handles a typed key: `n`/`N` starts a new project, `d`/`D` forgets the
    /// highlighted one.
    pub fn handle_raw_input(&self, key: KeyCode) -> (r: BrowserOutcome)
        ensures
            match key {
                KeyCode::Char(c) => if c == 'n' || c == 'N' {
                    r.action == Action::Session(SessionAction::NewProject) && r.forget is None
                } else if c == 'd' || c == 'D' {
                    &&& r.action == Action::NoOp
                    &&& if self.selected < self.entries@.len() {
                        r.forget is Some && r.forget->0@ == self.entries@[self.selected as int].path@
                    } else {
                        r.forget is None
                    }
                } else {
                    r.action == Action::NoOp && r.forget is None
                },
                _ => r.action == Action::NoOp && r.forget is None,
            },
    {
        match key {
            KeyCode::Char(c) => {
                if c == 'n' || c == 'N' {
                    BrowserOutcome { action: Action::Session(SessionAction::NewProject), forget: None }
                } else if c == 'd' || c == 'D' {
                    BrowserOutcome { action: Action::NoOp, forget: self.selected_path() }
                } else {
                    BrowserOutcome { action: Action::NoOp, forget: None }
                }
            },
            _ => BrowserOutcome { action: Action::NoOp, forget: None },
        }
    }
}

} // verus!

verus! {

/// A shown entry of the project list.
pub struct BrowserRow {
    /// Index of the entry in the list.
    pub entry: usize,
    pub selected: bool,
    /// The project name, cut to the room left of the time.
    pub name: String,
    /// Spaces after the name, up to that room.
    pub padding: usize,
    /// How long ago the project was opened.
    pub time: String,
}

/// What the project browser shows inside its border.
pub struct BrowserFrame {
    /// The box size the browser asks for.
    pub width: u16,
    pub height: u16,
    /// "No recent projects" is shown.
    pub empty_note: bool,
    pub rows: Vec<BrowserRow>,
}

/// Seconds from `then` to `now`, 0 when `then` is later.
pub open spec fn elapsed(now: u64, then: u64) -> u64 {
    if now >= then { (now - then) as u64 } else { 0 }
}

/// Entries that fit in a box `inner_height` high (a header, a gap, and two
/// rows below the list).
pub open spec fn browser_rows_visible(inner_height: u16) -> int {
    if inner_height >= 4 { inner_height - 4 } else { 0 }
}

impl ProjectBrowserPane {
    /// The first entry shown, keeping the highlight on the last shown row.
    pub open spec fn first_shown(self, max_visible: int) -> int {
        if self.selected >= max_visible { self.selected - max_visible + 1 } else { 0 }
    }

    /// The browser on a screen `area_width` by `area_height`, its list drawn in
    /// a box whose inside is `inner_width` by `inner_height`, at `now_secs`
    /// seconds since the Unix epoch.
    pub fn render(&self, area_width: u16, area_height: u16, inner_width: u16, inner_height: u16, now_secs: u64) -> (f: BrowserFrame)
        ensures
            f.width == (if area_width >= 60 { 56 } else if area_width >= 4 { area_width - 4 } else { 0 }),
            ({
                let fit: int = if area_height >= 4 { area_height - 4 } else { 0 };
                let sum: int = (self.entries@.len() as u16) + 8;
                let want: int = if sum > u16::MAX { sum - 65536 } else { sum };
                let h: int = if want < fit { want } else { fit };
                f.height == (if h > 10 { h } else { 10 })
            }),
            f.empty_note == (self.entries@.len() == 0 && inner_height > 2),
            ({
                let maxv = browser_rows_visible(inner_height);
                let scroll = self.first_shown(maxv);
                let left = if self.entries@.len() > scroll { self.entries@.len() - scroll } else { 0 };
                let count = if maxv < left { maxv } else { left };
                &&& f.rows@.len() == count
                &&& forall|i: int|
                    0 <= i < count ==> {
                        let e = self.entries@[scroll + i];
                        let time = time_ago_text(elapsed(now_secs, e.last_opened_secs), e.last_opened_secs);
                        let room = if inner_width >= time.len() + 6 { inner_width - time.len() - 6 } else { 0 };
                        &&& (#[trigger] f.rows@[i]).entry == scroll + i
                        &&& f.rows@[i].selected == (scroll + i == self.selected)
                        &&& f.rows@[i].time@ == time
                        &&& f.rows@[i].name@ == take_chars(e.name@, room)
                        &&& f.rows@[i].padding == room - take_chars(e.name@, room).len()
                    }
            }),
    {
        let n = self.entries.len();
        let room = area_width.saturating_sub(4);
        let width: u16 = if room < 56 { room } else { 56 };
        let want: u16 = (n as u16).wrapping_add(8);
        let fit = area_height.saturating_sub(4);
        let h: u16 = if want < fit { want } else { fit };
        let height: u16 = if h > 10 { h } else { 10 };
        let empty_note = n == 0 && inner_height > 2;
        let maxv: usize = inner_height.saturating_sub(4) as usize;
        if maxv == 0 {
            return BrowserFrame { width, height, empty_note, rows: Vec::new() };
        }
        let scroll: usize = if self.selected >= maxv { self.selected - (maxv - 1) } else { 0 };
        let left: usize = if n > scroll { n - scroll } else { 0 };
        let count: usize = if maxv < left { maxv } else { left };
        let mut rows: Vec<BrowserRow> = Vec::new();
        let mut i: usize = 0;
        while i < count
            invariant
                n == self.entries@.len(),
                maxv == browser_rows_visible(inner_height),
                scroll == self.first_shown(maxv as int),
                left == (if n > scroll { n - scroll } else { 0 }),
                count == (if maxv < left { maxv } else { left }),
                i <= count,
                rows@.len() == i,
                forall|q: int|
                    0 <= q < i ==> {
                        let e = self.entries@[scroll + q];
                        let time = time_ago_text(elapsed(now_secs, e.last_opened_secs), e.last_opened_secs);
                        let room = if inner_width >= time.len() + 6 { inner_width - time.len() - 6 } else { 0 };
                        &&& (#[trigger] rows@[q]).entry == scroll + q
                        &&& rows@[q].selected == (scroll + q == self.selected)
                        &&& rows@[q].time@ == time
                        &&& rows@[q].name@ == take_chars(e.name@, room)
                        &&& rows@[q].padding == room - take_chars(e.name@, room).len()
                    },
            decreases count - i,
        {
            let e = &self.entries[scroll + i];
            let then = e.last_opened_secs;
            let since = if now_secs >= then { now_secs - then } else { 0 };
            let time = format_time_ago(since, then);
            let tlen = time.as_str().unicode_len();
            let w = inner_width as usize;
            let room: usize = if w >= 6 && w - 6 >= tlen { w - 6 - tlen } else { 0 };
            let name = take_str(e.name.as_str(), room);
            let padding = room - name.as_str().unicode_len();
            rows.push(BrowserRow { entry: scroll + i, selected: scroll + i == self.selected, name, padding, time });
            i = i + 1;
        }
        BrowserFrame { width, height, empty_note, rows }
    }
}

} // verus!

verus! {

/// With room for at least one row, the highlighted entry is among the rows shown.
pub proof fn lemma_highlight_shown(p: ProjectBrowserPane, inner_height: u16)
    requires
        p.selected < p.entries@.len(),
        browser_rows_visible(inner_height) > 0,
    ensures
        ({
            let maxv = browser_rows_visible(inner_height);
            let scroll = p.first_shown(maxv);
            let left = p.entries@.len() - scroll;
            let count = if maxv < left { maxv } else { left };
            scroll <= p.selected < scroll + count
        }),
{
}

} // verus!
