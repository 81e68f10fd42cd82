//! Editing a drum pattern of the step sequencer: one row of steps per pad,
//! steps switched on and off, step velocities, and the pattern length cycle.

use vstd::prelude::*;

verus! {

/// One step of a pad's row.
#[derive(Debug, Clone, Copy, PartialEq, Eq)]
pub struct DrumStep {
    pub active: bool,
    pub velocity: u8,
}

/// A drum pattern: `steps[pad][step]`.
#[derive(Debug, Clone)]
pub struct DrumPattern {
    pub length: usize,
    pub steps: Vec<Vec<DrumStep>>,
}

/// The pattern length after the length key: 8, 16, 32, 64 and back to 8 (a length
/// outside the cycle goes to 16, as if it were 8).
pub open spec fn spec_next_length(len: usize) -> usize {
    if len == 8 {
        16
    } else if len == 16 {
        32
    } else if len == 32 {
        64
    } else if len == 64 {
        8
    } else {
        16
    }
}

/// The pattern length after the length key.
pub fn next_length(len: usize) -> (r: usize)
    ensures
        r == spec_next_length(len),
{
    if len == 8 {
        16
    } else if len == 16 {
        32
    } else if len == 32 {
        64
    } else if len == 64 {
        8
    } else {
        16
    }
}

/// A velocity changed by `delta`, kept within 1..=127.
pub open spec fn spec_nudge_velocity(v: u8, delta: i8) -> u8 {
    let x = v + delta;
    if x < 1 { 1 } else if x > 127 { 127 } else { x as u8 }
}

/// A row of `len` steps: the first steps of `old` (as many as fit), then `blank`.
pub open spec fn resized_row(old: Seq<DrumStep>, len: int, blank: DrumStep) -> Seq<DrumStep> {
    Seq::new(len as nat, |i: int| if i < old.len() { old[i] } else { blank })
}

/// The pattern after the next pattern index, wrapping around `count` patterns.
pub open spec fn spec_next_pattern(current: usize, count: usize) -> usize {
    ((current + 1) % (count as int)) as usize
}

/// The pattern before, wrapping around `count` patterns.
pub open spec fn spec_prev_pattern(current: usize, count: usize) -> usize {
    if current == 0 { (count - 1) as usize } else { (current - 1) as usize }
}

/// The pattern shown after "next pattern", among `count` patterns.
pub fn next_pattern(current: usize, count: usize) -> (r: usize)
    requires
        count > 0,
        current < count,
    ensures
        r == spec_next_pattern(current, count),
        r < count,
{
    (current + 1) % count
}

/// The pattern shown after "previous pattern", among `count` patterns.
pub fn prev_pattern(current: usize, count: usize) -> (r: usize)
    requires
        count > 0,
    ensures
        r == spec_prev_pattern(current, count),
{
    if current == 0 { count - 1 } else { current - 1 }
}

impl DrumPattern {
    /// Switches a step on or off; nothing happens outside the pattern.
    pub fn toggle_step(&mut self, pad: usize, step: usize)
        ensures
            final(self).length == old(self).length,
            final(self).steps@.len() == old(self).steps@.len(),
            forall|p: int| 0 <= p < old(self).steps@.len() ==> #[trigger] final(self).steps@[p]@ == if p == pad && step < old(self).steps@[p]@.len() {
                old(self).steps@[p]@.update(step as int, DrumStep { active: !old(self).steps@[p]@[step as int].active, ..old(self).steps@[p]@[step as int] })
            } else {
                old(self).steps@[p]@
            },
    {
        if pad < self.steps.len() && step < self.steps[pad].len() {
            let mut row = self.steps[pad].clone();
            let s = row[step];
            row.set(step, DrumStep { active: !s.active, ..s });
            self.steps.set(pad, row);
        }
    }

    /// Changes a step's velocity by `delta`, within 1..=127; nothing happens
    /// outside the pattern.
    pub fn adjust_velocity(&mut self, pad: usize, step: usize, delta: i8)
        ensures
            final(self).length == old(self).length,
            final(self).steps@.len() == old(self).steps@.len(),
            forall|p: int| 0 <= p < old(self).steps@.len() ==> #[trigger] final(self).steps@[p]@ == if p == pad && step < old(self).steps@[p]@.len() {
                old(self).steps@[p]@.update(step as int, DrumStep {
                    velocity: spec_nudge_velocity(old(self).steps@[p]@[step as int].velocity, delta),
                    ..old(self).steps@[p]@[step as int]
                })
            } else {
                old(self).steps@[p]@
            },
    {
        if pad < self.steps.len() && step < self.steps[pad].len() {
            let mut row = self.steps[pad].clone();
            let s = row[step];
            let x: i16 = s.velocity as i16 + delta as i16;
            let v: u8 = if x < 1 { 1 } else if x > 127 { 127 } else { x as u8 };
            row.set(step, DrumStep { velocity: v, ..s });
            self.steps.set(pad, row);
        }
    }

    /// Switches off every step of a pad; nothing happens for a pad past the last.
    pub fn clear_pad(&mut self, pad: usize)
        ensures
            final(self).length == old(self).length,
            final(self).steps@.len() == old(self).steps@.len(),
            forall|p: int| 0 <= p < old(self).steps@.len() ==> #[trigger] final(self).steps@[p]@.len() == old(self).steps@[p]@.len(),
            forall|p: int, i: int| 0 <= p < old(self).steps@.len() && 0 <= i < old(self).steps@[p]@.len() ==>
                #[trigger] final(self).steps@[p]@[i] == if p == pad {
                    DrumStep { active: false, ..old(self).steps@[p]@[i] }
                } else {
                    old(self).steps@[p]@[i]
                },
    {
        if pad < self.steps.len() {
            let mut row = self.steps[pad].clone();
            let n = row.len();
            let mut i: usize = 0;
            while i < n
                invariant
                    pad < old(self).steps@.len(),
                    n == old(self).steps@[pad as int]@.len(),
                    row@.len() == n,
                    i <= n,
                    forall|k: int| 0 <= k < n ==> #[trigger] row@[k] == if k < i {
                        DrumStep { active: false, ..old(self).steps@[pad as int]@[k] }
                    } else {
                        old(self).steps@[pad as int]@[k]
                    },
                    self.steps@ == old(self).steps@,
                    self.length == old(self).length,
                decreases n - i,
            {
                let s = row[i];
                row.set(i, DrumStep { active: false, ..s });
                i = i + 1;
            }
            self.steps.set(pad, row);
        }
    }

    /// Moves to the next length of the cycle: each pad's row keeps its first steps
    /// (as many as fit) and is filled up with `blank`.
    pub fn cycle_length(&mut self, blank: DrumStep)
        ensures
            final(self).length == spec_next_length(old(self).length),
            final(self).steps@.len() == old(self).steps@.len(),
            forall|p: int| 0 <= p < old(self).steps@.len() ==> #[trigger] final(self).steps@[p]@ == resized_row(
                old(self).steps@[p]@,
                spec_next_length(old(self).length) as int,
                blank,
            ),
    {
        let new_len = next_length(self.length);
        let mut rows: Vec<Vec<DrumStep>> = Vec::new();
        let mut p: usize = 0;
        while p < self.steps.len()
            invariant
                p <= self.steps@.len(),
                new_len == spec_next_length(self.length),
                rows@.len() == p,
                forall|q: int| 0 <= q < p ==> #[trigger] rows@[q]@ == resized_row(self.steps@[q]@, new_len as int, blank),
            decreases self.steps@.len() - p,
        {
            let old_row = &self.steps[p];
            let mut row: Vec<DrumStep> = Vec::new();
            let mut i: usize = 0;
            while i < new_len
                invariant
                    i <= new_len,
                    row@.len() == i,
                    forall|k: int| 0 <= k < i ==> #[trigger] row@[k] == if k < old_row@.len() { old_row@[k] } else { blank },
                decreases new_len - i,
            {
                if i < old_row.len() {
                    row.push(old_row[i]);
                } else {
                    row.push(blank);
                }
                i = i + 1;
            }
            assert(row@ =~= resized_row(old_row@, new_len as int, blank));
            rows.push(row);
            p = p + 1;
        }
        self.length = new_len;
        self.steps = rows;
    }

    /// Replaces every step with `blank`, keeping the length and the pads.
    pub fn clear(&mut self, blank: DrumStep)
        ensures
            final(self).length == old(self).length,
            final(self).steps@.len() == old(self).steps@.len(),
            forall|p: int| 0 <= p < old(self).steps@.len() ==> #[trigger] final(self).steps@[p]@ == Seq::new(
                old(self).length as nat,
                |i: int| blank,
            ),
    {
        let mut rows: Vec<Vec<DrumStep>> = Vec::new();
        let mut p: usize = 0;
        while p < self.steps.len()
            invariant
                p <= self.steps@.len(),
                rows@.len() == p,
                forall|q: int| 0 <= q < p ==> #[trigger] rows@[q]@ == Seq::new(self.length as nat, |i: int| blank),
            decreases self.steps@.len() - p,
        {
            let mut row: Vec<DrumStep> = Vec::new();
            let mut i: usize = 0;
            while i < self.length
                invariant
                    i <= self.length,
                    row@.len() == i,
                    forall|k: int| 0 <= k < i ==> #[trigger] row@[k] == blank,
                decreases self.length - i,
            {
                row.push(blank);
                i = i + 1;
            }
            assert(row@ =~= Seq::new(self.length as nat, |i: int| blank));
            rows.push(row);
            p = p + 1;
        }
        self.steps = rows;
    }
}

/// A drum sequencer's patterns and the one being edited.
pub struct DrumSequencer {
    pub patterns: Vec<DrumPattern>,
    pub current_pattern: usize,
}

impl DrumSequencer {
    /// The pattern being edited is one of the patterns.
    pub open spec fn wf(self) -> bool {
        self.current_pattern < self.patterns@.len()
    }

    /// Edits the next pattern, after the last the first.
    pub fn select_next_pattern(&mut self)
        requires
            old(self).wf(),
        ensures
            final(self).wf(),
            final(self).current_pattern == spec_next_pattern(old(self).current_pattern, old(self).patterns@.len() as usize),
            final(self).patterns@ == old(self).patterns@,
    {
        self.current_pattern = next_pattern(self.current_pattern, self.patterns.len());
    }

    /// Edits the previous pattern, before the first the last.
    pub fn select_prev_pattern(&mut self)
        requires
            old(self).wf(),
        ensures
            final(self).wf(),
            final(self).current_pattern == spec_prev_pattern(old(self).current_pattern, old(self).patterns@.len() as usize),
            final(self).patterns@ == old(self).patterns@,
    {
        self.current_pattern = prev_pattern(self.current_pattern, self.patterns.len());
    }

    /// Moves the pattern being edited to the next length of the cycle, each pad's
    /// row keeping its first steps and filled up with `blank`; the other patterns
    /// stay as they are.
    pub fn cycle_pattern_length(&mut self, blank: DrumStep)
        requires
            old(self).wf(),
        ensures
            final(self).wf(),
            final(self).current_pattern == old(self).current_pattern,
            final(self).patterns@.len() == old(self).patterns@.len(),
            forall|i: int|
                0 <= i < old(self).patterns@.len() && i != old(self).current_pattern ==> #[trigger] final(self).patterns@[i]
                    == old(self).patterns@[i],
            ({
                let c = old(self).current_pattern as int;
                let before = old(self).patterns@[c];
                let after = final(self).patterns@[c];
                &&& after.length == spec_next_length(before.length)
                &&& after.steps@.len() == before.steps@.len()
                &&& forall|p: int| 0 <= p < before.steps@.len() ==> #[trigger] after.steps@[p]@ == resized_row(
                    before.steps@[p]@,
                    spec_next_length(before.length) as int,
                    blank,
                )
            }),
    {
        let c = self.current_pattern;
        let mut pattern = self.patterns.remove(c);
        pattern.cycle_length(blank);
        self.patterns.insert(c, pattern);
    }
}

/// Four presses of the length key come back to the length one started from, for
/// each length of the cycle.
pub proof fn lemma_length_cycle(len: usize)
    requires
        len == 8 || len == 16 || len == 32 || len == 64,
    ensures
        spec_next_length(spec_next_length(spec_next_length(spec_next_length(len)))) == len,
{
}

/// Toggling the same step twice gives back the pattern.
pub proof fn lemma_toggle_twice(row: Seq<DrumStep>, step: int)
    requires
        0 <= step < row.len(),
    ensures
        ({
            let once = row.update(step, DrumStep { active: !row[step].active, ..row[step] });
            once.update(step, DrumStep { active: !once[step].active, ..once[step] }) =~= row
        }),
{
}

} // verus!
