//! The slices of a chopped sample: cutting a slice in two at the cursor and
//! removing the selected slice so that its neighbour covers the gap. A slice's
//! bounds are positions in the sample of any type `P`; the library only moves
//! them, never computes with them.

use vstd::prelude::*;

verus! {

/// A slice of the sample, from `start` to `end`.
#[derive(Debug, Clone, Copy, PartialEq, Eq)]
pub struct Slice<P> {
    pub id: u32,
    pub start: P,
    pub end: P,
}

/// The slices of the sample in order, the selected one, and the id the next new
/// slice gets.
#[derive(Debug, Clone)]
pub struct SliceList<P> {
    pub slices: Vec<Slice<P>>,
    pub selected: usize,
    pub next_slice_id: u32,
}

impl<P: Copy> SliceList<P> {
    /// Cuts slice `idx` (the one that holds `cursor`) at `cursor`: it now ends at
    /// the cursor, and a new slice with the next id runs from the cursor to where
    /// it ended, right after it, and becomes the selected one.
    pub fn split_at(&mut self, idx: usize, cursor: P)
        requires
            idx < old(self).slices@.len(),
            old(self).next_slice_id < u32::MAX,
        ensures
            ({
                let o = old(self).slices@;
                let cut = o[idx as int];
                &&& final(self).slices@ == o.update(idx as int, Slice { end: cursor, ..cut }).insert(
                    idx + 1,
                    Slice { id: old(self).next_slice_id, start: cursor, end: cut.end },
                )
                &&& final(self).selected == idx + 1
                &&& final(self).next_slice_id == old(self).next_slice_id + 1
            }),
    {
        let n = self.slices.len();
        assert(idx + 1 <= n);
        let cut = self.slices[idx];
        self.slices.set(idx, Slice { end: cursor, ..cut });
        let id = self.next_slice_id;
        self.next_slice_id = id + 1;
        self.slices.insert(idx + 1, Slice { id, start: cursor, end: cut.end });
        self.selected = idx + 1;
    }

    /// Adds a slice at `cursor`: `holding` is the first slice whose range holds
    /// the cursor (found by comparing positions), which is cut there as
    /// `split_at` does; with no such slice nothing changes.
    pub fn add_slice(&mut self, holding: Option<usize>, cursor: P)
        requires
            holding matches Some(i) ==> i < old(self).slices@.len() && old(self).next_slice_id < u32::MAX,
        ensures
            holding is None ==> *final(self) == *old(self),
            holding matches Some(idx) ==> ({
                let o = old(self).slices@;
                let cut = o[idx as int];
                &&& final(self).slices@ == o.update(idx as int, Slice { end: cursor, ..cut }).insert(
                    idx + 1,
                    Slice { id: old(self).next_slice_id, start: cursor, end: cut.end },
                )
                &&& final(self).selected == idx + 1
                &&& final(self).next_slice_id == old(self).next_slice_id + 1
            }),
    {
        match holding {
            Some(idx) => self.split_at(idx, cursor),
            None => {},
        }
    }

    /// Removes the selected slice when there is more than one: the slice before
    /// it then ends where the removed one ended and is selected, or, when the
    /// first slice was removed, the new first slice starts where it started.
    pub fn remove_selected(&mut self)
        requires
            old(self).slices@.len() > 1 ==> old(self).selected < old(self).slices@.len(),
        ensures
            final(self).next_slice_id == old(self).next_slice_id,
            old(self).slices@.len() <= 1 ==> *final(self) == *old(self),
            old(self).slices@.len() > 1 ==> ({
                let i = old(self).selected as int;
                let gone = old(self).slices@[i];
                let rest = old(self).slices@.remove(i);
                if i > 0 {
                    &&& final(self).slices@ == rest.update(i - 1, Slice { end: gone.end, ..rest[i - 1] })
                    &&& final(self).selected == i - 1
                } else {
                    &&& final(self).slices@ == rest.update(0, Slice { start: gone.start, ..rest[0] })
                    &&& final(self).selected == 0
                }
            }),
    {
        if self.slices.len() <= 1 {
            return;
        }
        let i = self.selected;
        let gone = self.slices.remove(i);
        if i > 0 {
            let prev = self.slices[i - 1];
            self.slices.set(i - 1, Slice { end: gone.end, ..prev });
            self.selected = i - 1;
        } else {
            let first = self.slices[0];
            self.slices.set(0, Slice { start: gone.start, ..first });
            self.selected = 0;
        }
    }
}

/// Cutting a slice and then removing the new piece gives back the slices as
/// they were, with the cut slice selected (only the id counter moves on).
pub proof fn lemma_split_then_remove<P>(slices: Seq<Slice<P>>, idx: int, cursor: P, id: u32)
    requires
        0 <= idx < slices.len(),
    ensures
        ({
            let cut = slices[idx];
            let split = slices.update(idx, Slice { end: cursor, ..cut }).insert(
                idx + 1,
                Slice { id, start: cursor, end: cut.end },
            );
            let gone = split[idx + 1];
            let rest = split.remove(idx + 1);
            rest.update(idx, Slice { end: gone.end, ..rest[idx] }) == slices
        }),
{
    let cut = slices[idx];
    let split = slices.update(idx, Slice { end: cursor, ..cut }).insert(
        idx + 1,
        Slice { id, start: cursor, end: cut.end },
    );
    let rest = split.remove(idx + 1);
    assert(rest =~= slices.update(idx, Slice { end: cursor, ..cut }));
    assert(rest.update(idx, Slice { end: cut.end, ..rest[idx] }) =~= slices);
}

} // verus!
