//! Playback of the piano roll: which notes start in the ticks the playhead just
//! crossed, how the sounding notes count down to their note-offs, and the
//! transport switches (play/stop, record, loop, time signature).

use vstd::prelude::*;
use crate::piano_roll::Note;

verus! {

/// The notes of one track, in the order the track keeps them.
#[derive(Debug, Clone)]
pub struct TrackNotes {
    /// The module (instrument) the track plays.
    pub module_id: u32,
    pub polyphonic: bool,
    pub notes: Vec<Note>,
}

/// A note to start: on which module, what, and at which tick.
#[derive(Debug, Clone, Copy, PartialEq, Eq)]
pub struct NoteOn {
    pub module_id: u32,
    pub pitch: u8,
    pub velocity: u8,
    pub duration: u32,
    pub tick: u32,
    pub polyphonic: bool,
}

/// A sounding note and the ticks it has left.
#[derive(Debug, Clone, Copy, PartialEq, Eq)]
pub struct ActiveNote {
    pub module_id: u32,
    pub pitch: u8,
    pub remaining: u32,
}

/// The ticks to scan after the playhead moved from `old` to `new`: the ticks in
/// between, or, when it wrapped around the loop, from the loop start to `new`.
pub open spec fn spec_scan_window(old: u32, new: u32, loop_start: u32) -> (u32, u32) {
    if new >= old { (old, new) } else { (loop_start, new) }
}

/// The ticks to scan after the playhead moved from `old` to `new`.
pub fn scan_window(old: u32, new: u32, loop_start: u32) -> (r: (u32, u32))
    ensures
        r == spec_scan_window(old, new, loop_start),
{
    if new >= old { (old, new) } else { (loop_start, new) }
}

/// The note-ons of a track's notes whose tick lies in `[start, end)`, in order.
pub open spec fn track_note_ons(t: TrackNotes, notes: Seq<Note>, start: u32, end: u32) -> Seq<NoteOn>
    decreases notes.len(),
{
    if notes.len() == 0 {
        Seq::empty()
    } else {
        let rest = track_note_ons(t, notes.drop_last(), start, end);
        let n = notes.last();
        if start <= n.tick && n.tick < end {
            rest.push(NoteOn {
                module_id: t.module_id,
                pitch: n.pitch,
                velocity: n.velocity,
                duration: n.duration,
                tick: n.tick,
                polyphonic: t.polyphonic,
            })
        } else {
            rest
        }
    }
}

/// The note-ons of all tracks (in track order, each track's notes in order) whose
/// tick lies in `[start, end)`.
pub open spec fn note_ons(tracks: Seq<TrackNotes>, start: u32, end: u32) -> Seq<NoteOn>
    decreases tracks.len(),
{
    if tracks.len() == 0 {
        Seq::empty()
    } else {
        note_ons(tracks.drop_last(), start, end) + track_note_ons(
            tracks.last(),
            tracks.last().notes@,
            start,
            end,
        )
    }
}

/// Collects the notes that start in `[start, end)`.
pub fn collect_note_ons(tracks: &Vec<TrackNotes>, start: u32, end: u32) -> (r: Vec<NoteOn>)
    ensures
        r@ == note_ons(tracks@, start, end),
{
    let mut out: Vec<NoteOn> = Vec::new();
    let mut i: usize = 0;
    while i < tracks.len()
        invariant
            i <= tracks@.len(),
            out@ == note_ons(tracks@.subrange(0, i as int), start, end),
        decreases tracks@.len() - i,
    {
        let t = &tracks[i];
        let ghost before = out@;
        let mut j: usize = 0;
        while j < t.notes.len()
            invariant
                j <= t.notes@.len(),
                out@ == before + track_note_ons(*t, t.notes@.subrange(0, j as int), start, end),
            decreases t.notes@.len() - j,
        {
            let n = &t.notes[j];
            proof {
                assert(t.notes@.subrange(0, j + 1).drop_last() =~= t.notes@.subrange(0, j as int));
            }
            if start <= n.tick && n.tick < end {
                out.push(NoteOn {
                    module_id: t.module_id,
                    pitch: n.pitch,
                    velocity: n.velocity,
                    duration: n.duration,
                    tick: n.tick,
                    polyphonic: t.polyphonic,
                });
                proof {
                    assert(out@ =~= before + track_note_ons(*t, t.notes@.subrange(0, j + 1), start, end));
                }
            }
            j = j + 1;
        }
        proof {
            assert(t.notes@.subrange(0, j as int) =~= t.notes@);
            assert(tracks@.subrange(0, i + 1).drop_last() =~= tracks@.subrange(0, i as int));
        }
        i = i + 1;
    }
    assert(tracks@.subrange(0, tracks@.len() as int) =~= tracks@);
    out
}

/// Ticks from the old playhead until a note starts (0 for a note before it, which
/// happens after the loop wrapped).
pub fn ticks_from_now(note_tick: u32, old_playhead: u32) -> (r: u32)
    ensures
        r == if note_tick >= old_playhead { (note_tick - old_playhead) as u32 } else { 0 },
{
    if note_tick >= old_playhead { note_tick - old_playhead } else { 0 }
}

/// The sounding notes that end within `delta` ticks, with the ticks they had left.
pub open spec fn ending(active: Seq<ActiveNote>, delta: u32) -> Seq<ActiveNote>
    decreases active.len(),
{
    if active.len() == 0 {
        Seq::empty()
    } else if active.last().remaining <= delta {
        ending(active.drop_last(), delta).push(active.last())
    } else {
        ending(active.drop_last(), delta)
    }
}

/// The sounding notes that go on past `delta` ticks, with `delta` fewer ticks left.
pub open spec fn continuing(active: Seq<ActiveNote>, delta: u32) -> Seq<ActiveNote>
    decreases active.len(),
{
    if active.len() == 0 {
        Seq::empty()
    } else if active.last().remaining <= delta {
        continuing(active.drop_last(), delta)
    } else {
        continuing(active.drop_last(), delta).push(
            ActiveNote { remaining: (active.last().remaining - delta) as u32, ..active.last() },
        )
    }
}

/// Advances the sounding notes by `delta` ticks: the notes that end are removed
/// and returned (for their note-offs, with the ticks they had left), the others
/// keep sounding with `delta` fewer ticks, in order.
pub fn advance_active_notes(active: &mut Vec<ActiveNote>, delta: u32) -> (offs: Vec<ActiveNote>)
    ensures
        offs@ == ending(old(active)@, delta),
        final(active)@ == continuing(old(active)@, delta),
{
    let mut offs: Vec<ActiveNote> = Vec::new();
    let mut kept: Vec<ActiveNote> = Vec::new();
    let mut i: usize = 0;
    while i < active.len()
        invariant
            i <= active@.len(),
            offs@ == ending(active@.subrange(0, i as int), delta),
            kept@ == continuing(active@.subrange(0, i as int), delta),
        decreases active@.len() - i,
    {
        let n = active[i];
        proof {
            assert(active@.subrange(0, i + 1).drop_last() =~= active@.subrange(0, i as int));
        }
        if n.remaining <= delta {
            offs.push(n);
        } else {
            kept.push(ActiveNote { remaining: n.remaining - delta, ..n });
        }
        i = i + 1;
    }
    proof {
        assert(active@.subrange(0, active@.len() as int) =~= active@);
    }
    *active = kept;
    offs
}

/// Every note is accounted for by an advance: it either ends or goes on, and
/// every note that goes on still has ticks left.
pub proof fn lemma_advance_partitions(active: Seq<ActiveNote>, delta: u32)
    ensures
        ending(active, delta).len() + continuing(active, delta).len() == active.len(),
        forall|i: int| 0 <= i < continuing(active, delta).len() ==> #[trigger] continuing(active, delta)[i].remaining > 0,
    decreases active.len(),
{
    if active.len() > 0 {
        lemma_advance_partitions(active.drop_last(), delta);
        let c = continuing(active.drop_last(), delta);
        assert forall|i: int| 0 <= i < continuing(active, delta).len() implies #[trigger] continuing(active, delta)[i].remaining > 0 by {
            if i < c.len() {
                assert(continuing(active, delta)[i] == c[i]);
            }
        }
    }
}

/// The sounding notes that the note-ons start, each with its whole duration left.
pub open spec fn started(ons: Seq<NoteOn>) -> Seq<ActiveNote> {
    ons.map_values(|n: NoteOn| ActiveNote { module_id: n.module_id, pitch: n.pitch, remaining: n.duration })
}

/// The voices one playback tick starts and releases.
pub struct TickEvents {
    /// The notes to start, in track order.
    pub note_ons: Vec<NoteOn>,
    /// The notes to release, with the ticks they had left before their note-off.
    pub note_offs: Vec<ActiveNote>,
}

/// One tick of playback after the playhead moved by `delta` ticks from
/// `old_playhead` to `new_playhead` (wrapping to `loop_start`): with a running
/// engine the notes of `tracks` that start in the scanned window are started and
/// join the sounding notes with their whole duration; then every sounding note
/// counts down by `delta`, and those that end are removed (and released when the
/// engine runs). A tick of no ticks changes nothing.
pub fn tick_playback(
    tracks: &Vec<TrackNotes>,
    active: &mut Vec<ActiveNote>,
    old_playhead: u32,
    new_playhead: u32,
    loop_start: u32,
    delta: u32,
    running: bool,
) -> (r: TickEvents)
    ensures
        delta == 0 ==> r.note_ons@.len() == 0 && r.note_offs@.len() == 0 && *final(active) == *old(active),
        delta > 0 ==> ({
            let w = spec_scan_window(old_playhead, new_playhead, loop_start);
            let ons = if running { note_ons(tracks@, w.0, w.1) } else { Seq::empty() };
            let sounding = old(active)@ + started(ons);
            &&& r.note_ons@ == ons
            &&& r.note_offs@ == if running { ending(sounding, delta) } else { Seq::empty() }
            &&& final(active)@ == continuing(sounding, delta)
        }),
{
    if delta == 0 {
        return TickEvents { note_ons: Vec::new(), note_offs: Vec::new() };
    }
    let ghost before = active@;
    let ons = if running {
        let (start, end) = scan_window(old_playhead, new_playhead, loop_start);
        collect_note_ons(tracks, start, end)
    } else {
        Vec::new()
    };
    let mut i: usize = 0;
    while i < ons.len()
        invariant
            i <= ons@.len(),
            active@ == before + started(ons@.take(i as int)),
        decreases ons@.len() - i,
    {
        let n = ons[i];
        active.push(ActiveNote { module_id: n.module_id, pitch: n.pitch, remaining: n.duration });
        i = i + 1;
        assert(started(ons@.take(i as int)) =~= started(ons@.take(i - 1)).push(
            ActiveNote { module_id: n.module_id, pitch: n.pitch, remaining: n.duration },
        ));
        assert(active@ =~= before + started(ons@.take(i as int)));
    }
    assert(ons@.take(ons@.len() as int) =~= ons@);
    let offs = advance_active_notes(active, delta);
    let note_offs = if running { offs } else { Vec::new() };
    TickEvents { note_ons: ons, note_offs }
}

/// The time signature after the time-signature key: 4/4, 3/4, 6/8, 5/4, 7/8 and
/// back to 4/4 (any other signature goes to 4/4).
pub open spec fn spec_next_time_signature(ts: (u8, u8)) -> (u8, u8) {
    if ts == (4u8, 4u8) {
        (3, 4)
    } else if ts == (3u8, 4u8) {
        (6, 8)
    } else if ts == (6u8, 8u8) {
        (5, 4)
    } else if ts == (5u8, 4u8) {
        (7, 8)
    } else {
        (4, 4)
    }
}

/// The time signature after the time-signature key.
pub fn next_time_signature(ts: (u8, u8)) -> (r: (u8, u8))
    ensures
        r == spec_next_time_signature(ts),
{
    let (a, b) = ts;
    if a == 4 && b == 4 {
        (3, 4)
    } else if a == 3 && b == 4 {
        (6, 8)
    } else if a == 6 && b == 8 {
        (5, 4)
    } else if a == 5 && b == 4 {
        (7, 8)
    } else {
        (4, 4)
    }
}

/// Five presses of the time-signature key come back to the signature one started
/// from, for each signature of the cycle.
pub proof fn lemma_time_signature_cycle(ts: (u8, u8))
    requires
        ts == (4u8, 4u8) || ts == (3u8, 4u8) || ts == (6u8, 8u8) || ts == (5u8, 4u8) || ts == (7u8, 8u8),
    ensures
        spec_next_time_signature(spec_next_time_signature(spec_next_time_signature(
            spec_next_time_signature(spec_next_time_signature(ts)),
        ))) == ts,
{
}

/// The transport of the piano roll.
#[derive(Debug, Clone, Copy, PartialEq, Eq)]
pub struct Transport {
    pub playing: bool,
    pub recording: bool,
    pub looping: bool,
    pub playhead: u32,
    pub loop_start: u32,
    pub loop_end: u32,
    pub time_signature: (u8, u8),
}

impl Transport {
    /// Play/stop: starts playing, or stops, rewinds and ends recording. Returns
    /// whether the sounding notes must be silenced (on stopping).
    pub fn play_stop(&mut self) -> (silence: bool)
        ensures
            final(self).playing == !old(self).playing,
            !final(self).recording,
            final(self).playhead == if old(self).playing { 0 } else { old(self).playhead },
            silence == old(self).playing,
            final(self).looping == old(self).looping,
            final(self).loop_start == old(self).loop_start,
            final(self).loop_end == old(self).loop_end,
            final(self).time_signature == old(self).time_signature,
    {
        self.playing = !self.playing;
        self.recording = false;
        if !self.playing {
            self.playhead = 0;
            true
        } else {
            false
        }
    }

    /// Play/stop with recording: starts playing and recording, or stops both and
    /// rewinds. Returns whether the sounding notes must be silenced.
    pub fn play_stop_record(&mut self) -> (silence: bool)
        ensures
            final(self).playing == !old(self).playing,
            final(self).recording == !old(self).playing,
            final(self).playhead == if old(self).playing { 0 } else { old(self).playhead },
            silence == old(self).playing,
            final(self).looping == old(self).looping,
            final(self).loop_start == old(self).loop_start,
            final(self).loop_end == old(self).loop_end,
            final(self).time_signature == old(self).time_signature,
    {
        if !self.playing {
            self.playing = true;
            self.recording = true;
            false
        } else {
            self.playing = false;
            self.playhead = 0;
            self.recording = false;
            true
        }
    }

    /// The playhead after `ticks` more ticks: it moves on (stopping at the last
    /// tick), and while looping a playhead at or past the loop end comes round to
    /// the loop start by as far as it went past.
    pub open spec fn advanced(self, ticks: u32) -> u32 {
        let moved: int = if self.playhead + ticks > u32::MAX { u32::MAX as int } else { self.playhead + ticks };
        if self.looping && self.loop_end > self.loop_start && moved >= self.loop_end {
            (self.loop_start + (moved - self.loop_end) % ((self.loop_end - self.loop_start) as int)) as u32
        } else {
            moved as u32
        }
    }

    /// Moves the playhead on by `ticks`; returns where it was.
    pub fn advance(&mut self, ticks: u32) -> (before: u32)
        ensures
            before == old(self).playhead,
            *final(self) == (Transport { playhead: old(self).advanced(ticks), ..*old(self) }),
            final(self).looping && final(self).loop_end > final(self).loop_start
                && old(self).playhead + ticks >= old(self).loop_end ==> final(self).loop_start
                <= final(self).playhead < final(self).loop_end,
    {
        let before = self.playhead;
        let moved = self.playhead.saturating_add(ticks);
        let (start, end) = (self.loop_start, self.loop_end);
        if self.looping && end > start && moved >= end {
            self.playhead = start + (moved - end) % (end - start);
        } else {
            self.playhead = moved;
        }
        before
    }

    /// Switches looping on or off.
    pub fn toggle_loop(&mut self)
        ensures
            *final(self) == (Transport { looping: !old(self).looping, ..*old(self) }),
    {
        self.looping = !self.looping;
    }

    /// Moves to the next time signature of the cycle.
    pub fn cycle_time_signature(&mut self)
        ensures
            *final(self) == (Transport { time_signature: spec_next_time_signature(old(self).time_signature), ..*old(self) }),
    {
        self.time_signature = next_time_signature(self.time_signature);
    }
}

} // verus!
