//! Voice bookkeeping of the audio engine: which notes sound on which module, the
//! per-module voice limit with oldest-voice stealing, and the bus assignments and
//! chain templates that voices are spawned from.

use vstd::prelude::*;
use std::collections::HashMap;

verus! {

/// Why the engine could not act on a voice.
#[derive(Debug, Clone, Copy, PartialEq, Eq, Structural)]
pub enum VoiceError {
    /// The engine is not connected to the server.
    NotConnected,
    /// The MIDI module has no chain template to spawn a voice from.
    NoTemplate(u32),
}

/// At most this many voices sound at once on one module.
pub const MAX_VOICES_PER_MODULE: usize = 16;

/// Bus assignments of one module.
#[derive(Debug, Clone, Default)]
pub struct BusAssignment {
    /// Audio output bus (for modules with audio output).
    pub audio_out: Option<i32>,
    /// Audio input bus (for modules reading audio).
    pub audio_in: Option<i32>,
    /// Control and gate input buses by port name.
    pub control_ins: HashMap<String, i32>,
    /// Control and gate output buses by port name.
    pub control_outs: HashMap<String, i32>,
}

/// A single mono voice: one node on the module's shared control buses.
#[derive(Debug, Clone, Copy, PartialEq, Eq, Structural)]
pub struct VoiceEntry {
    pub module_id: u32,
    pub pitch: u8,
    pub node_id: i32,
}

/// The signal chain downstream of a MIDI module, spawned once per note; `M` is
/// the kind of each module.
#[derive(Debug, Clone)]
pub struct ChainTemplate<M> {
    /// The modules after the MIDI module, in signal order, without the output.
    pub modules: Vec<(u32, M)>,
    /// The audio bus the output module reads, where the voices sum.
    pub output_audio_bus: i32,
}

/// A polyphonic voice: a whole signal chain spawned for one note, in its group.
#[derive(Debug, Clone, Copy, PartialEq, Eq, Structural)]
pub struct VoiceChain {
    pub midi_module_id: u32,
    pub pitch: u8,
    pub group_id: i32,
    pub midi_node_id: i32,
}

/// A sounding voice of some module, at some pitch.
pub trait Voice: Sized {
    spec fn module_of(&self) -> u32;

    spec fn pitch_of(&self) -> u8;

    fn module(&self) -> (r: u32)
        ensures
            r == self.module_of(),
    ;

    fn pitch(&self) -> (r: u8)
        ensures
            r == self.pitch_of(),
    ;
}

impl Voice for VoiceEntry {
    open spec fn module_of(&self) -> u32 {
        self.module_id
    }

    open spec fn pitch_of(&self) -> u8 {
        self.pitch
    }

    fn module(&self) -> (r: u32) {
        self.module_id
    }

    fn pitch(&self) -> (r: u8) {
        self.pitch
    }
}

impl Voice for VoiceChain {
    open spec fn module_of(&self) -> u32 {
        self.midi_module_id
    }

    open spec fn pitch_of(&self) -> u8 {
        self.pitch
    }

    fn module(&self) -> (r: u32) {
        self.midi_module_id
    }

    fn pitch(&self) -> (r: u8) {
        self.pitch
    }
}

/// How many of the voices belong to module `m`.
pub open spec fn voices_of<T: Voice>(s: Seq<T>, m: u32) -> nat
    decreases s.len(),
{
    if s.len() == 0 {
        0
    } else {
        voices_of(s.drop_last(), m) + if s.last().module_of() == m { 1nat } else { 0nat }
    }
}

/// The position of the oldest voice of module `m` (the first in the list), or -1.
pub open spec fn oldest_of<T: Voice>(s: Seq<T>, m: u32) -> int {
    if exists|i: int| 0 <= i < s.len() && s[i].module_of() == m {
        choose|i: int| 0 <= i < s.len() && s[i].module_of() == m && forall|j: int| 0 <= j < i ==> s[j].module_of() != m
    } else {
        -1
    }
}

/// The position of the first voice of module `m` at `pitch`, or -1.
pub open spec fn voice_at<T: Voice>(s: Seq<T>, m: u32, pitch: u8) -> int {
    if exists|i: int| 0 <= i < s.len() && s[i].module_of() == m && s[i].pitch_of() == pitch {
        choose|i: int|
            0 <= i < s.len() && s[i].module_of() == m && s[i].pitch_of() == pitch && forall|j: int|
                0 <= j < i ==> !(s[j].module_of() == m && s[j].pitch_of() == pitch)
    } else {
        -1
    }
}

proof fn lemma_minimal_match<T: Voice>(s: Seq<T>, m: u32, pitch: Option<u8>, k: int)
    requires
        0 <= k < s.len(),
        s[k].module_of() == m,
        match pitch { Some(p) => s[k].pitch_of() == p, None => true },
    ensures
        exists|i: int|
            0 <= i <= k && s[i].module_of() == m && (match pitch { Some(p) => s[i].pitch_of() == p, None => true })
                && forall|j: int| 0 <= j < i ==> !(s[j].module_of() == m && match pitch {
                    Some(p) => s[j].pitch_of() == p,
                    None => true,
                }),
    decreases k,
{
    if exists|j: int| 0 <= j < k && s[j].module_of() == m && match pitch { Some(p) => s[j].pitch_of() == p, None => true } {
        let j = choose|j: int| 0 <= j < k && s[j].module_of() == m && match pitch { Some(p) => s[j].pitch_of() == p, None => true };
        lemma_minimal_match(s, m, pitch, j);
    } else {
        assert(forall|j: int| 0 <= j < k ==> !(s[j].module_of() == m && match pitch {
            Some(p) => s[j].pitch_of() == p,
            None => true,
        }));
    }
}

/// The oldest voice of a module that has voices is one of its voices, with none of
/// its voices before it.
proof fn lemma_oldest_of<T: Voice>(s: Seq<T>, m: u32, k: int)
    requires
        0 <= k < s.len(),
        s[k].module_of() == m,
    ensures
        0 <= oldest_of(s, m) <= k,
        s[oldest_of(s, m)].module_of() == m,
        forall|j: int| 0 <= j < oldest_of(s, m) ==> s[j].module_of() != m,
{
    lemma_minimal_match(s, m, None, k);
}

/// The first voice of a module at a pitch, when there is one, is such a voice, with
/// none before it.
proof fn lemma_voice_at<T: Voice>(s: Seq<T>, m: u32, p: u8, k: int)
    requires
        0 <= k < s.len(),
        s[k].module_of() == m,
        s[k].pitch_of() == p,
    ensures
        0 <= voice_at(s, m, p) <= k,
        s[voice_at(s, m, p)].module_of() == m,
        s[voice_at(s, m, p)].pitch_of() == p,
        forall|j: int| 0 <= j < voice_at(s, m, p) ==> !(s[j].module_of() == m && s[j].pitch_of() == p),
{
    lemma_minimal_match(s, m, Some(p), k);
}

proof fn lemma_voices_of_push<T: Voice>(s: Seq<T>, x: T, m: u32)
    ensures
        voices_of(s.push(x), m) == voices_of(s, m) + if x.module_of() == m { 1nat } else { 0nat },
{
    assert(s.push(x).drop_last() =~= s);
}

proof fn lemma_voices_of_remove<T: Voice>(s: Seq<T>, i: int, m: u32)
    requires
        0 <= i < s.len(),
    ensures
        voices_of(s, m) == voices_of(s.remove(i), m) + if s[i].module_of() == m { 1nat } else { 0nat },
    decreases s.len(),
{
    if i == s.len() - 1 {
        assert(s.remove(i) =~= s.drop_last());
    } else {
        lemma_voices_of_remove(s.drop_last(), i, m);
        assert(s.remove(i).drop_last() =~= s.drop_last().remove(i));
        assert(s.remove(i).last() == s.last());
    }
}

proof fn lemma_voices_of_bound<T: Voice>(s: Seq<T>, m: u32)
    ensures
        voices_of(s, m) <= s.len(),
        voices_of(s, m) > 0 ==> exists|i: int| 0 <= i < s.len() && s[i].module_of() == m,
    decreases s.len(),
{
    if s.len() > 0 {
        lemma_voices_of_bound(s.drop_last(), m);
        if voices_of(s.drop_last(), m) > 0 {
            let i = choose|i: int| 0 <= i < s.drop_last().len() && s.drop_last()[i].module_of() == m;
            assert(s[i].module_of() == m);
        } else if voices_of(s, m) > 0 {
            assert(s[s.len() - 1].module_of() == m);
        }
    }
}

/// How many of the voices belong to module `m`.
pub fn count_voices<T: Voice>(voices: &Vec<T>, m: u32) -> (r: usize)
    ensures
        r == voices_of(voices@, m),
{
    let mut n: usize = 0;
    let mut i: usize = 0;
    while i < voices.len()
        invariant
            i <= voices@.len(),
            n == voices_of(voices@.subrange(0, i as int), m),
            n <= i,
        decreases voices@.len() - i,
    {
        proof {
            assert(voices@.subrange(0, i + 1).drop_last() =~= voices@.subrange(0, i as int));
        }
        if voices[i].module() == m {
            n = n + 1;
        }
        i = i + 1;
    }
    assert(voices@.subrange(0, voices@.len() as int) =~= voices@);
    n
}

/// Finds the first voice that satisfies `module == m` (and, with `pitch`, sounds
/// that pitch).
#[verifier::spinoff_prover]
#[verifier::rlimit(40)]
fn find_voice<T: Voice>(voices: &Vec<T>, m: u32, pitch: Option<u8>) -> (r: Option<usize>)
    ensures
        match pitch {
            None => match r {
                Some(i) => i == oldest_of(voices@, m) && i < voices@.len(),
                None => oldest_of(voices@, m) == -1,
            },
            Some(p) => match r {
                Some(i) => i == voice_at(voices@, m, p) && i < voices@.len(),
                None => voice_at(voices@, m, p) == -1,
            },
        },
{
    let mut i: usize = 0;
    while i < voices.len()
        invariant
            i <= voices@.len(),
            forall|j: int|
                0 <= j < i ==> !(voices@[j].module_of() == m && match pitch {
                    None => true,
                    Some(p) => voices@[j].pitch_of() == p,
                }),
        decreases voices@.len() - i,
    {
        let hit = voices[i].module() == m && match pitch {
            None => true,
            Some(p) => voices[i].pitch() == p,
        };
        if hit {
            proof {
                match pitch {
                    None => {
                        lemma_oldest_of(voices@, m, i as int);
                    },
                    Some(p) => {
                        lemma_voice_at(voices@, m, p, i as int);
                    },
                }
            }
            return Some(i);
        }
        i = i + 1;
    }
    None
}

/// Removes and returns the first voice of module `m` at `pitch`, if one sounds
/// (releasing a note).
pub fn take_voice<T: Voice>(voices: &mut Vec<T>, m: u32, pitch: u8) -> (r: Option<T>)
    ensures
        ({
            let i = voice_at(old(voices)@, m, pitch);
            if i < 0 {
                r is None && final(voices)@ == old(voices)@
            } else {
                r == Some(old(voices)@[i]) && final(voices)@ == old(voices)@.remove(i)
            }
        }),
{
    match find_voice(voices, m, Some(pitch)) {
        Some(i) => Some(voices.remove(i)),
        None => None,
    }
}

/// Makes room for a new voice of module `m`: when the module already has
/// `MAX_VOICES_PER_MODULE` voices, its oldest voice is removed and returned (to be
/// silenced).
pub fn steal_oldest<T: Voice>(voices: &mut Vec<T>, m: u32) -> (r: Option<T>)
    ensures
        if voices_of(old(voices)@, m) >= MAX_VOICES_PER_MODULE {
            let i = oldest_of(old(voices)@, m);
            &&& 0 <= i < old(voices)@.len()
            &&& r == Some(old(voices)@[i])
            &&& final(voices)@ == old(voices)@.remove(i)
            &&& voices_of(final(voices)@, m) == voices_of(old(voices)@, m) - 1
        } else {
            r is None && final(voices)@ == old(voices)@
        },
{
    let count = count_voices(voices, m);
    if count >= MAX_VOICES_PER_MODULE {
        proof {
            lemma_voices_of_bound(voices@, m);
            let k = choose|i: int| 0 <= i < voices@.len() && voices@[i].module_of() == m;
            lemma_oldest_of(voices@, m, k);
        }
        match find_voice(voices, m, None) {
            Some(i) => {
                proof {
                    lemma_voices_of_remove(voices@, i as int, m);
                }
                Some(voices.remove(i))
            },
            None => None,
        }
    } else {
        None
    }
}

/// Stealing the oldest voice of a module that sounds some voices removes one of
/// its voices.
pub proof fn lemma_count_after_steal<T: Voice>(s: Seq<T>, m: u32)
    requires
        voices_of(s, m) > 0,
    ensures
        0 <= oldest_of(s, m) < s.len(),
        s[oldest_of(s, m)].module_of() == m,
        voices_of(s.remove(oldest_of(s, m)), m) == voices_of(s, m) - 1,
{
    lemma_voices_of_bound(s, m);
    let k = choose|i: int| 0 <= i < s.len() && s[i].module_of() == m;
    lemma_oldest_of(s, m, k);
    lemma_voices_of_remove(s, oldest_of(s, m), m);
}

/// Records a voice that now sounds (a chain whose messages were sent): it joins
/// the end of the list, one more voice of its module.
pub fn record_voice<T: Voice>(voices: &mut Vec<T>, v: T)
    ensures
        final(voices)@ == old(voices)@.push(v),
        voices_of(final(voices)@, v.module_of()) == voices_of(old(voices)@, v.module_of()) + 1,
{
    proof {
        lemma_voices_of_push(voices@, v, v.module_of());
    }
    voices.push(v);
}

/// Adds a voice, first stealing the oldest voice of its module when the module is
/// at the limit; returns the stolen voice.
pub fn admit_voice<T: Voice>(voices: &mut Vec<T>, v: T) -> (r: Option<T>)
    ensures
        ({
            let m = v.module_of();
            if voices_of(old(voices)@, m) >= MAX_VOICES_PER_MODULE {
                let i = oldest_of(old(voices)@, m);
                &&& 0 <= i < old(voices)@.len()
                &&& r == Some(old(voices)@[i])
                &&& final(voices)@ == old(voices)@.remove(i).push(v)
            } else {
                r is None && final(voices)@ == old(voices)@.push(v)
            }
        }),
        voices_of(final(voices)@, v.module_of()) == if voices_of(old(voices)@, v.module_of()) >= MAX_VOICES_PER_MODULE {
            voices_of(old(voices)@, v.module_of())
        } else {
            voices_of(old(voices)@, v.module_of()) + 1
        },
{
    let m = v.module();
    let stolen = steal_oldest(voices, m);
    proof {
        lemma_voices_of_push(voices@, v, m);
    }
    voices.push(v);
    stolen
}

/// A module never sounds more than `MAX_VOICES_PER_MODULE` voices: admitting a voice
/// to a list within the limit keeps it within the limit, for every module.
pub proof fn lemma_admit_keeps_limit<T: Voice>(before: Seq<T>, after: Seq<T>, v: T, m: u32)
    requires
        voices_of(before, v.module_of()) <= MAX_VOICES_PER_MODULE,
        voices_of(before, m) <= MAX_VOICES_PER_MODULE,
        after == if voices_of(before, v.module_of()) >= MAX_VOICES_PER_MODULE {
            before.remove(oldest_of(before, v.module_of())).push(v)
        } else {
            before.push(v)
        },
    ensures
        voices_of(after, m) <= MAX_VOICES_PER_MODULE,
{
    let vm = v.module_of();
    if voices_of(before, vm) >= MAX_VOICES_PER_MODULE {
        lemma_voices_of_bound(before, vm);
        let k = choose|i: int| 0 <= i < before.len() && before[i].module_of() == vm;
        lemma_oldest_of(before, vm, k);
        let i = oldest_of(before, vm);
        assert(0 <= i < before.len() && before[i].module_of() == vm);
        lemma_voices_of_remove(before, i, m);
        lemma_voices_of_push(before.remove(i), v, m);
    } else {
        lemma_voices_of_push(before, v, m);
    }
}

/// What releasing a note silenced.
#[derive(Debug, Clone, Copy, PartialEq, Eq, Structural)]
pub enum ReleasedVoice {
    /// A polyphonic chain: its MIDI synth gets gate 0 and its group is freed
    /// after the release time.
    Chain(VoiceChain),
    /// A mono voice: its node gets gate 0.
    Mono(VoiceEntry),
    /// No voice of the module sounded at that pitch.
    Silent,
}

/// Releases the note `pitch` of module `m`: the first polyphonic chain of `m` at
/// `pitch` is removed if there is one, else the first mono voice of `m` at
/// `pitch`, if any. Nothing changes when the engine is not connected.
pub fn release_voice(
    chains: &mut Vec<VoiceChain>,
    mono: &mut Vec<VoiceEntry>,
    connected: bool,
    m: u32,
    pitch: u8,
) -> (r: Result<ReleasedVoice, VoiceError>)
    ensures
        !connected ==> r == Err::<ReleasedVoice, VoiceError>(VoiceError::NotConnected)
            && *final(chains) == *old(chains) && *final(mono) == *old(mono),
        connected ==> ({
            let i = voice_at(old(chains)@, m, pitch);
            let j = voice_at(old(mono)@, m, pitch);
            if i >= 0 {
                &&& r == Ok::<ReleasedVoice, VoiceError>(ReleasedVoice::Chain(old(chains)@[i]))
                &&& final(chains)@ == old(chains)@.remove(i)
                &&& final(mono)@ == old(mono)@
            } else if j >= 0 {
                &&& r == Ok::<ReleasedVoice, VoiceError>(ReleasedVoice::Mono(old(mono)@[j]))
                &&& final(chains)@ == old(chains)@
                &&& final(mono)@ == old(mono)@.remove(j)
            } else {
                &&& r == Ok::<ReleasedVoice, VoiceError>(ReleasedVoice::Silent)
                &&& final(chains)@ == old(chains)@
                &&& final(mono)@ == old(mono)@
            }
        }),
{
    if !connected {
        return Err(VoiceError::NotConnected);
    }
    match take_voice(chains, m, pitch) {
        Some(c) => Ok(ReleasedVoice::Chain(c)),
        None => match take_voice(mono, m, pitch) {
            Some(v) => Ok(ReleasedVoice::Mono(v)),
            None => Ok(ReleasedVoice::Silent),
        },
    }
}

} // verus!
