//! The order in which a rack's modules are started: every module after the
//! modules that feed it, found by a depth-first walk against the connections.
//! A connection that closes a cycle is skipped rather than refused.

use vstd::prelude::*;
use crate::osc::{GROUP_OUTPUT, GROUP_PROCESSING, GROUP_SOURCES};
use crate::voices::{
    lemma_admit_keeps_limit, lemma_count_after_steal, oldest_of, steal_oldest, voices_of, ChainTemplate, VoiceChain, VoiceError, MAX_VOICES_PER_MODULE,
};

verus! {

/// A signal connection from module `src` to module `dst`.
#[derive(Debug, Clone, Copy, PartialEq, Eq, Structural)]
pub struct Connection {
    pub src: u32,
    pub dst: u32,
}

/// Some connection runs from `a` to `b`.
pub open spec fn linked(conns: Seq<Connection>, a: u32, b: u32) -> bool {
    exists|k: int| 0 <= k < conns.len() && #[trigger] conns[k] == (Connection { src: a, dst: b })
}

/// `p` is a walk along connections (one module alone is a walk).
pub open spec fn is_path(conns: Seq<Connection>, p: Seq<u32>) -> bool {
    &&& p.len() >= 1
    &&& forall|i: int| 0 <= i < p.len() - 1 ==> #[trigger] linked(conns, p[i], p[i + 1])
}

/// A walk along connections leads from `a` to `b`.
pub open spec fn reaches(conns: Seq<Connection>, a: u32, b: u32) -> bool {
    exists|p: Seq<u32>| #[trigger] is_path(conns, p) && p[0] == a && p.last() == b
}

/// No connection closes a cycle.
pub open spec fn acyclic(conns: Seq<Connection>) -> bool {
    forall|k: int| 0 <= k < conns.len() ==> !reaches(conns, #[trigger] conns[k].dst, conns[k].src)
}

/// The modules that can appear: those in `order` and the sources of connections.
pub open spec fn universe(order: Seq<u32>, conns: Seq<Connection>) -> Set<u32> {
    (order + conns.map_values(|c: Connection| c.src)).to_set()
}

/// Each module of `s` is fed by the one after it.
pub open spec fn chain(conns: Seq<Connection>, s: Seq<u32>) -> bool {
    forall|i: int| 0 <= i < s.len() - 1 ==> #[trigger] linked(conns, s[i + 1], s[i])
}

/// In `r`, every connection's source comes before its destination, unless the
/// connection closes a cycle.
pub open spec fn sorted_except_cycles(conns: Seq<Connection>, r: Seq<u32>) -> bool {
    forall|k: int, i: int, j: int|
        #![trigger r[i], r[j], conns[k]]
        0 <= k < conns.len() && 0 <= i < r.len() && 0 <= j < r.len() && r[i] == conns[k].src
            && r[j] == conns[k].dst ==> i < j || reaches(conns, conns[k].dst, conns[k].src)
}

/// What holds between steps of the walk: `r` holds the finished modules in
/// order, `t` the modules being walked, outermost first.
pub open spec fn walk_inv(order: Seq<u32>, conns: Seq<Connection>, r: Seq<u32>, t: Seq<u32>) -> bool {
    &&& r.no_duplicates()
    &&& t.no_duplicates()
    &&& forall|x: u32| r.contains(x) ==> !t.contains(x)
    &&& forall|i: int| 0 <= i < r.len() ==> universe(order, conns).contains(#[trigger] r[i])
    &&& forall|i: int| 0 <= i < t.len() ==> universe(order, conns).contains(#[trigger] t[i])
    &&& chain(conns, t)
    &&& forall|k: int|
        0 <= k < conns.len() && r.contains(#[trigger] conns[k].dst) ==> r.contains(conns[k].src) || t.contains(
            conns[k].src,
        )
    &&& forall|k: int, j: int|
        #![trigger r[j], conns[k]]
        0 <= k < conns.len() && 0 <= j < r.len() && r[j] == conns[k].dst && t.contains(conns[k].src)
            ==> reaches(conns, conns[k].dst, conns[k].src)
    &&& sorted_except_cycles(conns, r)
}

/// A walk up a chain: the last module of a chain reaches each of its modules.
proof fn lemma_chain_reaches(conns: Seq<Connection>, s: Seq<u32>, i: int)
    requires
        chain(conns, s),
        0 <= i < s.len(),
    ensures
        reaches(conns, s.last(), s[i]),
{
    let p = s.subrange(i, s.len() as int).reverse();
    assert forall|q: int| 0 <= q < p.len() - 1 implies #[trigger] linked(conns, p[q], p[q + 1]) by {
        let j = s.len() - 2 - q;
        assert(p[q] == s[j + 1]);
        assert(p[q + 1] == s[j]);
        assert(linked(conns, s[j + 1], s[j]));
    }
    assert(is_path(conns, p));
    assert(p[0] == s.last());
    assert(p.last() == s[i]);
}

/// A module reaches itself.
proof fn lemma_reaches_self(conns: Seq<Connection>, m: u32)
    ensures
        reaches(conns, m, m),
{
    let p = seq![m];
    assert(is_path(conns, p));
}

/// A duplicate-free walk stack inside the universe is no longer than the universe.
proof fn lemma_stack_fits(order: Seq<u32>, conns: Seq<Connection>, t: Seq<u32>)
    requires
        t.no_duplicates(),
        forall|i: int| 0 <= i < t.len() ==> universe(order, conns).contains(#[trigger] t[i]),
    ensures
        t.len() <= universe(order, conns).len(),
        universe(order, conns).finite(),
{
    let u = universe(order, conns);
    vstd::seq_lib::seq_to_set_is_finite(order + conns.map_values(|c: Connection| c.src));
    t.unique_seq_to_set();
    assert(t.to_set().subset_of(u)) by {
        assert forall|x: u32| t.to_set().contains(x) implies u.contains(x) by {
            let i = choose|i: int| 0 <= i < t.len() && t[i] == x;
            assert(u.contains(t[i]));
        }
    }
    vstd::set_lib::lemma_len_subset(t.to_set(), u);
}

/// Whether `v` holds `x`.
fn holds(v: &Vec<u32>, x: u32) -> (b: bool)
    ensures
        b == v@.contains(x),
{
    let mut i: usize = 0;
    while i < v.len()
        invariant
            i <= v@.len(),
            forall|j: int| 0 <= j < i ==> v@[j] != x,
        decreases v@.len() - i,
    {
        if v[i] == x {
            assert(v@[i as int] == x);
            return true;
        }
        i = i + 1;
    }
    false
}

/// Finishes module `m`: first every module feeding it, then `m` itself, unless
/// it is finished already or being walked (a cycle).
#[verifier::rlimit(60)]
#[verifier::spinoff_prover]
fn visit(m: u32, order: &Vec<u32>, conns: &Vec<Connection>, result: &mut Vec<u32>, stack: &mut Vec<u32>)
    requires
        walk_inv(order@, conns@, old(result)@, old(stack)@),
        universe(order@, conns@).contains(m),
        old(stack)@.len() > 0 ==> linked(conns@, m, old(stack)@.last()),
    ensures
        walk_inv(order@, conns@, final(result)@, final(stack)@),
        final(stack)@ == old(stack)@,
        old(result)@.len() <= final(result)@.len(),
        final(result)@.subrange(0, old(result)@.len() as int) == old(result)@,
        final(result)@.contains(m) || old(stack)@.contains(m),
    decreases universe(order@, conns@).len() - old(stack)@.len(),
{
    if holds(result, m) || holds(stack, m) {
        assert(result@.subrange(0, result@.len() as int) =~= result@);
        return;
    }
    let ghost r0 = result@;
    let ghost t0 = stack@;
    stack.push(m);
    proof {
        assert(stack@ == t0.push(m));
        assert forall|x: u32| result@.contains(x) implies !stack@.contains(x) by {
            assert(!t0.contains(x));
            if stack@.contains(x) {
                let i = choose|i: int| 0 <= i < stack@.len() && stack@[i] == x;
                if i < t0.len() {
                    assert(t0[i] == x);
                }
            }
        }
        assert(stack@.no_duplicates()) by {
            assert forall|i: int, j: int| 0 <= i < j < stack@.len() implies stack@[i] != stack@[j] by {
                if j < t0.len() {
                    assert(t0[i] != t0[j]);
                } else {
                    assert(t0[i] == stack@[i]);
                }
            }
        }
        assert(chain(conns@, stack@)) by {
            assert forall|i: int| 0 <= i < stack@.len() - 1 implies #[trigger] linked(conns@, stack@[i + 1], stack@[i]) by {
                if i + 1 < t0.len() {
                    assert(linked(conns@, t0[i + 1], t0[i]));
                } else {
                    assert(stack@[i + 1] == m);
                    assert(stack@[i] == t0.last());
                }
            }
        }
        assert forall|k: int, j: int|
            #![trigger result@[j], conns@[k]]
            0 <= k < conns@.len() && 0 <= j < result@.len() && result@[j] == conns@[k].dst
                && stack@.contains(conns@[k].src) implies reaches(conns@, conns@[k].dst, conns@[k].src) by {
            if conns@[k].src == m {
                assert(result@.contains(conns@[k].dst));
                assert(!result@.contains(m));
                assert(!t0.contains(m));
            } else {
                let i = choose|i: int| 0 <= i < stack@.len() && stack@[i] == conns@[k].src;
                if i == t0.len() {
                    assert(stack@[i] == m);
                }
                assert(t0[i] == conns@[k].src);
                assert(t0.contains(conns@[k].src));
            }
        }
        assert forall|k: int|
            0 <= k < conns@.len() && result@.contains(#[trigger] conns@[k].dst) implies result@.contains(conns@[k].src)
                || stack@.contains(conns@[k].src) by {
            if t0.contains(conns@[k].src) {
                let i = choose|i: int| 0 <= i < t0.len() && t0[i] == conns@[k].src;
                assert(stack@[i] == conns@[k].src);
            }
        }
        assert(walk_inv(order@, conns@, result@, stack@));
    }
    let mut k: usize = 0;
    while k < conns.len()
        invariant
            k <= conns@.len(),
            walk_inv(order@, conns@, result@, stack@),
            stack@ == t0.push(m),
            old(stack)@ == t0,
            universe(order@, conns@).contains(m),
            r0.len() <= result@.len(),
            result@.subrange(0, r0.len() as int) == r0,
            forall|q: int|
                0 <= q < k && #[trigger] conns@[q].dst == m ==> result@.contains(conns@[q].src) || stack@.contains(
                    conns@[q].src,
                ),
        decreases conns@.len() - k,
    {
        let c = conns[k];
        if c.dst == m {
            proof {
                lemma_stack_fits(order@, conns@, stack@);
                assert(linked(conns@, c.src, m)) by {
                    assert(conns@[k as int] == (Connection { src: c.src, dst: m }));
                }
                assert(universe(order@, conns@).contains(c.src)) by {
                    let srcs = conns@.map_values(|c: Connection| c.src);
                    assert(srcs[k as int] == c.src);
                    assert((order@ + srcs)[order@.len() + k] == c.src);
                }
            }
            let ghost before = result@;
            visit(c.src, order, conns, result, stack);
            proof {
                assert forall|q: int|
                    0 <= q < k + 1 && #[trigger] conns@[q].dst == m implies result@.contains(conns@[q].src)
                        || stack@.contains(conns@[q].src) by {
                    if q < k && before.contains(conns@[q].src) {
                        let i = choose|i: int| 0 <= i < before.len() && before[i] == conns@[q].src;
                        assert(result@.subrange(0, before.len() as int)[i] == before[i]);
                    }
                }
                assert(result@.subrange(0, r0.len() as int) =~= r0) by {
                    assert forall|i: int| 0 <= i < r0.len() implies result@[i] == r0[i] by {
                        assert(before[i] == r0[i]);
                        assert(result@.subrange(0, before.len() as int)[i] == before[i]);
                    }
                }
            }
        }
        k = k + 1;
    }
    let ghost r1 = result@;
    stack.pop();
    assert(stack@ =~= t0);
    result.push(m);
    proof {
        let r = result@;
        let n = r1.len();
        assert(r == r1.push(m));
        assert(!r1.contains(m));
        assert(!t0.contains(m));
        assert(r.no_duplicates()) by {
            assert forall|i: int, j: int| 0 <= i < j < r.len() implies r[i] != r[j] by {
                if j == n {
                    assert(r1.contains(r1[i]));
                } else {
                    assert(r1[i] != r1[j]);
                }
            }
        }
        assert forall|x: u32| r.contains(x) implies !t0.contains(x) by {
            let i = choose|i: int| 0 <= i < r.len() && r[i] == x;
            if i < n {
                assert(r1.contains(r1[i]));
                assert(!t0.push(m).contains(x));
                if t0.contains(x) {
                    let j = choose|j: int| 0 <= j < t0.len() && t0[j] == x;
                    assert(t0.push(m)[j] == x);
                }
            }
        }
        assert forall|i: int| 0 <= i < r.len() implies universe(order@, conns@).contains(#[trigger] r[i]) by {
            if i < n {
                assert(r1[i] == r[i]);
            }
        }
        assert forall|i: int| 0 <= i < t0.len() implies universe(order@, conns@).contains(#[trigger] t0[i]) by {
            assert(t0.push(m)[i] == t0[i]);
        }
        assert(chain(conns@, t0)) by {
            assert forall|i: int| 0 <= i < t0.len() - 1 implies #[trigger] linked(conns@, t0[i + 1], t0[i]) by {
                assert(t0.push(m)[i + 1] == t0[i + 1]);
                assert(t0.push(m)[i] == t0[i]);
            }
        }
        assert forall|q: int|
            0 <= q < conns@.len() && r.contains(#[trigger] conns@[q].dst) implies r.contains(conns@[q].src)
                || t0.contains(conns@[q].src) by {
            let s = conns@[q].src;
            let d = conns@[q].dst;
            let in_old = r1.contains(s) || t0.push(m).contains(s);
            if d == m {
                assert(in_old);
            } else {
                let j = choose|j: int| 0 <= j < r.len() && r[j] == d;
                assert(r1[j] == d);
                assert(r1.contains(d));
                assert(in_old);
            }
            if r1.contains(s) {
                let i = choose|i: int| 0 <= i < r1.len() && r1[i] == s;
                assert(r[i] == s);
            } else if s == m {
                assert(r[n as int] == s);
            } else {
                let i = choose|i: int| 0 <= i < t0.push(m).len() && t0.push(m)[i] == s;
                assert(t0[i] == s);
            }
        }
        assert forall|q: int, j: int|
            #![trigger r[j], conns@[q]]
            0 <= q < conns@.len() && 0 <= j < r.len() && r[j] == conns@[q].dst && t0.contains(
                conns@[q].src,
            ) implies reaches(conns@, conns@[q].dst, conns@[q].src) by {
            let s = conns@[q].src;
            let i = choose|i: int| 0 <= i < t0.len() && t0[i] == s;
            assert(t0.push(m)[i] == s);
            assert(t0.push(m).contains(s));
            if j == n {
                lemma_chain_reaches(conns@, t0.push(m), i);
            } else {
                assert(r1[j] == conns@[q].dst);
            }
        }
        assert forall|q: int, i: int, j: int|
            #![trigger r[i], r[j], conns@[q]]
            0 <= q < conns@.len() && 0 <= i < r.len() && 0 <= j < r.len() && r[i] == conns@[q].src
                && r[j] == conns@[q].dst implies i < j || reaches(conns@, conns@[q].dst, conns@[q].src) by {
            if i == n && j == n {
                lemma_reaches_self(conns@, m);
            } else if i == n {
                assert(r1[j] == conns@[q].dst);
                assert(t0.push(m)[t0.len() as int] == m);
                assert(t0.push(m).contains(conns@[q].src));
            } else if j < n {
                assert(r1[i] == conns@[q].src);
                assert(r1[j] == conns@[q].dst);
            }
        }
        assert(walk_inv(order@, conns@, r, t0));
        assert(r.subrange(0, old(result)@.len() as int) =~= old(result)@) by {
            assert forall|i: int| 0 <= i < r0.len() implies r[i] == r0[i] by {
                assert(r1.subrange(0, r0.len() as int)[i] == r0[i]);
            }
        }
        assert(r[n as int] == m);
    }
}

/// The rack's modules in start order: each module of `order` (and each module
/// feeding one, transitively) once, after the modules that feed it, except
/// across a connection that closes a cycle.
pub fn topological_sort(order: &Vec<u32>, conns: &Vec<Connection>) -> (r: Vec<u32>)
    ensures
        r@.no_duplicates(),
        forall|i: int| 0 <= i < order@.len() ==> r@.contains(#[trigger] order@[i]),
        forall|i: int|
            0 <= i < r@.len() ==> order@.contains(#[trigger] r@[i]) || exists|k: int|
                0 <= k < conns@.len() && #[trigger] conns@[k].src == r@[i],
        forall|k: int| 0 <= k < conns@.len() && r@.contains(#[trigger] conns@[k].dst) ==> r@.contains(conns@[k].src),
        sorted_except_cycles(conns@, r@),
        acyclic(conns@) ==> forall|k: int, i: int, j: int|
            #![trigger r@[i], r@[j], conns@[k]]
            0 <= k < conns@.len() && 0 <= i < r@.len() && 0 <= j < r@.len() && r@[i] == conns@[k].src
                && r@[j] == conns@[k].dst ==> i < j,
{
    let mut result: Vec<u32> = Vec::new();
    let mut stack: Vec<u32> = Vec::new();
    let mut i: usize = 0;
    proof {
        assert(walk_inv(order@, conns@, result@, stack@));
    }
    while i < order.len()
        invariant
            i <= order@.len(),
            walk_inv(order@, conns@, result@, stack@),
            stack@ == Seq::<u32>::empty(),
            forall|q: int| 0 <= q < i ==> result@.contains(#[trigger] order@[q]),
        decreases order@.len() - i,
    {
        let m = order[i];
        proof {
            assert((order@ + conns@.map_values(|c: Connection| c.src))[i as int] == m);
        }
        let ghost before = result@;
        visit(m, order, conns, &mut result, &mut stack);
        proof {
            assert forall|q: int| 0 <= q < i + 1 implies result@.contains(#[trigger] order@[q]) by {
                if q < i {
                    let j = choose|j: int| 0 <= j < before.len() && before[j] == order@[q];
                    assert(result@.subrange(0, before.len() as int)[j] == before[j]);
                }
            }
        }
        i = i + 1;
    }
    proof {
        let srcs = conns@.map_values(|c: Connection| c.src);
        assert forall|j: int| 0 <= j < result@.len() implies order@.contains(#[trigger] result@[j]) || exists|k: int|
            0 <= k < conns@.len() && #[trigger] conns@[k].src == result@[j] by {
            assert(universe(order@, conns@).contains(result@[j]));
            let x = result@[j];
            let p = choose|p: int| 0 <= p < (order@ + srcs).len() && (order@ + srcs)[p] == x;
            if p < order@.len() {
                assert(order@[p] == x);
            } else {
                assert(srcs[p - order@.len()] == x);
                assert(conns@[p - order@.len()].src == x);
            }
        }
    }
    result
}

} // verus!

verus! {

/// The kinds of rack module.
#[derive(Debug, Clone, Copy, PartialEq, Eq, Structural)]
pub enum ModuleType {
    Midi,
    SawOsc,
    SinOsc,
    SqrOsc,
    TriOsc,
    Lpf,
    Hpf,
    Bpf,
    AdsrEnv,
    Lfo,
    Delay,
    Reverb,
    Output,
}

/// The server group a module's synth runs in: sources, then processing, then output.
pub open spec fn spec_group_for_module(t: ModuleType) -> i32 {
    match t {
        ModuleType::Midi | ModuleType::SawOsc | ModuleType::SinOsc | ModuleType::SqrOsc | ModuleType::TriOsc
        | ModuleType::Lfo | ModuleType::AdsrEnv => GROUP_SOURCES,
        ModuleType::Lpf | ModuleType::Hpf | ModuleType::Bpf | ModuleType::Delay | ModuleType::Reverb => GROUP_PROCESSING,
        ModuleType::Output => GROUP_OUTPUT,
    }
}

/// The server group a module's synth runs in.
pub fn group_for_module(t: ModuleType) -> (g: i32)
    ensures
        g == spec_group_for_module(t),
{
    match t {
        ModuleType::Midi | ModuleType::SawOsc | ModuleType::SinOsc | ModuleType::SqrOsc | ModuleType::TriOsc
        | ModuleType::Lfo | ModuleType::AdsrEnv => GROUP_SOURCES,
        ModuleType::Lpf | ModuleType::Hpf | ModuleType::Bpf | ModuleType::Delay | ModuleType::Reverb => GROUP_PROCESSING,
        ModuleType::Output => GROUP_OUTPUT,
    }
}

/// The synth definition that plays a module.
pub open spec fn spec_synth_def_name(t: ModuleType) -> Seq<char> {
    match t {
        ModuleType::Midi => "tuidaw_midi"@,
        ModuleType::SawOsc => "tuidaw_saw"@,
        ModuleType::SinOsc => "tuidaw_sin"@,
        ModuleType::SqrOsc => "tuidaw_sqr"@,
        ModuleType::TriOsc => "tuidaw_tri"@,
        ModuleType::Lpf => "tuidaw_lpf"@,
        ModuleType::Hpf => "tuidaw_hpf"@,
        ModuleType::Bpf => "tuidaw_bpf"@,
        ModuleType::AdsrEnv => "tuidaw_adsr"@,
        ModuleType::Lfo => "tuidaw_lfo"@,
        ModuleType::Delay => "tuidaw_delay"@,
        ModuleType::Reverb => "tuidaw_reverb"@,
        ModuleType::Output => "tuidaw_output"@,
    }
}

/// The synth definition that plays a module.
pub fn synth_def_name(t: ModuleType) -> (r: &'static str)
    ensures
        r@ == spec_synth_def_name(t),
{
    match t {
        ModuleType::Midi => "tuidaw_midi",
        ModuleType::SawOsc => "tuidaw_saw",
        ModuleType::SinOsc => "tuidaw_sin",
        ModuleType::SqrOsc => "tuidaw_sqr",
        ModuleType::TriOsc => "tuidaw_tri",
        ModuleType::Lpf => "tuidaw_lpf",
        ModuleType::Hpf => "tuidaw_hpf",
        ModuleType::Bpf => "tuidaw_bpf",
        ModuleType::AdsrEnv => "tuidaw_adsr",
        ModuleType::Lfo => "tuidaw_lfo",
        ModuleType::Delay => "tuidaw_delay",
        ModuleType::Reverb => "tuidaw_reverb",
        ModuleType::Output => "tuidaw_output",
    }
}

/// The audio bus a mixer bus reads from: two channels each, from bus 200 up.
pub fn mixer_bus_audio(bus_id: u8) -> (r: i32)
    ensures
        r == 200 + (bus_id - 1) * 2,
{
    200 + (bus_id as i32 - 1) * 2
}

/// The destination of the first connection, from index `i` on, out of `cur`.
pub open spec fn first_out_from(conns: Seq<Connection>, cur: u32, i: int) -> Option<u32>
    decreases conns.len() - i,
{
    if i < 0 || i >= conns.len() {
        None
    } else if conns[i].src == cur {
        Some(conns[i].dst)
    } else {
        first_out_from(conns, cur, i + 1)
    }
}

/// The kind of module `id` (the first entry for it), if it is in the rack.
pub open spec fn kind_from(modules: Seq<(u32, ModuleType)>, id: u32, i: int) -> Option<ModuleType>
    decreases modules.len() - i,
{
    if i < 0 || i >= modules.len() {
        None
    } else if modules[i].0 == id {
        Some(modules[i].1)
    } else {
        kind_from(modules, id, i + 1)
    }
}

/// Following the first connection out of each module from `cur` for at most
/// `fuel` steps: the modules passed, added to `acc`, and the Output module the
/// walk ends on; none when it ends elsewhere or runs out of steps.
pub open spec fn walk_to_output(
    conns: Seq<Connection>,
    modules: Seq<(u32, ModuleType)>,
    cur: u32,
    fuel: nat,
    acc: Seq<(u32, ModuleType)>,
) -> Option<(Seq<(u32, ModuleType)>, u32)>
    decreases fuel,
{
    if fuel == 0 {
        None
    } else {
        match first_out_from(conns, cur, 0) {
            None => None,
            Some(d) => match kind_from(modules, d, 0) {
                None => None,
                Some(ModuleType::Output) => Some((acc, d)),
                Some(t) => walk_to_output(conns, modules, d, (fuel - 1) as nat, acc.push((d, t))),
            },
        }
    }
}

/// The first connection out of `cur`, by its destination.
fn first_out(conns: &Vec<Connection>, cur: u32) -> (r: Option<u32>)
    ensures
        r == first_out_from(conns@, cur, 0),
{
    let mut i: usize = 0;
    while i < conns.len()
        invariant
            i <= conns@.len(),
            first_out_from(conns@, cur, 0) == first_out_from(conns@, cur, i as int),
        decreases conns@.len() - i,
    {
        if conns[i].src == cur {
            return Some(conns[i].dst);
        }
        i = i + 1;
    }
    None
}

/// The kind of module `id`, if it is in the rack.
pub fn kind_of(modules: &Vec<(u32, ModuleType)>, id: u32) -> (r: Option<ModuleType>)
    ensures
        r == kind_from(modules@, id, 0),
{
    let mut i: usize = 0;
    while i < modules.len()
        invariant
            i <= modules@.len(),
            kind_from(modules@, id, 0) == kind_from(modules@, id, i as int),
        decreases modules@.len() - i,
    {
        if modules[i].0 == id {
            return Some(modules[i].1);
        }
        i = i + 1;
    }
    None
}

/// The voice chain of a polyphonic MIDI module: following the first connection
/// out of each module from `midi_id`, the modules passed until an Output
/// module, and that Output module. None when the walk ends on a module that is
/// not in the rack or on one with no connection out, and when it takes more
/// steps than there are connections.
pub fn poly_chain(midi_id: u32, conns: &Vec<Connection>, modules: &Vec<(u32, ModuleType)>) -> (r: Option<(Vec<(u32, ModuleType)>, u32)>)
    requires
        conns@.len() < usize::MAX,
    ensures
        match r {
            None => walk_to_output(conns@, modules@, midi_id, (conns@.len() + 1) as nat, Seq::empty()) is None,
            Some((chain, output)) => walk_to_output(conns@, modules@, midi_id, (conns@.len() + 1) as nat, Seq::empty())
                == Some((chain@, output)),
        },
{
    let mut chain: Vec<(u32, ModuleType)> = Vec::new();
    let mut cur = midi_id;
    let mut fuel: usize = conns.len() + 1;
    while fuel > 0
        invariant
            walk_to_output(conns@, modules@, midi_id, (conns@.len() + 1) as nat, Seq::empty()) == walk_to_output(
                conns@,
                modules@,
                cur,
                fuel as nat,
                chain@,
            ),
        decreases fuel,
    {
        match first_out(conns, cur) {
            None => return None,
            Some(d) => match kind_of(modules, d) {
                None => return None,
                Some(ModuleType::Output) => return Some((chain, d)),
                Some(t) => {
                    chain.push((d, t));
                    cur = d;
                    fuel = fuel - 1;
                },
            },
        }
    }
    None
}

} // verus!

verus! {

/// The counters from which voices take fresh server groups, nodes and buses.
#[derive(Debug, Clone, Copy, PartialEq, Eq)]
pub struct VoiceCounters {
    pub next_group_id: i32,
    pub next_node_id: i32,
    pub next_control_bus: i32,
    pub next_audio_bus: i32,
}

/// A module of a voice chain, with whether it has an audio input and an audio output.
#[derive(Debug, Clone, Copy, PartialEq, Eq)]
pub struct ChainModule {
    pub id: u32,
    pub module_type: ModuleType,
    pub audio_in: bool,
    pub audio_out: bool,
}

/// How one voice of a chain is laid out on the server.
pub struct VoicePlan {
    /// The group holding the voice's nodes.
    pub group_id: i32,
    /// The node of the MIDI synth.
    pub midi_node: i32,
    /// The control buses carrying frequency, gate and velocity.
    pub freq_bus: i32,
    pub gate_bus: i32,
    pub vel_bus: i32,
    /// The node of each chain module.
    pub module_nodes: Vec<i32>,
    /// The audio bus each chain module reads, if it reads one.
    pub audio_ins: Vec<Option<i32>>,
    /// The audio bus each chain module writes, if it writes one.
    pub audio_outs: Vec<Option<i32>>,
}

/// The counters can hand out a voice of `n` chain modules.
pub open spec fn voice_fits(c: VoiceCounters, n: nat) -> bool {
    &&& c.next_group_id < i32::MAX
    &&& c.next_node_id + 1 + n <= i32::MAX
    &&& c.next_control_bus + 3 <= i32::MAX
    &&& c.next_audio_bus + 2 * n <= i32::MAX
}

/// `p` lays out a voice of `chain` from counters `c`: the next group, the next
/// node for the MIDI synth and the ones after it for the modules in turn, the
/// next three control buses, and a stereo audio bus per module, where module `i`
/// reads the bus of module `i - 1` and writes its own (the last one writing
/// `output_bus`) as far as it has audio ports.
pub open spec fn lays_out(c: VoiceCounters, chain: Seq<ChainModule>, output_bus: i32, p: VoicePlan) -> bool {
    let n = chain.len();
    &&& p.group_id == c.next_group_id
    &&& p.midi_node == c.next_node_id
    &&& p.freq_bus == c.next_control_bus
    &&& p.gate_bus == c.next_control_bus + 1
    &&& p.vel_bus == c.next_control_bus + 2
    &&& p.module_nodes@.len() == n
    &&& p.audio_ins@.len() == n
    &&& p.audio_outs@.len() == n
    &&& forall|i: int| 0 <= i < n ==> #[trigger] p.module_nodes@[i] == c.next_node_id + 1 + i
    &&& forall|i: int|
        0 <= i < n ==> #[trigger] p.audio_ins@[i] == if chain[i].audio_in && i > 0 {
            Some((c.next_audio_bus + 2 * (i - 1)) as i32)
        } else {
            None
        }
    &&& forall|i: int|
        0 <= i < n ==> #[trigger] p.audio_outs@[i] == if !chain[i].audio_out {
            None
        } else if i == n - 1 {
            Some(output_bus)
        } else {
            Some((c.next_audio_bus + 2 * i) as i32)
        }
}

/// In a laid-out voice each chain module with an audio input reads what the
/// module before it writes (when that one has an audio output), the last module
/// with an audio output writes `output_bus`, the first module reads nothing, and
/// the modules' own buses are fresh: from the audio counter on, below where the
/// counter goes next, and no two modules write the same one.
pub proof fn lemma_voice_wiring(c: VoiceCounters, chain: Seq<ChainModule>, output_bus: i32, p: VoicePlan)
    requires
        voice_fits(c, chain.len()),
        lays_out(c, chain, output_bus, p),
    ensures
        forall|i: int|
            0 < i < chain.len() && chain[i].audio_in && chain[i - 1].audio_out ==> #[trigger] p.audio_ins@[i]
                == p.audio_outs@[i - 1],
        chain.len() > 0 ==> p.audio_ins@[0] is None,
        chain.len() > 0 && chain.last().audio_out ==> p.audio_outs@[chain.len() - 1] == Some(output_bus),
        forall|i: int|
            0 <= i < chain.len() - 1 && chain[i].audio_out ==> c.next_audio_bus <= (#[trigger] p.audio_outs@[i])->0
                && (p.audio_outs@[i])->0 < counters_after(c, chain.len()).next_audio_bus,
        forall|i: int, j: int|
            0 <= i < j < chain.len() - 1 && chain[i].audio_out && chain[j].audio_out ==> #[trigger] p.audio_outs@[i]
                != #[trigger] p.audio_outs@[j],
        forall|i: int, j: int|
            0 <= i < j < chain.len() ==> #[trigger] p.module_nodes@[i] != #[trigger] p.module_nodes@[j],
        forall|i: int| 0 <= i < chain.len() ==> #[trigger] p.module_nodes@[i] != p.midi_node,
{
    let n = chain.len();
    assert forall|i: int|
        0 < i < n && chain[i].audio_in && chain[i - 1].audio_out implies #[trigger] p.audio_ins@[i]
            == p.audio_outs@[i - 1] by {
        assert(p.audio_ins@[i] == Some((c.next_audio_bus + 2 * (i - 1)) as i32));
        assert(p.audio_outs@[i - 1] == Some((c.next_audio_bus + 2 * (i - 1)) as i32));
    }
    assert forall|i: int, j: int|
        0 <= i < j < n - 1 && chain[i].audio_out && chain[j].audio_out implies #[trigger] p.audio_outs@[i]
            != #[trigger] p.audio_outs@[j] by {
        assert(p.audio_outs@[i] == Some((c.next_audio_bus + 2 * i) as i32));
        assert(p.audio_outs@[j] == Some((c.next_audio_bus + 2 * j) as i32));
    }
    assert forall|i: int, j: int| 0 <= i < j < n implies #[trigger] p.module_nodes@[i] != #[trigger] p.module_nodes@[j] by {
        assert(p.module_nodes@[i] == c.next_node_id + 1 + i);
        assert(p.module_nodes@[j] == c.next_node_id + 1 + j);
    }
}

/// The counters after laying out a voice of `n` chain modules.
pub open spec fn counters_after(c: VoiceCounters, n: nat) -> VoiceCounters {
    VoiceCounters {
        next_group_id: (c.next_group_id + 1) as i32,
        next_node_id: (c.next_node_id + 1 + n) as i32,
        next_control_bus: (c.next_control_bus + 3) as i32,
        next_audio_bus: (c.next_audio_bus + 2 * n) as i32,
    }
}

/// Lays out a voice of `chain`: a fresh group, a fresh node for the MIDI synth
/// and for each module in turn, three fresh control buses, and a fresh stereo
/// audio bus per module. Module `i` reads the bus of module `i - 1` and writes
/// its own, the last one writing `output_bus`, as far as it has audio ports.
pub fn plan_voice_chain(counters: &mut VoiceCounters, chain: &Vec<ChainModule>, output_bus: i32) -> (p: VoicePlan)
    requires
        voice_fits(*old(counters), chain@.len()),
    ensures
        lays_out(*old(counters), chain@, output_bus, p),
        *final(counters) == counters_after(*old(counters), chain@.len()),
{
    let n = chain.len();
    let ghost c = *old(counters);
    let group_id = counters.next_group_id;
    counters.next_group_id = counters.next_group_id + 1;
    let freq_bus = counters.next_control_bus;
    let gate_bus = freq_bus + 1;
    let vel_bus = freq_bus + 2;
    counters.next_control_bus = freq_bus + 3;
    let audio_base = counters.next_audio_bus;
    let midi_node = counters.next_node_id;
    let mut module_nodes: Vec<i32> = Vec::new();
    let mut audio_ins: Vec<Option<i32>> = Vec::new();
    let mut audio_outs: Vec<Option<i32>> = Vec::new();
    let mut i: usize = 0;
    while i < n
        invariant
            n == chain@.len(),
            i <= n,
            audio_base == c.next_audio_bus,
            midi_node == c.next_node_id,
            voice_fits(c, n as nat),
            module_nodes@.len() == i,
            audio_ins@.len() == i,
            audio_outs@.len() == i,
            forall|k: int| 0 <= k < i ==> #[trigger] module_nodes@[k] == c.next_node_id + 1 + k,
            forall|k: int|
                0 <= k < i ==> #[trigger] audio_ins@[k] == if chain@[k].audio_in && k > 0 {
                    Some((c.next_audio_bus + 2 * (k - 1)) as i32)
                } else {
                    None
                },
            forall|k: int|
                0 <= k < i ==> #[trigger] audio_outs@[k] == if !chain@[k].audio_out {
                    None
                } else if k == n - 1 {
                    Some(output_bus)
                } else {
                    Some((c.next_audio_bus + 2 * k) as i32)
                },
        decreases n - i,
    {
        let m = chain[i];
        let node = midi_node + 1 + i as i32;
        let ain = if m.audio_in && i > 0 { Some((audio_base as i64 + 2 * (i as i64 - 1)) as i32) } else { None };
        let aout = if !m.audio_out {
            None
        } else if i == n - 1 {
            Some(output_bus)
        } else {
            Some((audio_base as i64 + 2 * i as i64) as i32)
        };
        module_nodes.push(node);
        audio_ins.push(ain);
        audio_outs.push(aout);
        i = i + 1;
    }
    counters.next_node_id = midi_node + 1 + n as i32;
    counters.next_audio_bus = (audio_base as i64 + 2 * n as i64) as i32;
    VoicePlan { group_id, midi_node, freq_bus, gate_bus, vel_bus, module_nodes, audio_ins, audio_outs }
}

/// A voice chain being spawned: the chain stolen to make room (whose group is to
/// be freed), the layout of the new voice, and the chain to record once its
/// messages were sent.
pub struct SpawnedVoice {
    pub stolen: Option<VoiceChain>,
    pub plan: VoicePlan,
    pub voice: VoiceChain,
}

/// The modules of a chain template, in signal order.
pub open spec fn template_modules(t: ChainTemplate<ChainModule>) -> Seq<ChainModule> {
    t.modules@.map_values(|e: (u32, ChainModule)| e.1)
}

/// Prepares a polyphonic voice of MIDI module `m` at `pitch` from its chain
/// `template`: when `m` already sounds `MAX_VOICES_PER_MODULE` chains, its oldest
/// chain is stolen (removed); the new voice is laid out from the counters, on
/// the next group and with the next node for the MIDI synth. The caller sends
/// the voice's messages and, once they are sent, records `voice` at the end of
/// the chains with `record_voice` (`lemma_spawn_keeps_limit` gives the result).
/// Nothing changes when the engine is not connected or `m` has no template.
pub fn spawn_voice_chain(
    chains: &mut Vec<VoiceChain>,
    counters: &mut VoiceCounters,
    connected: bool,
    m: u32,
    pitch: u8,
    template: Option<&ChainTemplate<ChainModule>>,
) -> (r: Result<SpawnedVoice, VoiceError>)
    requires
        match template {
            Some(t) => voice_fits(*old(counters), t.modules@.len()),
            None => true,
        },
    ensures
        !connected ==> r == Err::<SpawnedVoice, VoiceError>(VoiceError::NotConnected),
        connected && template is None ==> r == Err::<SpawnedVoice, VoiceError>(VoiceError::NoTemplate(m)),
        r is Err ==> *final(chains) == *old(chains) && *final(counters) == *old(counters),
        connected && template is Some ==> r is Ok,
        match (r, template) {
            (Ok(s), Some(t)) => {
                let c = *old(counters);
                let before = old(chains)@;
                let k = voices_of(before, m);
                &&& s.voice == (VoiceChain { midi_module_id: m, pitch, group_id: c.next_group_id, midi_node_id: c.next_node_id })
                &&& lays_out(c, template_modules(*t), t.output_audio_bus, s.plan)
                &&& *final(counters) == counters_after(c, t.modules@.len())
                &&& if k >= MAX_VOICES_PER_MODULE {
                    &&& s.stolen == Some(before[oldest_of(before, m)])
                    &&& final(chains)@ == before.remove(oldest_of(before, m))
                    &&& voices_of(final(chains)@, m) == k - 1
                } else {
                    &&& s.stolen is None
                    &&& final(chains)@ == before
                }
            },
            _ => true,
        },
{
    if !connected {
        return Err(VoiceError::NotConnected);
    }
    let t = match template {
        Some(t) => t,
        None => return Err(VoiceError::NoTemplate(m)),
    };
    let mut modules: Vec<ChainModule> = Vec::new();
    let mut i: usize = 0;
    while i < t.modules.len()
        invariant
            i <= t.modules@.len(),
            modules@ == template_modules(*t).take(i as int),
        decreases t.modules@.len() - i,
    {
        modules.push(t.modules[i].1);
        i = i + 1;
        assert(modules@ =~= template_modules(*t).take(i as int));
    }
    assert(modules@ =~= template_modules(*t));
    let stolen = steal_oldest(chains, m);
    let voice = VoiceChain { midi_module_id: m, pitch, group_id: counters.next_group_id, midi_node_id: counters.next_node_id };
    let plan = plan_voice_chain(counters, &modules, t.output_audio_bus);
    Ok(SpawnedVoice { stolen, plan, voice })
}

/// Spawning a voice of `m` and recording it once sent: the chains are those
/// before (without `m`'s oldest chain when `m` was at the limit) followed by the
/// new chain, so `m` then sounds one more chain, or as many as before when one
/// was stolen; and no module ever sounds more than `MAX_VOICES_PER_MODULE`
/// chains.
pub proof fn lemma_spawn_keeps_limit(before: Seq<VoiceChain>, after: Seq<VoiceChain>, voice: VoiceChain, other: u32)
    requires
        voices_of(before, voice.midi_module_id) <= MAX_VOICES_PER_MODULE,
        voices_of(before, other) <= MAX_VOICES_PER_MODULE,
        after == if voices_of(before, voice.midi_module_id) >= MAX_VOICES_PER_MODULE {
            before.remove(oldest_of(before, voice.midi_module_id))
        } else {
            before
        },
    ensures
        voices_of(after.push(voice), other) <= MAX_VOICES_PER_MODULE,
        after.push(voice).last() == voice,
        ({
            let k = voices_of(before, voice.midi_module_id);
            voices_of(after.push(voice), voice.midi_module_id) == if k < MAX_VOICES_PER_MODULE {
                k + 1
            } else {
                MAX_VOICES_PER_MODULE as nat
            }
        }),
{
    lemma_admit_keeps_limit(before, after.push(voice), voice, other);
    lemma_admit_keeps_limit(before, after.push(voice), voice, voice.midi_module_id);
    let m = voice.midi_module_id;
    let k = voices_of(before, m);
    assert(after.push(voice).drop_last() =~= after);
    if k >= MAX_VOICES_PER_MODULE {
        lemma_count_after_steal(before, m);
    }
}

} // verus!
