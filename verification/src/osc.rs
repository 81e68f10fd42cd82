//! Open Sound Control messages to the audio server whose arguments are all
//! integers: creating the execution groups and freeing nodes. The bytes are
//! encoded by the `rosc` crate; the application sends them.

use vstd::prelude::*;
use crate::voices::VoiceChain;

verus! {

/// The group of the sound sources, first in execution order.
pub const GROUP_SOURCES: i32 = 100;
/// The group of the processing modules.
pub const GROUP_PROCESSING: i32 = 200;
/// The group of the outputs, last in execution order.
pub const GROUP_OUTPUT: i32 = 300;
/// Add action of `/g_new`: add the new group at the tail of its target.
pub const ADD_TO_TAIL: i32 = 1;
/// The server's default group.
pub const DEFAULT_GROUP: i32 = 0;

/// `b` followed by one to four zero bytes, to a multiple of four bytes (an OSC
/// string).
pub open spec fn osc_padded(b: Seq<u8>) -> Seq<u8> {
    b + Seq::new((4 - b.len() % 4) as nat, |_i: int| 0u8)
}

/// The four bytes of `x`, most significant first (two's complement).
pub open spec fn be_bytes(x: i32) -> Seq<u8> {
    let u = x as u32;
    seq![(u / 0x1000000) as u8, (u / 0x10000 % 0x100) as u8, (u / 0x100 % 0x100) as u8, (u % 0x100) as u8]
}

/// The arguments' bytes, four per integer, in order.
pub open spec fn int_args_bytes(args: Seq<i32>) -> Seq<u8>
    decreases args.len(),
{
    if args.len() == 0 {
        Seq::empty()
    } else {
        int_args_bytes(args.drop_last()) + be_bytes(args.last())
    }
}

/// The characters of an ASCII text as bytes.
pub open spec fn ascii_bytes(s: Seq<char>) -> Seq<u8> {
    s.map_values(|c: char| c as u8)
}

/// Every character of `s` is ASCII.
pub open spec fn is_ascii_text(s: Seq<char>) -> bool {
    forall|i: int| 0 <= i < s.len() ==> (#[trigger] s[i] as u32) < 128
}

/// An OSC message to `addr` whose arguments are the integers `args`: the address
/// as an OSC string, the type tags ("," and an "i" per argument) as an OSC
/// string, then each argument's four bytes.
pub open spec fn osc_int_message(addr: Seq<char>, args: Seq<i32>) -> Seq<u8> {
    osc_padded(ascii_bytes(addr)) + osc_padded(seq![0x2cu8] + Seq::new(args.len(), |_i: int| 0x69u8))
        + int_args_bytes(args)
}

/// An argument of an OSC message: an integer, an ASCII string or a blob of bytes.
#[derive(Debug, Clone)]
pub enum OscArg {
    Int(i32),
    Str(String),
    Blob(Vec<u8>),
}

/// An argument as a value.
pub enum OscArgView {
    Int(i32),
    Str(Seq<char>),
    Blob(Seq<u8>),
}

impl View for OscArg {
    type V = OscArgView;

    open spec fn view(&self) -> OscArgView {
        match self {
            OscArg::Int(x) => OscArgView::Int(*x),
            OscArg::Str(s) => OscArgView::Str(s@),
            OscArg::Blob(b) => OscArgView::Blob(b@),
        }
    }
}

/// The four bytes of `x`, most significant first.
pub open spec fn be_u32(u: u32) -> Seq<u8> {
    seq![(u / 0x1000000) as u8, (u / 0x10000 % 0x100) as u8, (u / 0x100 % 0x100) as u8, (u % 0x100) as u8]
}

/// The type tag of an argument: "i", "s" or "b".
pub open spec fn type_tag(a: OscArgView) -> u8 {
    match a {
        OscArgView::Int(_) => 0x69u8,
        OscArgView::Str(_) => 0x73u8,
        OscArgView::Blob(_) => 0x62u8,
    }
}

/// The bytes of an argument: an integer big-endian, a string as an OSC string,
/// a blob as its length (four bytes, big-endian), its bytes and zero to three
/// zero bytes up to a multiple of four.
pub open spec fn arg_bytes(a: OscArgView) -> Seq<u8> {
    match a {
        OscArgView::Int(x) => be_bytes(x),
        OscArgView::Str(s) => osc_padded(ascii_bytes(s)),
        OscArgView::Blob(b) => be_u32(b.len() as u32) + b + Seq::new(((4 - b.len() % 4) % 4) as nat, |_i: int| 0u8),
    }
}

/// The bytes of the arguments, in order.
pub open spec fn args_bytes(args: Seq<OscArgView>) -> Seq<u8>
    decreases args.len(),
{
    if args.len() == 0 {
        Seq::empty()
    } else {
        args_bytes(args.drop_last()) + arg_bytes(args.last())
    }
}

/// The arguments can be encoded: their strings are ASCII and their blobs'
/// lengths fit in four bytes.
pub open spec fn args_encodable(args: Seq<OscArgView>) -> bool {
    forall|i: int|
        0 <= i < args.len() ==> match #[trigger] args[i] {
            OscArgView::Str(s) => is_ascii_text(s),
            OscArgView::Blob(b) => b.len() <= u32::MAX,
            OscArgView::Int(_) => true,
        }
}

/// An OSC message to `addr` with arguments `args`: the address as an OSC string,
/// the type tags ("," and a tag per argument) as an OSC string, then each
/// argument's bytes.
pub open spec fn osc_message(addr: Seq<char>, args: Seq<OscArgView>) -> Seq<u8> {
    osc_padded(ascii_bytes(addr)) + osc_padded(seq![0x2cu8] + args.map_values(|a: OscArgView| type_tag(a)))
        + args_bytes(args)
}

/// Encodes a message to the ASCII address `addr` (`rosc::encoder::encode` of an
/// `OscPacket::Message`). Its source writes the address and the type tags each
/// followed by one to four zero bytes, to a multiple of four; then each `i32`
/// big-endian, each string followed by one to four zero bytes, and each blob as
/// its length (`u32`, big-endian), its bytes and zero to three zero bytes;
/// writing into a byte vector cannot fail.
#[verifier::external_body]
fn encode_message(addr: &str, args: &Vec<OscArg>) -> (r: Vec<u8>)
    requires
        is_ascii_text(addr@),
        args_encodable(args@.map_values(|a: OscArg| a@)),
    ensures
        r@ == osc_message(addr@, args@.map_values(|a: OscArg| a@)),
{
    let msg = rosc::OscPacket::Message(rosc::OscMessage {
        addr: addr.to_string(),
        args: args.iter().map(|a| match a {
            OscArg::Int(x) => rosc::OscType::Int(*x),
            OscArg::Str(s) => rosc::OscType::String(s.clone()),
            OscArg::Blob(b) => rosc::OscType::Blob(b.clone()),
        }).collect(),
    });
    match rosc::encoder::encode(&msg) {
        Ok(bytes) => bytes,
        Err(_) => Vec::new(),
    }
}

/// A message with only integer arguments is laid out as `osc_int_message` says.
proof fn lemma_int_message(addr: Seq<char>, ints: Seq<i32>)
    ensures
        osc_message(addr, ints.map_values(|x: i32| OscArgView::Int(x))) == osc_int_message(addr, ints),
    decreases ints.len(),
{
    let args = ints.map_values(|x: i32| OscArgView::Int(x));
    assert(args.map_values(|a: OscArgView| type_tag(a)) =~= Seq::new(ints.len(), |_i: int| 0x69u8));
    lemma_int_args(ints);
}

proof fn lemma_int_args(ints: Seq<i32>)
    ensures
        args_bytes(ints.map_values(|x: i32| OscArgView::Int(x))) == int_args_bytes(ints),
    decreases ints.len(),
{
    if ints.len() > 0 {
        lemma_int_args(ints.drop_last());
        assert(ints.map_values(|x: i32| OscArgView::Int(x)).drop_last() =~= ints.drop_last().map_values(
            |x: i32| OscArgView::Int(x),
        ));
    }
}

/// Encodes a message to the ASCII address `addr` with integer arguments.
fn encode_int_message(addr: &str, args: &Vec<i32>) -> (r: Vec<u8>)
    requires
        is_ascii_text(addr@),
    ensures
        r@ == osc_int_message(addr@, args@),
{
    let mut v: Vec<OscArg> = Vec::new();
    let mut i: usize = 0;
    while i < args.len()
        invariant
            i <= args@.len(),
            v@.len() == i,
            forall|k: int| 0 <= k < i ==> #[trigger] v@[k]@ == OscArgView::Int(args@[k]),
        decreases args@.len() - i,
    {
        v.push(OscArg::Int(args[i]));
        i = i + 1;
    }
    assert(v@.map_values(|a: OscArg| a@) =~= args@.map_values(|x: i32| OscArgView::Int(x)));
    proof {
        lemma_int_message(addr@, args@);
    }
    encode_message(addr, &v)
}

/// The `/u_cmd` message that hands the MIDI bytes `midi` to unit `ugen` of node
/// `node` (a VST instrument's plugin): `/u_cmd node ugen "/midi_msg" midi`.
pub fn vst_midi_message(node: i32, ugen: i32, midi: &Vec<u8>) -> (r: Vec<u8>)
    requires
        midi@.len() <= u32::MAX,
    ensures
        r@ == osc_message(
            "/u_cmd"@,
            seq![OscArgView::Int(node), OscArgView::Int(ugen), OscArgView::Str("/midi_msg"@), OscArgView::Blob(midi@)],
        ),
{
    let cmd = String::from_str("/midi_msg");
    let bytes = midi.clone();
    let args = vec![OscArg::Int(node), OscArg::Int(ugen), OscArg::Str(cmd), OscArg::Blob(bytes)];
    proof {
        reveal_strlit("/u_cmd");
        reveal_strlit("/midi_msg");
        assert(args@.map_values(|a: OscArg| a@) =~= seq![
            OscArgView::Int(node),
            OscArgView::Int(ugen),
            OscArgView::Str("/midi_msg"@),
            OscArgView::Blob(midi@),
        ]);
    }
    encode_message("/u_cmd", &args)
}

/// `/g_new group add_action target`: creates a group.
pub fn new_group_message(group_id: i32, add_action: i32, target: i32) -> (r: Vec<u8>)
    ensures
        r@ == osc_int_message("/g_new"@, seq![group_id, add_action, target]),
{
    let args = vec![group_id, add_action, target];
    assert(args@ =~= seq![group_id, add_action, target]);
    proof {
        reveal_strlit("/g_new");
    }
    encode_int_message("/g_new", &args)
}

/// `/n_free node`: frees a node (a synth or a whole group).
pub fn free_node_message(node_id: i32) -> (r: Vec<u8>)
    ensures
        r@ == osc_int_message("/n_free"@, seq![node_id]),
{
    let args = vec![node_id];
    assert(args@ =~= seq![node_id]);
    proof {
        reveal_strlit("/n_free");
    }
    encode_int_message("/n_free", &args)
}

/// The groups the server needs before any synth is created, in execution order:
/// sources, processing, outputs, each added at the tail of the default group.
pub open spec fn group_setup() -> Seq<Seq<u8>> {
    seq![
        osc_int_message("/g_new"@, seq![GROUP_SOURCES, ADD_TO_TAIL, DEFAULT_GROUP]),
        osc_int_message("/g_new"@, seq![GROUP_PROCESSING, ADD_TO_TAIL, DEFAULT_GROUP]),
        osc_int_message("/g_new"@, seq![GROUP_OUTPUT, ADD_TO_TAIL, DEFAULT_GROUP]),
    ]
}

/// The messages that create the execution groups, in order.
pub fn group_setup_messages() -> (r: Vec<Vec<u8>>)
    ensures
        r@.len() == 3,
        forall|i: int| 0 <= i < 3 ==> #[trigger] r@[i]@ == group_setup()[i],
{
    let mut r: Vec<Vec<u8>> = Vec::new();
    r.push(new_group_message(GROUP_SOURCES, ADD_TO_TAIL, DEFAULT_GROUP));
    r.push(new_group_message(GROUP_PROCESSING, ADD_TO_TAIL, DEFAULT_GROUP));
    r.push(new_group_message(GROUP_OUTPUT, ADD_TO_TAIL, DEFAULT_GROUP));
    r
}

/// The messages that silence every polyphonic voice: a `/n_free` of each chain's
/// group, in order.
pub fn free_chains_messages(chains: &Vec<VoiceChain>) -> (r: Vec<Vec<u8>>)
    ensures
        r@.len() == chains@.len(),
        forall|i: int| 0 <= i < chains@.len() ==> #[trigger] r@[i]@ == osc_int_message("/n_free"@, seq![chains@[i].group_id]),
{
    let mut r: Vec<Vec<u8>> = Vec::new();
    let mut i: usize = 0;
    while i < chains.len()
        invariant
            i <= chains@.len(),
            r@.len() == i,
            forall|k: int| 0 <= k < i ==> #[trigger] r@[k]@ == osc_int_message("/n_free"@, seq![chains@[k].group_id]),
        decreases chains@.len() - i,
    {
        r.push(free_node_message(chains[i].group_id));
        i = i + 1;
    }
    r
}

/// The MIDI note-on message a VST instrument gets: status 0x90, the pitch, the
/// velocity (0 to 127).
pub fn midi_note_on(pitch: u8, velocity: u8) -> (r: Vec<u8>)
    requires
        velocity <= 127,
    ensures
        r@ == seq![0x90u8, pitch, velocity],
{
    let r = vec![0x90u8, pitch, velocity];
    assert(r@ =~= seq![0x90u8, pitch, velocity]);
    r
}

/// The MIDI note-off message a VST instrument gets: status 0x80, the pitch,
/// velocity 0.
pub fn midi_note_off(pitch: u8) -> (r: Vec<u8>)
    ensures
        r@ == seq![0x80u8, pitch, 0u8],
{
    let r = vec![0x80u8, pitch, 0u8];
    assert(r@ =~= seq![0x80u8, pitch, 0u8]);
    r
}

/// The note-on a VST instrument's plugin (unit `ugen` of node `node`) gets: a
/// `/u_cmd` handing it the MIDI bytes 0x90, the pitch and the velocity.
pub fn vst_note_on_message(node: i32, ugen: i32, pitch: u8, velocity: u8) -> (r: Vec<u8>)
    requires
        velocity <= 127,
    ensures
        r@ == osc_message(
            "/u_cmd"@,
            seq![
                OscArgView::Int(node),
                OscArgView::Int(ugen),
                OscArgView::Str("/midi_msg"@),
                OscArgView::Blob(seq![0x90u8, pitch, velocity]),
            ],
        ),
{
    let midi = midi_note_on(pitch, velocity);
    vst_midi_message(node, ugen, &midi)
}

/// The note-off a VST instrument's plugin gets: a `/u_cmd` handing it the MIDI
/// bytes 0x80, the pitch and velocity 0.
pub fn vst_note_off_message(node: i32, ugen: i32, pitch: u8) -> (r: Vec<u8>)
    ensures
        r@ == osc_message(
            "/u_cmd"@,
            seq![
                OscArgView::Int(node),
                OscArgView::Int(ugen),
                OscArgView::Str("/midi_msg"@),
                OscArgView::Blob(seq![0x80u8, pitch, 0u8]),
            ],
        ),
{
    let midi = midi_note_off(pitch);
    vst_midi_message(node, ugen, &midi)
}

} // verus!
