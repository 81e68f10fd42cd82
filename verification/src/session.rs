//! The session state the mixer and piano-roll requests change: each instrument's
//! mixer channel (level, pan, mute, solo, sends), the buses, the master, the
//! mixer selection, the piano-roll tracks and the transport. Levels and send
//! levels are hundredths of full scale (0 to 100), pans hundredths from hard left
//! (-100) to hard right (100). Applying a request gives the new state and the
//! commands the audio engine is to carry out.

use vstd::prelude::*;
use crate::action::{Action, MixerAction, MixerSelection, PianoRollAction};
use crate::piano_roll::Note;
use crate::playback::{spec_next_time_signature, ActiveNote, Transport};

verus! {

/// A send of a channel to a bus.
#[derive(Debug, Clone, Copy, PartialEq, Eq, Structural)]
pub struct SendLevel {
    pub bus_id: u8,
    pub level: u8,
    pub enabled: bool,
}

/// An instrument's mixer channel.
#[derive(Debug, Clone)]
pub struct Channel {
    pub id: u32,
    pub level: u8,
    pub pan: i8,
    pub mute: bool,
    pub solo: bool,
    pub sends: Vec<SendLevel>,
}

/// A mix bus.
#[derive(Debug, Clone, Copy, PartialEq, Eq, Structural)]
pub struct Bus {
    pub id: u8,
    pub level: u8,
    pub pan: i8,
    pub mute: bool,
    pub solo: bool,
}

/// A piano-roll track: the instrument it plays, its voice mode and its notes.
#[derive(Debug, Clone)]
pub struct Track {
    pub module_id: u32,
    pub polyphonic: bool,
    pub notes: Vec<Note>,
}

/// The state the mixer and piano-roll requests change.
pub struct SessionState {
    /// The instruments' channels, in instrument order.
    pub channels: Vec<Channel>,
    pub buses: Vec<Bus>,
    pub master_level: u8,
    pub master_mute: bool,
    /// What the mixer acts on.
    pub selection: MixerSelection,
    /// The tracks, in track order.
    pub tracks: Vec<Track>,
    pub transport: Transport,
    /// The notes sounding from playback, with the ticks they have left.
    pub active_notes: Vec<ActiveNote>,
}

/// What the audio engine is to do after a request.
#[derive(Debug, Clone, Copy, PartialEq, Eq, Structural)]
pub enum EngineCommand {
    /// Set a bus's level, mute (as heard: muted, or silenced by a solo elsewhere) and pan.
    SetBusMixer { bus: u8, level: u8, mute: bool, pan: i8 },
    /// Rebuild the instruments' routing (their output levels, mutes and sends).
    RebuildRouting,
    /// Release every sounding voice.
    ReleaseAllVoices,
}

/// A channel as a value.
#[verifier::ext_equal]
pub struct ChannelView {
    pub id: u32,
    pub level: u8,
    pub pan: i8,
    pub mute: bool,
    pub solo: bool,
    pub sends: Seq<SendLevel>,
}

/// A track as a value.
#[verifier::ext_equal]
pub struct TrackView {
    pub module_id: u32,
    pub polyphonic: bool,
    pub notes: Seq<Note>,
}

/// The session as a value.
#[verifier::ext_equal]
pub struct SessionView {
    pub channels: Seq<ChannelView>,
    pub buses: Seq<Bus>,
    pub master_level: u8,
    pub master_mute: bool,
    pub selection: MixerSelection,
    pub tracks: Seq<TrackView>,
    pub transport: Transport,
    pub active_notes: Seq<ActiveNote>,
}

impl View for Channel {
    type V = ChannelView;

    open spec fn view(&self) -> ChannelView {
        ChannelView {
            id: self.id,
            level: self.level,
            pan: self.pan,
            mute: self.mute,
            solo: self.solo,
            sends: self.sends@,
        }
    }
}

impl View for Track {
    type V = TrackView;

    open spec fn view(&self) -> TrackView {
        TrackView { module_id: self.module_id, polyphonic: self.polyphonic, notes: self.notes@ }
    }
}

impl View for SessionState {
    type V = SessionView;

    open spec fn view(&self) -> SessionView {
        SessionView {
            channels: self.channels@.map_values(|c: Channel| c@),
            buses: self.buses@,
            master_level: self.master_level,
            master_mute: self.master_mute,
            selection: self.selection,
            tracks: self.tracks@.map_values(|t: Track| t@),
            transport: self.transport,
            active_notes: self.active_notes@,
        }
    }
}

/// `v + d` kept within `lo ..= hi`.
pub open spec fn clamped(v: int, d: int, lo: int, hi: int) -> int {
    if v + d < lo {
        lo
    } else if v + d > hi {
        hi
    } else {
        v + d
    }
}

/// A level after a change of `d` hundredths, kept within 0 to 100.
pub open spec fn level_after(v: u8, d: i32) -> u8 {
    clamped(v as int, d as int, 0, 100) as u8
}

/// A pan after a change of `d` hundredths, kept within -100 to 100.
pub open spec fn pan_after(v: i8, d: i32) -> i8 {
    clamped(v as int, d as int, -100, 100) as i8
}

/// The position of the first element of `s` that satisfies `p`, or -1.
pub open spec fn first_index<T>(s: Seq<T>, p: spec_fn(T) -> bool) -> int
    decreases s.len(),
{
    if s.len() == 0 {
        -1
    } else {
        let r = first_index(s.drop_last(), p);
        if r >= 0 {
            r
        } else if p(s.last()) {
            s.len() - 1
        } else {
            -1
        }
    }
}

/// The position of the first bus with id `id`, or -1.
pub open spec fn find_bus(s: Seq<Bus>, id: u8) -> int {
    first_index(s, |b: Bus| b.id == id)
}

/// The position of the first send to bus `id`, or -1.
pub open spec fn find_send(s: Seq<SendLevel>, id: u8) -> int {
    first_index(s, |x: SendLevel| x.bus_id == id)
}

/// The position of the first note at `pitch` starting at `tick`, or -1.
pub open spec fn find_note(s: Seq<Note>, pitch: u8, tick: u32) -> int {
    first_index(s, |n: Note| n.pitch == pitch && n.tick == tick)
}

/// When no element before `i` satisfies `p` and the one at `i` does (or `i` is
/// the end), the first that satisfies `p` is at `i` (or there is none).
pub proof fn lemma_first_index<T>(s: Seq<T>, p: spec_fn(T) -> bool, i: int)
    requires
        0 <= i <= s.len(),
        forall|j: int| 0 <= j < i ==> !p(#[trigger] s[j]),
        i < s.len() ==> p(s[i]),
    ensures
        first_index(s, p) == if i < s.len() { i } else { -1 },
    decreases s.len(),
{
    if s.len() > 0 {
        let d = s.drop_last();
        if i < s.len() - 1 {
            lemma_first_index(d, p, i);
        } else {
            assert forall|j: int| 0 <= j < d.len() implies !p(#[trigger] d[j]) by {
                assert(d[j] == s[j]);
            }
            lemma_first_index(d, p, d.len() as int);
        }
    }
}

/// The notes after placing or removing a note: a note at `pitch` starting at
/// `tick` is removed (the first one), else the new note is added at the end.
pub open spec fn notes_toggled(s: Seq<Note>, n: Note) -> Seq<Note> {
    let i = find_note(s, n.pitch, n.tick);
    if i >= 0 {
        s.remove(i)
    } else {
        s.push(n)
    }
}

impl SessionView {
    /// Some channel or bus is soloed.
    pub open spec fn any_solo(self) -> bool {
        (exists|i: int| 0 <= i < self.channels.len() && #[trigger] self.channels[i].solo)
            || (exists|j: int| 0 <= j < self.buses.len() && #[trigger] self.buses[j].solo)
    }

    /// A bus is silent when muted, or when something is soloed and it is not.
    pub open spec fn bus_silent(self, b: Bus) -> bool {
        b.mute || (self.any_solo() && !b.solo)
    }

    /// The engine command that brings bus `b` up to date.
    pub open spec fn bus_update(self, b: Bus) -> EngineCommand {
        EngineCommand::SetBusMixer { bus: b.id, level: b.level, mute: self.bus_silent(b), pan: b.pan }
    }

    /// The channel at `i` changed by `f`, when there is one.
    pub open spec fn with_channel(self, i: usize, c: ChannelView) -> SessionView {
        if i < self.channels.len() {
            SessionView { channels: self.channels.update(i as int, c), ..self }
        } else {
            self
        }
    }

    /// The first bus with id `id` replaced by `b`, when there is one.
    pub open spec fn with_bus(self, id: u8, b: Bus) -> SessionView {
        let j = find_bus(self.buses, id);
        if j >= 0 {
            SessionView { buses: self.buses.update(j, b), ..self }
        } else {
            self
        }
    }

    /// The state after a mixer request.
    pub open spec fn after_mixer(self, m: MixerAction) -> SessionView {
        match m {
            MixerAction::AdjustLevel(d) => match self.selection {
                MixerSelection::Instrument(i) => if i < self.channels.len() {
                    let c = self.channels[i as int];
                    self.with_channel(i, ChannelView { level: level_after(c.level, d), ..c })
                } else {
                    self
                },
                MixerSelection::Bus(id) => {
                    let j = find_bus(self.buses, id);
                    if j >= 0 {
                        self.with_bus(id, Bus { level: level_after(self.buses[j].level, d), ..self.buses[j] })
                    } else {
                        self
                    }
                },
                MixerSelection::Master => SessionView { master_level: level_after(self.master_level, d), ..self },
            },
            MixerAction::AdjustPan(d) => match self.selection {
                MixerSelection::Instrument(i) => if i < self.channels.len() {
                    let c = self.channels[i as int];
                    self.with_channel(i, ChannelView { pan: pan_after(c.pan, d), ..c })
                } else {
                    self
                },
                MixerSelection::Bus(id) => {
                    let j = find_bus(self.buses, id);
                    if j >= 0 {
                        self.with_bus(id, Bus { pan: pan_after(self.buses[j].pan, d), ..self.buses[j] })
                    } else {
                        self
                    }
                },
                MixerSelection::Master => self,
            },
            MixerAction::ToggleMute => match self.selection {
                MixerSelection::Instrument(i) => if i < self.channels.len() {
                    let c = self.channels[i as int];
                    self.with_channel(i, ChannelView { mute: !c.mute, ..c })
                } else {
                    self
                },
                MixerSelection::Bus(id) => {
                    let j = find_bus(self.buses, id);
                    if j >= 0 {
                        self.with_bus(id, Bus { mute: !self.buses[j].mute, ..self.buses[j] })
                    } else {
                        self
                    }
                },
                MixerSelection::Master => SessionView { master_mute: !self.master_mute, ..self },
            },
            MixerAction::ToggleSolo => match self.selection {
                MixerSelection::Instrument(i) => if i < self.channels.len() {
                    let c = self.channels[i as int];
                    self.with_channel(i, ChannelView { solo: !c.solo, ..c })
                } else {
                    self
                },
                MixerSelection::Bus(id) => {
                    let j = find_bus(self.buses, id);
                    if j >= 0 {
                        self.with_bus(id, Bus { solo: !self.buses[j].solo, ..self.buses[j] })
                    } else {
                        self
                    }
                },
                MixerSelection::Master => self,
            },
            MixerAction::AdjustSend(bus, d) => match self.selection {
                MixerSelection::Instrument(i) => if i < self.channels.len() {
                    let c = self.channels[i as int];
                    let k = find_send(c.sends, bus);
                    if k >= 0 {
                        let s = c.sends[k];
                        self.with_channel(
                            i,
                            ChannelView { sends: c.sends.update(k, SendLevel { level: level_after(s.level, d), ..s }), ..c },
                        )
                    } else {
                        self
                    }
                } else {
                    self
                },
                _ => self,
            },
            MixerAction::ToggleSend(bus) => match self.selection {
                MixerSelection::Instrument(i) => if i < self.channels.len() {
                    let c = self.channels[i as int];
                    let k = find_send(c.sends, bus);
                    if k >= 0 {
                        let s = c.sends[k];
                        let on = !s.enabled;
                        let level = if on && s.level == 0 { 50u8 } else { s.level };
                        self.with_channel(
                            i,
                            ChannelView { sends: c.sends.update(k, SendLevel { enabled: on, level, ..s }), ..c },
                        )
                    } else {
                        self
                    }
                } else {
                    self
                },
                _ => self,
            },
            MixerAction::SelectAt(sel) => SessionView { selection: sel, ..self },
            _ => self,
        }
    }

    /// The engine commands after a mixer request, the new state being `next`.
    pub open spec fn mixer_commands(self, m: MixerAction, next: SessionView, running: bool) -> Seq<EngineCommand> {
        if !running {
            Seq::empty()
        } else {
            match m {
                MixerAction::AdjustLevel(_) | MixerAction::AdjustPan(_) | MixerAction::ToggleMute => match self.selection {
                    MixerSelection::Bus(id) => {
                        let j = find_bus(next.buses, id);
                        if j >= 0 {
                            seq![next.bus_update(next.buses[j]), EngineCommand::RebuildRouting]
                        } else {
                            seq![EngineCommand::RebuildRouting]
                        }
                    },
                    _ => seq![EngineCommand::RebuildRouting],
                },
                MixerAction::ToggleSolo => Seq::new(next.buses.len(), |j: int| next.bus_update(next.buses[j])).push(
                    EngineCommand::RebuildRouting,
                ),
                MixerAction::ToggleSend(_) => seq![EngineCommand::RebuildRouting],
                _ => Seq::empty(),
            }
        }
    }

    /// The state after a piano-roll request.
    pub open spec fn after_piano_roll(self, p: PianoRollAction) -> SessionView {
        let t = self.transport;
        match p {
            PianoRollAction::ToggleNote { pitch, tick, duration, velocity, track } => if track < self.tracks.len() {
                let tr = self.tracks[track as int];
                SessionView {
                    tracks: self.tracks.update(
                        track as int,
                        TrackView {
                            notes: notes_toggled(tr.notes, Note { pitch, tick, duration, velocity }),
                            ..tr
                        },
                    ),
                    ..self
                }
            } else {
                self
            },
            PianoRollAction::PlayStop => SessionView {
                transport: Transport {
                    playing: !t.playing,
                    recording: false,
                    playhead: if t.playing { 0 } else { t.playhead },
                    ..t
                },
                active_notes: if t.playing { Seq::empty() } else { self.active_notes },
                ..self
            },
            PianoRollAction::PlayStopRecord => SessionView {
                transport: Transport {
                    playing: !t.playing,
                    recording: !t.playing,
                    playhead: if t.playing { 0 } else { t.playhead },
                    ..t
                },
                active_notes: if t.playing { Seq::empty() } else { self.active_notes },
                ..self
            },
            PianoRollAction::ToggleLoop => SessionView { transport: Transport { looping: !t.looping, ..t }, ..self },
            PianoRollAction::SetLoopStart(tick) => SessionView {
                transport: Transport { loop_start: tick, ..t },
                ..self
            },
            PianoRollAction::SetLoopEnd(tick) => SessionView { transport: Transport { loop_end: tick, ..t }, ..self },
            PianoRollAction::CycleTimeSig => SessionView {
                transport: Transport { time_signature: spec_next_time_signature(t.time_signature), ..t },
                ..self
            },
            PianoRollAction::TogglePolyMode(idx) => if idx < self.tracks.len() {
                let tr = self.tracks[idx as int];
                SessionView {
                    tracks: self.tracks.update(idx as int, TrackView { polyphonic: !tr.polyphonic, ..tr }),
                    ..self
                }
            } else {
                self
            },
            _ => self,
        }
    }

    /// Whether the session applies `a` itself (the other requests belong to the
    /// panes, the server, the files or the engine's exports).
    pub open spec fn applies(self, a: Action) -> bool {
        match a {
            Action::Mixer(m) => match m {
                MixerAction::Move(_) | MixerAction::Jump(_) | MixerAction::CycleOutput
                | MixerAction::CycleOutputReverse | MixerAction::CycleSection => false,
                _ => true,
            },
            Action::PianoRoll(p) => match p {
                PianoRollAction::RenderToWav(_) | PianoRollAction::BounceToWav | PianoRollAction::ExportStems
                | PianoRollAction::CancelExport => false,
                _ => true,
            },
            _ => false,
        }
    }

    /// The state after `a`.
    pub open spec fn after(self, a: Action) -> SessionView {
        if !self.applies(a) {
            self
        } else {
            match a {
                Action::Mixer(m) => self.after_mixer(m),
                Action::PianoRoll(p) => self.after_piano_roll(p),
                _ => self,
            }
        }
    }

    /// The engine commands after `a`, with the engine running or not.
    pub open spec fn commands(self, a: Action, running: bool) -> Seq<EngineCommand> {
        if !self.applies(a) {
            Seq::empty()
        } else {
            match a {
                Action::Mixer(m) => self.mixer_commands(m, self.after_mixer(m), running),
                Action::PianoRoll(p) => match p {
                    PianoRollAction::PlayStop | PianoRollAction::PlayStopRecord => if self.transport.playing
                        && running {
                        seq![EngineCommand::ReleaseAllVoices]
                    } else {
                        Seq::empty()
                    },
                    _ => Seq::empty(),
                },
                _ => Seq::empty(),
            }
        }
    }
}

/// The position of the first bus with id `id`.
fn bus_position(buses: &Vec<Bus>, id: u8) -> (r: Option<usize>)
    ensures
        match r {
            Some(j) => j < buses@.len() && j == find_bus(buses@, id),
            None => find_bus(buses@, id) == -1,
        },
{
    let ghost p = |b: Bus| b.id == id;
    let mut i: usize = 0;
    while i < buses.len()
        invariant
            i <= buses@.len(),
            p == (|b: Bus| b.id == id),
            forall|j: int| 0 <= j < i ==> !p(#[trigger] buses@[j]),
        decreases buses@.len() - i,
    {
        if buses[i].id == id {
            proof {
                lemma_first_index(buses@, p, i as int);
            }
            return Some(i);
        }
        i = i + 1;
    }
    proof {
        lemma_first_index(buses@, p, i as int);
    }
    None
}

/// The position of the first send to bus `id`.
fn send_position(sends: &Vec<SendLevel>, id: u8) -> (r: Option<usize>)
    ensures
        match r {
            Some(k) => k < sends@.len() && k == find_send(sends@, id),
            None => find_send(sends@, id) == -1,
        },
{
    let ghost p = |x: SendLevel| x.bus_id == id;
    let mut i: usize = 0;
    while i < sends.len()
        invariant
            i <= sends@.len(),
            p == (|x: SendLevel| x.bus_id == id),
            forall|j: int| 0 <= j < i ==> !p(#[trigger] sends@[j]),
        decreases sends@.len() - i,
    {
        if sends[i].bus_id == id {
            proof {
                lemma_first_index(sends@, p, i as int);
            }
            return Some(i);
        }
        i = i + 1;
    }
    proof {
        lemma_first_index(sends@, p, i as int);
    }
    None
}

/// The position of the first note at `pitch` starting at `tick`.
fn note_position(notes: &Vec<Note>, pitch: u8, tick: u32) -> (r: Option<usize>)
    ensures
        match r {
            Some(k) => k < notes@.len() && k == find_note(notes@, pitch, tick),
            None => find_note(notes@, pitch, tick) == -1,
        },
{
    let ghost p = |n: Note| n.pitch == pitch && n.tick == tick;
    let mut i: usize = 0;
    while i < notes.len()
        invariant
            i <= notes@.len(),
            p == (|n: Note| n.pitch == pitch && n.tick == tick),
            forall|j: int| 0 <= j < i ==> !p(#[trigger] notes@[j]),
        decreases notes@.len() - i,
    {
        if notes[i].pitch == pitch && notes[i].tick == tick {
            proof {
                lemma_first_index(notes@, p, i as int);
            }
            return Some(i);
        }
        i = i + 1;
    }
    proof {
        lemma_first_index(notes@, p, i as int);
    }
    None
}

/// A level after a change of `d` hundredths, kept within 0 to 100.
fn level_plus(v: u8, d: i32) -> (r: u8)
    ensures
        r == level_after(v, d),
{
    let x = v as i64 + d as i64;
    if x < 0 {
        0
    } else if x > 100 {
        100
    } else {
        x as u8
    }
}

/// A pan after a change of `d` hundredths, kept within -100 to 100.
fn pan_plus(v: i8, d: i32) -> (r: i8)
    ensures
        r == pan_after(v, d),
{
    let x = v as i64 + d as i64;
    if x < -100 {
        -100
    } else if x > 100 {
        100
    } else {
        x as i8
    }
}

impl SessionState {
    /// Whether some channel or bus is soloed.
    pub fn any_solo(&self) -> (r: bool)
        ensures
            r == self@.any_solo(),
    {
        let mut i: usize = 0;
        while i < self.channels.len()
            invariant
                i <= self.channels@.len(),
                forall|j: int| 0 <= j < i ==> !(#[trigger] self.channels@[j]).solo,
            decreases self.channels@.len() - i,
        {
            if self.channels[i].solo {
                assert(self@.channels[i as int].solo);
                return true;
            }
            i = i + 1;
        }
        let mut k: usize = 0;
        while k < self.buses.len()
            invariant
                k <= self.buses@.len(),
                forall|j: int| 0 <= j < k ==> !(#[trigger] self.buses@[j]).solo,
            decreases self.buses@.len() - k,
        {
            if self.buses[k].solo {
                assert(self@.buses[k as int].solo);
                return true;
            }
            k = k + 1;
        }
        assert(!(exists|i: int| 0 <= i < self@.channels.len() && #[trigger] self@.channels[i].solo)) by {
            assert forall|i: int| 0 <= i < self@.channels.len() implies !#[trigger] self@.channels[i].solo by {
                assert(self@.channels[i] == self.channels@[i]@);
            }
        }
        false
    }

    /// The engine command that brings bus `b` up to date.
    fn bus_update(&self, b: Bus) -> (r: EngineCommand)
        ensures
            r == self@.bus_update(b),
    {
        let solo = self.any_solo();
        EngineCommand::SetBusMixer { bus: b.id, level: b.level, mute: b.mute || (solo && !b.solo), pan: b.pan }
    }
}

impl SessionView {
    /// Every level and send level is within 0 to 100 hundredths, every pan
    /// within -100 to 100.
    pub open spec fn levels_in_range(self) -> bool {
        &&& self.master_level <= 100
        &&& forall|i: int| 0 <= i < self.channels.len() ==> channel_in_range(#[trigger] self.channels[i])
        &&& forall|j: int| 0 <= j < self.buses.len() ==> {
            let b = #[trigger] self.buses[j];
            b.level <= 100 && -100 <= b.pan <= 100
        }
    }
}

/// A channel whose level, pan and send levels are in range.
pub open spec fn channel_in_range(c: ChannelView) -> bool {
    &&& c.level <= 100
    &&& -100 <= c.pan <= 100
    &&& forall|k: int| 0 <= k < c.sends.len() ==> (#[trigger] c.sends[k]).level <= 100
}

proof fn lemma_with_channel_in_range(v: SessionView, i: usize, c: ChannelView)
    requires
        v.levels_in_range(),
        channel_in_range(c),
    ensures
        v.with_channel(i, c).levels_in_range(),
{
    let n = v.with_channel(i, c);
    assert forall|q: int| 0 <= q < n.channels.len() implies channel_in_range(#[trigger] n.channels[q]) by {
        if q != i {
            assert(n.channels[q] == v.channels[q]);
        }
    }
}

proof fn lemma_with_bus_in_range(v: SessionView, id: u8, b: Bus)
    requires
        v.levels_in_range(),
        b.level <= 100 && -100 <= b.pan <= 100,
    ensures
        v.with_bus(id, b).levels_in_range(),
{
    lemma_first_index_in_bounds(v.buses, |x: Bus| x.id == id);
}

/// No request takes a level, a send level or a pan out of its range.
pub proof fn lemma_after_keeps_levels_in_range(v: SessionView, a: Action)
    requires
        v.levels_in_range(),
    ensures
        v.after(a).levels_in_range(),
{
    match a {
        Action::Mixer(m) => {
            match v.selection {
                MixerSelection::Instrument(i) => {
                    if i < v.channels.len() {
                        let c = v.channels[i as int];
                        assert(channel_in_range(c));
                        match m {
                            MixerAction::AdjustLevel(d) => lemma_with_channel_in_range(v, i, ChannelView { level: level_after(c.level, d), ..c }),
                            MixerAction::AdjustPan(d) => lemma_with_channel_in_range(v, i, ChannelView { pan: pan_after(c.pan, d), ..c }),
                            MixerAction::ToggleMute => lemma_with_channel_in_range(v, i, ChannelView { mute: !c.mute, ..c }),
                            MixerAction::ToggleSolo => lemma_with_channel_in_range(v, i, ChannelView { solo: !c.solo, ..c }),
                            MixerAction::AdjustSend(bus, d) => {
                                let k = find_send(c.sends, bus);
                                lemma_first_index_in_bounds(c.sends, |x: SendLevel| x.bus_id == bus);
                                if k >= 0 {
                                    let x = c.sends[k];
                                    let c2 = ChannelView { sends: c.sends.update(k, SendLevel { level: level_after(x.level, d), ..x }), ..c };
                                    assert(channel_in_range(c2));
                                    lemma_with_channel_in_range(v, i, c2);
                                }
                            },
                            MixerAction::ToggleSend(bus) => {
                                let k = find_send(c.sends, bus);
                                lemma_first_index_in_bounds(c.sends, |x: SendLevel| x.bus_id == bus);
                                if k >= 0 {
                                    let x = c.sends[k];
                                    let on = !x.enabled;
                                    let level = if on && x.level == 0 { 50u8 } else { x.level };
                                    let c2 = ChannelView { sends: c.sends.update(k, SendLevel { enabled: on, level, ..x }), ..c };
                                    assert(channel_in_range(c2));
                                    lemma_with_channel_in_range(v, i, c2);
                                }
                            },
                            _ => {},
                        }
                    }
                },
                MixerSelection::Bus(id) => {
                    let j = find_bus(v.buses, id);
                    lemma_first_index_in_bounds(v.buses, |x: Bus| x.id == id);
                    if j >= 0 {
                        let b = v.buses[j];
                        match m {
                            MixerAction::AdjustLevel(d) => lemma_with_bus_in_range(v, id, Bus { level: level_after(b.level, d), ..b }),
                            MixerAction::AdjustPan(d) => lemma_with_bus_in_range(v, id, Bus { pan: pan_after(b.pan, d), ..b }),
                            MixerAction::ToggleMute => lemma_with_bus_in_range(v, id, Bus { mute: !b.mute, ..b }),
                            MixerAction::ToggleSolo => lemma_with_bus_in_range(v, id, Bus { solo: !b.solo, ..b }),
                            _ => {},
                        }
                    }
                },
                _ => {},
            }
        },
        _ => {},
    }
}

/// With a bus selected, the first bus with the selected id (at `j`) is the one
/// a level, pan, mute or solo request changes: its level moves by the change
/// and stops at 0 and 100, its pan moves and stops at -100 and 100, a toggle
/// flips its mute or solo, and nothing else of it changes. No other bus, no
/// channel and neither master setting changes. With the engine running, the
/// bus's new level, pan and mute as heard are sent, then the routing is
/// rebuilt; a stopped engine is sent nothing.
pub proof fn lemma_mixer_changes_selected_bus(v: SessionView, m: MixerAction, j: int, running: bool)
    requires
        0 <= j < v.buses.len(),
        v.selection == MixerSelection::Bus(v.buses[j].id),
        forall|k: int| 0 <= k < j ==> (#[trigger] v.buses[k]).id != v.buses[j].id,
        m is AdjustLevel || m is AdjustPan || m is ToggleMute || m is ToggleSolo,
    ensures
        ({
            let w = v.after(Action::Mixer(m));
            let (b, nb) = (v.buses[j], w.buses[j]);
            &&& w.channels == v.channels
            &&& w.master_level == v.master_level
            &&& w.master_mute == v.master_mute
            &&& w.selection == v.selection
            &&& w.tracks == v.tracks
            &&& w.buses.len() == v.buses.len()
            &&& forall|k: int| 0 <= k < v.buses.len() && k != j ==> #[trigger] w.buses[k] == v.buses[k]
            &&& nb.id == b.id
            &&& match m {
                MixerAction::AdjustLevel(d) => {
                    &&& nb.pan == b.pan && nb.mute == b.mute && nb.solo == b.solo
                    &&& (0 <= b.level + d <= 100 ==> nb.level == b.level + d)
                    &&& (b.level + d < 0 ==> nb.level == 0)
                    &&& (b.level + d > 100 ==> nb.level == 100)
                },
                MixerAction::AdjustPan(d) => {
                    &&& nb.level == b.level && nb.mute == b.mute && nb.solo == b.solo
                    &&& (-100 <= b.pan + d <= 100 ==> nb.pan == b.pan + d)
                    &&& (b.pan + d < -100 ==> nb.pan == -100)
                    &&& (b.pan + d > 100 ==> nb.pan == 100)
                },
                MixerAction::ToggleMute => nb == (Bus { mute: !b.mute, ..b }),
                _ => nb == (Bus { solo: !b.solo, ..b }),
            }
            &&& !running ==> v.commands(Action::Mixer(m), running) == Seq::<EngineCommand>::empty()
            &&& (running && !(m is ToggleSolo)) ==> v.commands(Action::Mixer(m), running) == seq![
                EngineCommand::SetBusMixer {
                    bus: b.id,
                    level: nb.level,
                    mute: nb.mute || (w.any_solo() && !nb.solo),
                    pan: nb.pan,
                },
                EngineCommand::RebuildRouting,
            ]
        }),
{
    let id = v.buses[j].id;
    lemma_first_index(v.buses, |x: Bus| x.id == id, j);
    let w = v.after(Action::Mixer(m));
    assert(w.buses[j].id == id);
    assert forall|k: int| 0 <= k < j implies !((|x: Bus| x.id == id)(#[trigger] w.buses[k])) by {
        assert(w.buses[k] == v.buses[k]);
    }
    lemma_first_index(w.buses, |x: Bus| x.id == id, j);
}

/// With a bus selected that no bus has the id of, a level, pan, mute or solo
/// request changes nothing; a running engine is only asked to rebuild the
/// routing (after a solo change, also to bring every bus up to date).
pub proof fn lemma_mixer_missing_bus(v: SessionView, m: MixerAction, id: u8, running: bool)
    requires
        v.selection == MixerSelection::Bus(id),
        forall|k: int| 0 <= k < v.buses.len() ==> (#[trigger] v.buses[k]).id != id,
        m is AdjustLevel || m is AdjustPan || m is ToggleMute || m is ToggleSolo,
    ensures
        v.after(Action::Mixer(m)) == v,
        (running && !(m is ToggleSolo)) ==> v.commands(Action::Mixer(m), running) == seq![EngineCommand::RebuildRouting],
{
    lemma_first_index(v.buses, |x: Bus| x.id == id, v.buses.len() as int);
}

/// With an instrument selected that has a channel, a level, pan, mute or solo
/// request changes that channel alone, in the one setting it names: the level
/// moves by the change and stops at 0 and 100, the pan stops at -100 and 100,
/// a toggle flips mute or solo. The buses and the master stay; a running engine
/// is asked to rebuild the routing.
pub proof fn lemma_mixer_changes_selected_channel(v: SessionView, m: MixerAction, i: usize, running: bool)
    requires
        i < v.channels.len(),
        v.selection == MixerSelection::Instrument(i),
        m is AdjustLevel || m is AdjustPan || m is ToggleMute || m is ToggleSolo,
    ensures
        ({
            let w = v.after(Action::Mixer(m));
            let (c, nc) = (v.channels[i as int], w.channels[i as int]);
            &&& w.buses == v.buses
            &&& w.master_level == v.master_level
            &&& w.master_mute == v.master_mute
            &&& w.tracks == v.tracks
            &&& w.channels.len() == v.channels.len()
            &&& forall|k: int| 0 <= k < v.channels.len() && k != i ==> #[trigger] w.channels[k] == v.channels[k]
            &&& nc.id == c.id && nc.sends == c.sends
            &&& match m {
                MixerAction::AdjustLevel(d) => {
                    &&& nc.pan == c.pan && nc.mute == c.mute && nc.solo == c.solo
                    &&& (0 <= c.level + d <= 100 ==> nc.level == c.level + d)
                    &&& (c.level + d < 0 ==> nc.level == 0)
                    &&& (c.level + d > 100 ==> nc.level == 100)
                },
                MixerAction::AdjustPan(d) => {
                    &&& nc.level == c.level && nc.mute == c.mute && nc.solo == c.solo
                    &&& (-100 <= c.pan + d <= 100 ==> nc.pan == c.pan + d)
                    &&& (c.pan + d < -100 ==> nc.pan == -100)
                    &&& (c.pan + d > 100 ==> nc.pan == 100)
                },
                MixerAction::ToggleMute => nc.level == c.level && nc.pan == c.pan && nc.mute == !c.mute
                    && nc.solo == c.solo,
                _ => nc.level == c.level && nc.pan == c.pan && nc.mute == c.mute && nc.solo == !c.solo,
            }
            &&& (running && !(m is ToggleSolo)) ==> v.commands(Action::Mixer(m), running) == seq![EngineCommand::RebuildRouting]
        }),
{
}

/// With an instrument selected, a send request changes the channel's first
/// send to the named bus (at `k`) alone: a level change moves its level and
/// stops at 0 and 100; a toggle flips it on or off, and a send switched on at
/// level 0 comes on at 50. Every other send, channel and bus stays.
pub proof fn lemma_mixer_changes_send(v: SessionView, m: MixerAction, i: usize, k: int)
    requires
        i < v.channels.len(),
        v.selection == MixerSelection::Instrument(i),
        0 <= k < v.channels[i as int].sends.len(),
        m == MixerAction::AdjustSend(v.channels[i as int].sends[k].bus_id, m->AdjustSend_1)
            || m == MixerAction::ToggleSend(v.channels[i as int].sends[k].bus_id),
        forall|q: int| 0 <= q < k ==> (#[trigger] v.channels[i as int].sends[q]).bus_id
            != v.channels[i as int].sends[k].bus_id,
    ensures
        ({
            let w = v.after(Action::Mixer(m));
            let (c, nc) = (v.channels[i as int], w.channels[i as int]);
            let (s, ns) = (c.sends[k], nc.sends[k]);
            &&& w.buses == v.buses
            &&& w.master_level == v.master_level
            &&& w.master_mute == v.master_mute
            &&& w.channels.len() == v.channels.len()
            &&& forall|q: int| 0 <= q < v.channels.len() && q != i ==> #[trigger] w.channels[q] == v.channels[q]
            &&& nc.id == c.id && nc.level == c.level && nc.pan == c.pan && nc.mute == c.mute && nc.solo == c.solo
            &&& nc.sends.len() == c.sends.len()
            &&& forall|q: int| 0 <= q < c.sends.len() && q != k ==> #[trigger] nc.sends[q] == c.sends[q]
            &&& ns.bus_id == s.bus_id
            &&& match m {
                MixerAction::AdjustSend(_, d) => {
                    &&& ns.enabled == s.enabled
                    &&& (0 <= s.level + d <= 100 ==> ns.level == s.level + d)
                    &&& (s.level + d < 0 ==> ns.level == 0)
                    &&& (s.level + d > 100 ==> ns.level == 100)
                },
                _ => {
                    &&& ns.enabled == !s.enabled
                    &&& ns.level == if !s.enabled && s.level == 0 { 50 } else { s.level }
                },
            }
        }),
{
    let bus = v.channels[i as int].sends[k].bus_id;
    lemma_first_index(v.channels[i as int].sends, |x: SendLevel| x.bus_id == bus, k);
}

/// With the master selected, a level request moves the master level by the
/// change, stopping at 0 and 100, and a mute request flips the master mute;
/// no channel or bus changes.
pub proof fn lemma_mixer_changes_master(v: SessionView, m: MixerAction)
    requires
        v.selection == MixerSelection::Master,
        m is AdjustLevel || m is ToggleMute,
    ensures
        ({
            let w = v.after(Action::Mixer(m));
            &&& w.channels == v.channels
            &&& w.buses == v.buses
            &&& w.tracks == v.tracks
            &&& match m {
                MixerAction::AdjustLevel(d) => {
                    &&& w.master_mute == v.master_mute
                    &&& (0 <= v.master_level + d <= 100 ==> w.master_level == v.master_level + d)
                    &&& (v.master_level + d < 0 ==> w.master_level == 0)
                    &&& (v.master_level + d > 100 ==> w.master_level == 100)
                },
                _ => w.master_level == v.master_level && w.master_mute == !v.master_mute,
            }
        }),
{
}

/// The first index that satisfies a predicate, when there is one, lies in the sequence.
proof fn lemma_first_index_in_bounds<T>(s: Seq<T>, p: spec_fn(T) -> bool)
    ensures
        -1 <= first_index(s, p) < s.len(),
    decreases s.len(),
{
    if s.len() > 0 {
        lemma_first_index_in_bounds(s.drop_last(), p);
    }
}

/// Putting a channel back where one was taken out replaces it.
proof fn lemma_channel_replaced(s: Seq<Channel>, i: int, c: Channel)
    requires
        0 <= i < s.len(),
    ensures
        s.remove(i).insert(i, c).map_values(|x: Channel| x@) == s.map_values(|x: Channel| x@).update(i, c@),
{
    assert(s.remove(i).insert(i, c) =~= s.update(i, c));
    assert(s.update(i, c).map_values(|x: Channel| x@) =~= s.map_values(|x: Channel| x@).update(i, c@));
}

impl SessionState {
    /// Channel `i` with one field changed: the level, the pan, mute or solo.
    fn change_channel(&mut self, i: usize, m: MixerAction)
        requires
            i < old(self).channels@.len(),
            m matches MixerAction::AdjustLevel(_) || m matches MixerAction::AdjustPan(_) || m == MixerAction::ToggleMute
                || m == MixerAction::ToggleSolo,
        ensures
            ({
                let c = old(self)@.channels[i as int];
                final(self)@ == old(self)@.with_channel(
                    i,
                    match m {
                        MixerAction::AdjustLevel(d) => ChannelView { level: level_after(c.level, d), ..c },
                        MixerAction::AdjustPan(d) => ChannelView { pan: pan_after(c.pan, d), ..c },
                        MixerAction::ToggleMute => ChannelView { mute: !c.mute, ..c },
                        _ => ChannelView { solo: !c.solo, ..c },
                    },
                )
            }),
    {
        let ghost before = self.channels@;
        let mut c = self.channels.remove(i);
        match m {
            MixerAction::AdjustLevel(d) => c.level = level_plus(c.level, d),
            MixerAction::AdjustPan(d) => c.pan = pan_plus(c.pan, d),
            MixerAction::ToggleMute => c.mute = !c.mute,
            _ => c.solo = !c.solo,
        }
        self.channels.insert(i, c);
        proof {
            lemma_channel_replaced(before, i as int, c);
            assert(self@.channels =~= old(self)@.channels.update(i as int, c@));
        }
    }

    /// Changes the send to bus `bus` of channel `i`: its level by `d`, or (with
    /// `d` absent) switches it on or off, a send switched on at level 0 going to 50.
    fn change_send(&mut self, i: usize, bus: u8, d: Option<i32>)
        requires
            i < old(self).channels@.len(),
        ensures
            ({
                let o = old(self)@;
                let c = o.channels[i as int];
                let k = find_send(c.sends, bus);
                final(self)@ == if k >= 0 {
                    let x = c.sends[k];
                    let changed = match d {
                        Some(d) => SendLevel { level: level_after(x.level, d), ..x },
                        None => SendLevel {
                            enabled: !x.enabled,
                            level: if !x.enabled && x.level == 0 { 50u8 } else { x.level },
                            ..x
                        },
                    };
                    o.with_channel(i, ChannelView { sends: c.sends.update(k, changed), ..c })
                } else {
                    o
                }
            }),
    {
        let ghost before = self.channels@;
        assert(old(self)@.channels[i as int] == self.channels@[i as int]@);
        match send_position(&self.channels[i].sends, bus) {
            Some(k) => {
                let mut c = self.channels.remove(i);
                let x = c.sends[k];
                let changed = match d {
                    Some(d) => SendLevel { level: level_plus(x.level, d), ..x },
                    None => {
                        let on = !x.enabled;
                        SendLevel { enabled: on, level: if on && x.level == 0 { 50 } else { x.level }, ..x }
                    },
                };
                c.sends.set(k, changed);
                self.channels.insert(i, c);
                proof {
                    lemma_channel_replaced(before, i as int, c);
                    assert(self@.channels =~= old(self)@.channels.update(i as int, c@));
                }
            },
            None => {
                assert(self@.channels =~= old(self)@.channels);
                assert(self@.tracks =~= old(self)@.tracks);
            },
        }
    }

    /// Bus `j` replaced by `b`.
    fn put_bus(&mut self, j: usize, b: Bus)
        requires
            j < old(self).buses@.len(),
        ensures
            final(self)@ == (SessionView { buses: old(self)@.buses.update(j as int, b), ..old(self)@ }),
    {
        self.buses.set(j, b);
        assert(self@.channels =~= old(self)@.channels);
        assert(self@.tracks =~= old(self)@.tracks);
    }

    /// The bus updates of every bus, in order.
    fn all_bus_updates(&self) -> (r: Vec<EngineCommand>)
        ensures
            r@ == Seq::new(self@.buses.len(), |j: int| self@.bus_update(self@.buses[j])),
    {
        let mut r: Vec<EngineCommand> = Vec::new();
        let mut k: usize = 0;
        while k < self.buses.len()
            invariant
                k <= self.buses@.len(),
                r@ == Seq::new(k as nat, |j: int| self@.bus_update(self@.buses[j])),
            decreases self.buses@.len() - k,
        {
            r.push(self.bus_update(self.buses[k]));
            k = k + 1;
            assert(r@ =~= Seq::new(k as nat, |j: int| self@.bus_update(self@.buses[j])));
        }
        r
    }
}

impl SessionState {
    /// Applies a mixer request: the selected channel, bus or master (or the
    /// selected instrument's send) changes; with the engine running, the changed
    /// bus (every bus after a solo change) is brought up to date and the routing
    /// rebuilt.
    pub fn apply_mixer(&mut self, m: MixerAction, running: bool) -> (cmds: Vec<EngineCommand>)
        ensures
            final(self)@ == old(self)@.after_mixer(m),
            cmds@ == old(self)@.mixer_commands(m, old(self)@.after_mixer(m), running),
    {
        let mut cmds: Vec<EngineCommand> = Vec::new();
        match m {
            MixerAction::AdjustLevel(_) | MixerAction::AdjustPan(_) | MixerAction::ToggleMute | MixerAction::ToggleSolo => {
                match self.selection {
                    MixerSelection::Instrument(i) => {
                        if i < self.channels.len() {
                            self.change_channel(i, m);
                        }
                    },
                    MixerSelection::Bus(id) => {
                        match bus_position(&self.buses, id) {
                            Some(j) => {
                                let b = self.buses[j];
                                let nb = match m {
                                    MixerAction::AdjustLevel(d) => Bus { level: level_plus(b.level, d), ..b },
                                    MixerAction::AdjustPan(d) => Bus { pan: pan_plus(b.pan, d), ..b },
                                    MixerAction::ToggleMute => Bus { mute: !b.mute, ..b },
                                    _ => Bus { solo: !b.solo, ..b },
                                };
                                self.put_bus(j, nb);
                            },
                            None => {},
                        }
                    },
                    MixerSelection::Master => {
                        match m {
                            MixerAction::AdjustLevel(d) => self.master_level = level_plus(self.master_level, d),
                            MixerAction::ToggleMute => self.master_mute = !self.master_mute,
                            _ => {},
                        }
                        assert(self@.channels =~= old(self)@.channels);
                        assert(self@.tracks =~= old(self)@.tracks);
                    },
                }
                if running {
                    if let MixerAction::ToggleSolo = m {
                        cmds = self.all_bus_updates();
                    } else {
                        match self.selection {
                            MixerSelection::Bus(id) => match bus_position(&self.buses, id) {
                                Some(j) => cmds.push(self.bus_update(self.buses[j])),
                                None => {},
                            },
                            _ => {},
                        }
                    }
                    cmds.push(EngineCommand::RebuildRouting);
                }
            },
            MixerAction::AdjustSend(bus, d) => {
                match self.selection {
                    MixerSelection::Instrument(i) => {
                        if i < self.channels.len() {
                            self.change_send(i, bus, Some(d));
                        }
                    },
                    _ => {},
                }
            },
            MixerAction::ToggleSend(bus) => {
                match self.selection {
                    MixerSelection::Instrument(i) => {
                        if i < self.channels.len() {
                            self.change_send(i, bus, None);
                        }
                    },
                    _ => {},
                }
                if running {
                    cmds.push(EngineCommand::RebuildRouting);
                }
            },
            MixerAction::SelectAt(sel) => {
                self.selection = sel;
                assert(self@.channels =~= old(self)@.channels);
                assert(self@.tracks =~= old(self)@.tracks);
            },
            _ => {},
        }
        proof {
            let n = old(self)@.after_mixer(m);
            assert(cmds@ =~= old(self)@.mixer_commands(m, n, running));
        }
        cmds
    }
}

/// Putting a track back where one was taken out replaces it.
proof fn lemma_track_replaced(s: Seq<Track>, i: int, t: Track)
    requires
        0 <= i < s.len(),
    ensures
        s.remove(i).insert(i, t).map_values(|x: Track| x@) == s.map_values(|x: Track| x@).update(i, t@),
{
    assert(s.remove(i).insert(i, t) =~= s.update(i, t));
    assert(s.update(i, t).map_values(|x: Track| x@) =~= s.map_values(|x: Track| x@).update(i, t@));
}

impl SessionState {
    /// Applies a piano-roll request: a note placed or removed on a track, the
    /// transport switched, the loop points set, the time signature cycled, a
    /// track's voice mode switched. Stopping clears the sounding notes and, with
    /// the engine running, releases every voice.
    pub fn apply_piano_roll(&mut self, p: PianoRollAction, running: bool) -> (cmds: Vec<EngineCommand>)
        requires
            old(self)@.applies(Action::PianoRoll(p)),
        ensures
            final(self)@ == old(self)@.after_piano_roll(p),
            cmds@ == old(self)@.commands(Action::PianoRoll(p), running),
    {
        let mut cmds: Vec<EngineCommand> = Vec::new();
        match p {
            PianoRollAction::ToggleNote { pitch, tick, duration, velocity, track } => {
                if track < self.tracks.len() {
                    let ghost before = self.tracks@;
                    let mut t = self.tracks.remove(track);
                    let ghost notes = t.notes@;
                    match note_position(&t.notes, pitch, tick) {
                        Some(k) => {
                            t.notes.remove(k);
                        },
                        None => {
                            t.notes.push(Note { pitch, tick, duration, velocity });
                        },
                    }
                    assert(t.notes@ =~= notes_toggled(notes, Note { pitch, tick, duration, velocity }));
                    self.tracks.insert(track, t);
                    proof {
                        lemma_track_replaced(before, track as int, t);
                        assert(old(self)@.tracks[track as int] == before[track as int]@);
                        assert(self@.tracks =~= old(self)@.tracks.update(track as int, t@));
                        assert(self@.channels =~= old(self)@.channels);
                    }
                }
            },
            PianoRollAction::PlayStop | PianoRollAction::PlayStopRecord => {
                let silence = match p {
                    PianoRollAction::PlayStop => self.transport.play_stop(),
                    _ => self.transport.play_stop_record(),
                };
                if silence {
                    self.active_notes.clear();
                    if running {
                        cmds.push(EngineCommand::ReleaseAllVoices);
                    }
                }
                assert(self@.channels =~= old(self)@.channels);
                assert(self@.tracks =~= old(self)@.tracks);
            },
            PianoRollAction::ToggleLoop => {
                self.transport.toggle_loop();
                assert(self@.channels =~= old(self)@.channels);
                assert(self@.tracks =~= old(self)@.tracks);
            },
            PianoRollAction::SetLoopStart(tick) => {
                self.transport.loop_start = tick;
                assert(self@.channels =~= old(self)@.channels);
                assert(self@.tracks =~= old(self)@.tracks);
            },
            PianoRollAction::SetLoopEnd(tick) => {
                self.transport.loop_end = tick;
                assert(self@.channels =~= old(self)@.channels);
                assert(self@.tracks =~= old(self)@.tracks);
            },
            PianoRollAction::CycleTimeSig => {
                self.transport.cycle_time_signature();
                assert(self@.channels =~= old(self)@.channels);
                assert(self@.tracks =~= old(self)@.tracks);
            },
            PianoRollAction::TogglePolyMode(idx) => {
                if idx < self.tracks.len() {
                    let ghost before = self.tracks@;
                    let mut t = self.tracks.remove(idx);
                    t.polyphonic = !t.polyphonic;
                    self.tracks.insert(idx, t);
                    proof {
                        lemma_track_replaced(before, idx as int, t);
                        assert(old(self)@.tracks[idx as int] == before[idx as int]@);
                        assert(self@.tracks =~= old(self)@.tracks.update(idx as int, t@));
                        assert(self@.channels =~= old(self)@.channels);
                    }
                }
            },
            _ => {},
        }
        cmds
    }

    /// Applies `a` when the session holds what it changes (mixer and piano-roll
    /// requests; moving the mixer selection, cycling outputs or sections and the
    /// exports are not among them) and returns the engine's commands; any other
    /// request leaves the session as it is and asks nothing.
    pub fn apply_action(&mut self, a: &Action, running: bool) -> (cmds: Vec<EngineCommand>)
        ensures
            final(self)@ == old(self)@.after(*a),
            cmds@ == old(self)@.commands(*a, running),
    {
        match a {
            Action::Mixer(m) => match m {
                MixerAction::Move(_) | MixerAction::Jump(_) | MixerAction::CycleOutput
                | MixerAction::CycleOutputReverse | MixerAction::CycleSection => Vec::new(),
                _ => self.apply_mixer(*m, running),
            },
            Action::PianoRoll(p) => match p {
                PianoRollAction::RenderToWav(_) | PianoRollAction::BounceToWav | PianoRollAction::ExportStems
                | PianoRollAction::CancelExport => Vec::new(),
                _ => self.apply_piano_roll(*p, running),
            },
            _ => Vec::new(),
        }
    }

    /// Switches the master mute; with the engine running the routing is rebuilt.
    pub fn toggle_master_mute(&mut self, running: bool) -> (cmds: Vec<EngineCommand>)
        ensures
            final(self)@ == (SessionView { master_mute: !old(self).master_mute, ..old(self)@ }),
            cmds@ == if running { seq![EngineCommand::RebuildRouting] } else { Seq::<EngineCommand>::empty() },
    {
        let old_selection = self.selection;
        self.selection = MixerSelection::Master;
        let cmds = self.apply_mixer(MixerAction::ToggleMute, running);
        self.selection = old_selection;
        assert(self@.channels =~= old(self)@.channels);
        assert(self@.tracks =~= old(self)@.tracks);
        cmds
    }
}

} // verus!
