//! What a pane asks the application to do after handling a key or mouse event.
//!
//! Continuous amounts (levels, pans, parameter nudges) travel as signed integer
//! steps; the application turns them into audio parameter changes.

use vstd::prelude::*;
use crate::effects::EffectType;

verus! {

/// Pane-stack navigation.
#[derive(Debug, Clone, Copy)]
pub enum NavAction {
    PopPane,
    PushPane(&'static str),
    /// Replace the active pane.
    SwitchPane(&'static str),
}

/// Piano-roll editing and transport requests.
#[derive(Debug, Clone, Copy)]
pub enum PianoRollAction {
    ToggleNote { pitch: u8, tick: u32, duration: u32, velocity: u8, track: usize },
    PlayStop,
    PlayStopRecord,
    ToggleLoop,
    SetLoopStart(u32),
    SetLoopEnd(u32),
    CycleTimeSig,
    TogglePolyMode(usize),
    RenderToWav(u32),
    BounceToWav,
    ExportStems,
    CancelExport,
}

/// What the mixer currently highlights.
#[derive(Debug, Clone, Copy, PartialEq, Eq)]
pub enum MixerSelection {
    Instrument(usize),
    Bus(u8),
    Master,
}

/// Mixer requests. Level, send and pan changes are in hundredths of full scale.
#[derive(Debug, Clone, Copy)]
pub enum MixerAction {
    Move(i8),
    Jump(i8),
    AdjustLevel(i32),
    AdjustSend(u8, i32),
    AdjustPan(i32),
    ToggleMute,
    ToggleSolo,
    CycleOutput,
    CycleOutputReverse,
    CycleSection,
    ToggleSend(u8),
    SelectAt(MixerSelection),
}

/// How far one EQ nudge goes.
#[derive(Debug, Clone, Copy, PartialEq, Eq)]
pub enum StepSize {
    Tiny,
    Normal,
    Big,
}

/// Requests that change one instrument. Parameter nudges are signed step counts.
#[derive(Debug, Clone, Copy)]
pub enum InstrumentAction {
    AddEffect(u32, EffectType),
    RemoveEffect(u32, usize),
    ToggleEffectBypass(u32, usize),
    MoveEffect(u32, usize, i8),
    AdjustEffectParam(u32, usize, usize, i32),
    ToggleFilter(u32),
    CycleFilterType(u32),
    AdjustFilterCutoff(u32, i32),
    AdjustFilterResonance(u32, i32),
    ToggleEq(u32),
    AdjustEqParam { instrument: u32, band: usize, param: usize, increase: bool, step: StepSize },
    SetEqBandEnabled { instrument: u32, band: usize, enabled: bool },
    /// Apply the instrument editor's current edits to this instrument.
    Update(u32),
}

/// MIDI input requests.
#[derive(Debug, Clone, Copy)]
pub enum MidiAction {
    ConnectPort(usize),
    DisconnectPort,
    RemoveCcMapping { cc: u8, channel: Option<u8> },
    ToggleNotePassthrough,
    SetChannelFilter(Option<u8>),
    SetLiveInputInstrument(Option<u32>),
}

/// Audio server requests.
#[derive(Debug, Clone)]
pub enum ServerAction {
    Start { input_device: Option<String>, output_device: Option<String> },
    Restart { input_device: Option<String>, output_device: Option<String> },
    Stop,
    Connect,
    Disconnect,
    CompileSynthDefs,
    CompileVstSynthDefs,
    LoadSynthDefs,
    RecordMaster,
}

/// Which file the file browser should pick.
#[derive(Debug, Clone, Copy, PartialEq, Eq)]
pub enum FileSelectAction {
    ImportVstEffect,
    LoadPitchedSample(u32),
}

/// Project-level requests. Paths are file names as text.
#[derive(Debug, Clone)]
pub enum SessionAction {
    NewProject,
    Load,
    LoadFrom(String),
    SaveAs(String),
    OpenFileBrowser(FileSelectAction),
}

/// VST parameter requests; nudges are in hundredths of the parameter range.
#[derive(Debug, Clone, Copy)]
pub enum VstParamAction {
    AdjustParam(u32, u32, i32),
    ResetParam(u32, u32),
    DiscoverParams(u32),
}

/// What an automation lane drives.
#[derive(Debug, Clone, Copy, PartialEq, Eq)]
pub enum AutomationTarget {
    /// A parameter of an instrument, by its position in the instrument's target list.
    Instrument(u32, u32),
    /// A send of an instrument, by position.
    SendLevel(u32, usize),
    /// The level of a mixer bus.
    BusLevel(u8),
    /// The tempo.
    Bpm,
    /// A parameter of an instrument's VST plugin, by the plugin's index.
    VstParam(u32, u32),
}

/// The shape of an automation curve after a point.
#[derive(Debug, Clone, Copy, PartialEq, Eq, Structural)]
pub enum CurveType {
    Linear,
    Exponential,
    Step,
    SCurve,
}

/// Automation requests. Lanes are named by id; values are in hundredths of the
/// target's range.
#[derive(Debug, Clone, Copy)]
pub enum AutomationAction {
    AddLane(AutomationTarget),
    RemoveLane(u32),
    ToggleLaneEnabled(u32),
    /// Move the lane selection by this many lanes.
    SelectLane(i8),
    AddPoint(u32, u32, u8),
    RemovePoint(u32, u32),
    SetCurveType(u32, u32, CurveType),
    ClearLane(u32),
    ToggleRecording,
}

/// Arrangement (track view) requests. Ids name instruments, clips and placements.
#[derive(Debug, Clone, Copy)]
pub enum ArrangementAction {
    SelectLane(usize),
    /// Move the cursor by this many columns.
    MoveCursor(i32),
    CaptureClipFromPianoRoll { instrument_id: u32 },
    CreateClip { instrument_id: u32, length_ticks: u32 },
    PlaceClip { clip_id: u32, instrument_id: u32, start_tick: u32 },
    EnterClipEdit(u32),
    RemovePlacement(u32),
    DeleteClip(u32),
    DuplicatePlacement(u32),
    MovePlacement { placement_id: u32, new_start_tick: u32 },
    SelectPlacement(Option<usize>),
    TogglePlayMode,
    PlayStop,
    ZoomIn,
    ZoomOut,
}

/// The result of handling one event in a pane.
#[derive(Debug, Clone)]
pub enum Action {
    NoOp,
    Quit,
    /// Push an input layer (such as text editing) on the key-handling stack.
    PushLayer(&'static str),
    Nav(NavAction),
    PianoRoll(PianoRollAction),
    Mixer(MixerAction),
    Instrument(InstrumentAction),
    Midi(MidiAction),
    Server(ServerAction),
    Session(SessionAction),
    VstParam(VstParamAction),
    Automation(AutomationAction),
    Arrangement(ArrangementAction),
    /// Strip list requests (a strip is a channel of the rack: source, filter,
    /// effects and envelope).
    Strip(StripAction),
}

/// The oscillator of a strip.
#[derive(Debug, Clone, Copy, PartialEq, Eq, Structural)]
pub enum OscType {
    Saw,
    Sin,
    Sqr,
    Tri,
}

/// Strip and rack requests.
#[derive(Debug, Clone, Copy)]
pub enum StripAction {
    Add(OscType),
    Edit(u32),
    Delete(u32),
    /// Apply the strip editor's edits to this strip.
    Update(u32),
    SaveRack,
    LoadRack,
}

} // verus!
