//! Audio effect kinds that can be inserted in an instrument's effect chain.

use vstd::prelude::*;

verus! {

/// An effect kind; `Vst` names an imported plugin by its registry id.
#[derive(Debug, Clone, Copy, PartialEq, Eq, Structural)]
pub enum EffectType {
    TapeComp,
    SidechainComp,
    Gate,
    Limiter,
    Chorus,
    Flanger,
    Phaser,
    Tremolo,
    Distortion,
    Bitcrusher,
    Wavefolder,
    Saturator,
    TiltEq,
    StereoWidener,
    FreqShifter,
    Delay,
    Reverb,
    ConvolutionReverb,
    PitchShifter,
    Vinyl,
    Cabinet,
    GranularDelay,
    GranularFreeze,
    Vst(u32),
}

} // verus!
