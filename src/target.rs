use vstd::prelude::*;

verus! {

/// The instruction-set variant that a machine follows.
#[derive(Clone, Copy, Debug, PartialEq, Eq, Structural)]
pub enum Target {
    /// The original CHIP-8.
    Chip,
    /// SUPER-CHIP as modern interpreters implement it.
    SuperModern,
    /// SUPER-CHIP 1.1 as the HP48 interpreter implemented it.
    SuperLegacy,
    /// XO-CHIP.
    XO,
}

impl Default for Target {
    fn default() -> (r: Target)
        ensures
            r == Target::XO,
    {
        Target::XO
    }
}

/// How a host paces emulation: by the audio callback, or by the display refresh.
#[derive(Clone, Copy, Debug, PartialEq, Eq, Structural)]
pub enum SyncModes {
    VSync,
    AudioCallback,
}

impl Default for SyncModes {
    fn default() -> (r: SyncModes)
        ensures
            r == SyncModes::AudioCallback,
    {
        SyncModes::AudioCallback
    }
}

/// The number of instructions per frame that a variant runs when none is given.
pub open spec fn spec_default_clock(t: Target) -> u32 {
    match t {
        Target::Chip => 11,
        Target::SuperModern => 30,
        Target::SuperLegacy => 30,
        Target::XO => 1000,
    }
}

/// The clock rate to use: the one given, or the variant's default where it is zero.
pub fn default_clock(t: Target, given: u32) -> (r: u32)
    ensures
        given != 0 ==> r == given,
        given == 0 ==> r == spec_default_clock(t),
        r > 0,
{
    if given != 0 {
        given
    } else {
        match t {
            Target::Chip => 11,
            Target::SuperModern => 30,
            Target::SuperLegacy => 30,
            Target::XO => 1000,
        }
    }
}

} // verus!
