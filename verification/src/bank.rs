//! A snapshot of the four parameter values, as it is saved and restored.

use vstd::prelude::*;
use crate::parameter::Parameter;
use crate::parameters::BasicFilterParameters;
use crate::word::{ONE, ZERO};

verus! {

/// The word of `880.0`.
pub const EIGHT_HUNDRED_EIGHTY: u32 = 0x445C_0000;

/// The word of the single-precision number nearest to one over the square
/// root of two.
pub const FRAC_1_SQRT_2: u32 = 0x3F35_04F3;

/// The four parameter values in engineering units, each as its word.
#[derive(Clone, Copy, Debug, PartialEq, Eq, Structural)]
pub struct BasicFilterBank {
    /// Position between low-pass, peak and high-pass.
    pub filter: u32,
    /// Corner frequency in Hz.
    pub frequency: u32,
    /// Resonance.
    pub resonance: u32,
    /// Share of the filtered signal in the output.
    pub mix: u32,
}

impl BasicFilterBank {
    /// The snapshot that a missing field is filled from: low-pass at 880 Hz,
    /// resonance one over the square root of two, fully wet.
    pub open spec fn initial() -> BasicFilterBank {
        BasicFilterBank {
            filter: ZERO,
            frequency: EIGHT_HUNDRED_EIGHTY,
            resonance: FRAC_1_SQRT_2,
            mix: ONE,
        }
    }

    /// The value that the snapshot holds for `parameter`.
    pub open spec fn value(self, parameter: Parameter) -> u32 {
        match parameter {
            Parameter::Filter => self.filter,
            Parameter::Frequency => self.frequency,
            Parameter::Resonance => self.resonance,
            Parameter::Mix => self.mix,
        }
    }

    /// The snapshot with `value` in place of the value of `parameter`.
    pub open spec fn with(self, parameter: Parameter, value: u32) -> BasicFilterBank {
        match parameter {
            Parameter::Filter => BasicFilterBank { filter: value, ..self },
            Parameter::Frequency => BasicFilterBank { frequency: value, ..self },
            Parameter::Resonance => BasicFilterBank { resonance: value, ..self },
            Parameter::Mix => BasicFilterBank { mix: value, ..self },
        }
    }

    /// Whether every value is a number inside the range of its parameter.
    pub open spec fn in_range(self) -> bool {
        &&& Parameter::Filter.admits(self.filter)
        &&& Parameter::Frequency.admits(self.frequency)
        &&& Parameter::Resonance.admits(self.resonance)
        &&& Parameter::Mix.admits(self.mix)
    }

    /// The snapshot with every value brought into the range of its parameter.
    pub open spec fn clamped(self) -> BasicFilterBank {
        BasicFilterBank {
            filter: Parameter::Filter.kept(self.filter),
            frequency: Parameter::Frequency.kept(self.frequency),
            resonance: Parameter::Resonance.kept(self.resonance),
            mix: Parameter::Mix.kept(self.mix),
        }
    }

    /// The filter position that a missing field is read as: low-pass.
    pub fn default_filter() -> (r: u32)
        ensures
            r == ZERO,
    {
        ZERO
    }

    /// The frequency that a missing field is read as: 880 Hz.
    pub fn default_frequency() -> (r: u32)
        ensures
            r == EIGHT_HUNDRED_EIGHTY,
    {
        EIGHT_HUNDRED_EIGHTY
    }

    /// The resonance that a missing field is read as.
    pub fn default_resonance() -> (r: u32)
        ensures
            r == FRAC_1_SQRT_2,
    {
        FRAC_1_SQRT_2
    }

    /// The mix that a missing field is read as: fully wet.
    pub fn default_mix() -> (r: u32)
        ensures
            r == ONE,
    {
        ONE
    }

    /// Brings every value into the range of its parameter.
    pub fn clamp(self) -> (r: BasicFilterBank)
        ensures
            r == self.clamped(),
            r.in_range(),
            self.in_range() ==> r == self,
    {
        BasicFilterBank {
            filter: Parameter::Filter.clamp(self.filter),
            frequency: Parameter::Frequency.clamp(self.frequency),
            resonance: Parameter::Resonance.clamp(self.resonance),
            mix: Parameter::Mix.clamp(self.mix),
        }
    }

    /// The initial snapshot lies in range.
    pub proof fn lemma_initial_in_range()
        ensures
            Self::initial().in_range(),
    {
    }

    /// A clamped snapshot lies in range, and the snapshots in range are those
    /// that clamping leaves as they are.
    pub proof fn lemma_clamped_in_range(self)
        ensures
            self.clamped().in_range(),
            self.in_range() <==> self.clamped() == self,
    {
        Parameter::Filter.lemma_kept_admitted(self.filter);
        Parameter::Frequency.lemma_kept_admitted(self.frequency);
        Parameter::Resonance.lemma_kept_admitted(self.resonance);
        Parameter::Mix.lemma_kept_admitted(self.mix);
    }
}

impl Default for BasicFilterBank {
    fn default() -> (r: Self)
        ensures
            r == Self::initial(),
    {
        BasicFilterBank {
            filter: Self::default_filter(),
            frequency: Self::default_frequency(),
            resonance: Self::default_resonance(),
            mix: Self::default_mix(),
        }
    }
}

impl<'a> TryFrom<&'a BasicFilterParameters> for BasicFilterBank {
    type Error = ();

    /// Takes a snapshot of a store. It always succeeds.
    fn try_from(value: &'a BasicFilterParameters) -> (r: Result<Self, ()>)
        ensures
            r == Ok::<BasicFilterBank, ()>(value@),
            value@.in_range(),
    {
        value.load()
    }
}

impl<'a> vstd::std_specs::convert::TryFromSpecImpl<&'a BasicFilterParameters> for BasicFilterBank {
    open spec fn obeys_try_from_spec() -> bool {
        true
    }

    open spec fn try_from_spec(value: &'a BasicFilterParameters) -> Result<Self, ()> {
        Ok(value@)
    }
}

impl TryFrom<BasicFilterParameters> for BasicFilterBank {
    type Error = ();

    /// Takes a snapshot of a store and lets the store go. It always succeeds.
    fn try_from(value: BasicFilterParameters) -> (r: Result<Self, ()>)
        ensures
            r == Ok::<BasicFilterBank, ()>(value@),
            value@.in_range(),
    {
        value.load()
    }
}

impl vstd::std_specs::convert::TryFromSpecImpl<BasicFilterParameters> for BasicFilterBank {
    open spec fn obeys_try_from_spec() -> bool {
        true
    }

    open spec fn try_from_spec(value: BasicFilterParameters) -> Result<Self, ()> {
        Ok(value@)
    }
}

} // verus!
