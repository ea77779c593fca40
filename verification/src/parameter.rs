//! The four controls of the effect, each with its place in the host's list,
//! its name, its unit and the range its value is kept in.

use vstd::prelude::*;
use crate::word::{clamp, clamped, is_range, within, ONE, ZERO};

verus! {

/// How many controls there are.
pub const PARAMETER_COUNT: i32 = 4;

/// The word of `20.0`: the lowest frequency in Hz, and the highest resonance.
pub const TWENTY: u32 = 0x41A0_0000;

/// The word of `20000.0`: the highest frequency in Hz.
pub const TWENTY_THOUSAND: u32 = 0x469C_4000;

/// One control of the effect.
#[derive(Clone, Copy, Debug, PartialEq, Eq, Structural)]
pub enum Parameter {
    /// Position between low-pass (0), peak (one half) and high-pass (1).
    Filter,
    /// Corner frequency in Hz.
    Frequency,
    /// Resonance, the quality factor of the filter.
    Resonance,
    /// Share of the filtered signal in the output, from dry (0) to wet (1).
    Mix,
}

/// The control that the host lists at `index`, if there is one.
pub open spec fn parameter_at(index: int) -> Option<Parameter> {
    if index == 0 {
        Some(Parameter::Filter)
    } else if index == 1 {
        Some(Parameter::Frequency)
    } else if index == 2 {
        Some(Parameter::Resonance)
    } else if index == 3 {
        Some(Parameter::Mix)
    } else {
        None
    }
}

/// The unit shown after the value of the control at `index`; empty where there
/// is no unit or no control.
pub open spec fn label_at(index: int) -> Seq<char> {
    if index == 0 || index == 3 {
        "%"@
    } else if index == 1 {
        "Hz"@
    } else {
        ""@
    }
}

/// The name of the control at `index`; empty where there is no control.
pub open spec fn name_at(index: int) -> Seq<char> {
    if index == 0 {
        "Filter"@
    } else if index == 1 {
        "Frequency"@
    } else if index == 2 {
        "Resonance"@
    } else if index == 3 {
        "Mix"@
    } else {
        ""@
    }
}

impl Parameter {
    /// The place of the control in the host's list.
    pub open spec fn spec_index(self) -> i32 {
        match self {
            Parameter::Filter => 0,
            Parameter::Frequency => 1,
            Parameter::Resonance => 2,
            Parameter::Mix => 3,
        }
    }

    /// The word of the lowest value the control takes.
    pub open spec fn spec_minimum(self) -> u32 {
        match self {
            Parameter::Frequency => TWENTY,
            _ => ZERO,
        }
    }

    /// The word of the highest value the control takes.
    pub open spec fn spec_maximum(self) -> u32 {
        match self {
            Parameter::Filter => ONE,
            Parameter::Frequency => TWENTY_THOUSAND,
            Parameter::Resonance => TWENTY,
            Parameter::Mix => ONE,
        }
    }

    /// Whether `value` is a number inside the control's range.
    pub open spec fn admits(self, value: u32) -> bool {
        within(value, self.spec_minimum(), self.spec_maximum())
    }

    /// The value that is kept when `value` is written to the control.
    pub open spec fn kept(self, value: u32) -> u32 {
        clamped(value, self.spec_minimum(), self.spec_maximum())
    }

    /// Finds the control that the host lists at `index`.
    pub fn from_index(index: i32) -> (r: Option<Parameter>)
        ensures
            r == parameter_at(index as int),
            r is Some <==> 0 <= index < PARAMETER_COUNT,
    {
        match index {
            0 => Some(Parameter::Filter),
            1 => Some(Parameter::Frequency),
            2 => Some(Parameter::Resonance),
            3 => Some(Parameter::Mix),
            _ => None,
        }
    }

    /// The place of the control in the host's list.
    #[verifier::when_used_as_spec(spec_index)]
    pub fn index(self) -> (r: i32)
        ensures
            r == self.spec_index(),
            parameter_at(r as int) == Some(self),
    {
        match self {
            Parameter::Filter => 0,
            Parameter::Frequency => 1,
            Parameter::Resonance => 2,
            Parameter::Mix => 3,
        }
    }

    /// The word of the lowest value the control takes.
    #[verifier::when_used_as_spec(spec_minimum)]
    pub fn minimum(self) -> (r: u32)
        ensures
            r == self.spec_minimum(),
    {
        match self {
            Parameter::Frequency => TWENTY,
            _ => ZERO,
        }
    }

    /// The word of the highest value the control takes.
    #[verifier::when_used_as_spec(spec_maximum)]
    pub fn maximum(self) -> (r: u32)
        ensures
            r == self.spec_maximum(),
    {
        match self {
            Parameter::Filter => ONE,
            Parameter::Frequency => TWENTY_THOUSAND,
            Parameter::Resonance => TWENTY,
            Parameter::Mix => ONE,
        }
    }

    /// Brings `value` into the control's range: a value inside it is kept, one
    /// outside becomes the nearer bound, and a word that is no number becomes
    /// the lower bound.
    pub fn clamp(self, value: u32) -> (r: u32)
        ensures
            r == self.kept(value),
            self.admits(r),
            self.admits(value) ==> r == value,
    {
        proof {
            self.lemma_range();
        }
        clamp(value, self.minimum(), self.maximum())
    }

    /// The bounds of every control form a range.
    pub proof fn lemma_range(self)
        ensures
            is_range(self.spec_minimum(), self.spec_maximum()),
    {
    }

    /// What is kept of a write lies in the range, and a value in the range is
    /// kept as it is.
    pub proof fn lemma_kept_admitted(self, value: u32)
        ensures
            self.admits(self.kept(value)),
            self.admits(value) <==> self.kept(value) == value,
            self.kept(self.kept(value)) == self.kept(value),
    {
        self.lemma_range();
    }
}

} // verus!
