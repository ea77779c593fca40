//! The three responses of the filter as a closed choice.

use vstd::prelude::*;

verus! {

/// One of the three responses that the filter offers.
#[derive(Clone, Copy, Debug, PartialEq, Eq, Structural)]
pub enum FilterType {
    /// Passes what lies below the corner frequency.
    LowPass,
    /// Passes what lies around the corner frequency.
    Peak,
    /// Passes what lies above the corner frequency.
    HighPass,
}

/// The response that is saved as `code`, if there is one.
pub open spec fn filter_type_of(code: u8) -> Option<FilterType> {
    if code == 0 {
        Some(FilterType::LowPass)
    } else if code == 1 {
        Some(FilterType::Peak)
    } else if code == 2 {
        Some(FilterType::HighPass)
    } else {
        None
    }
}

/// What reading `code` gives: the response saved under it, or a refusal.
pub open spec fn filter_type_from(code: u8) -> Result<FilterType, ()> {
    match filter_type_of(code) {
        Some(kind) => Ok(kind),
        None => Err(()),
    }
}

impl FilterType {
    /// The number that the response is saved as.
    pub open spec fn spec_code(self) -> u8 {
        match self {
            FilterType::LowPass => 0,
            FilterType::Peak => 1,
            FilterType::HighPass => 2,
        }
    }

    /// The number that the response is saved as.
    #[verifier::when_used_as_spec(spec_code)]
    pub fn code(self) -> (r: u8)
        ensures
            r == self.spec_code(),
            filter_type_of(r) == Some(self),
    {
        match self {
            FilterType::LowPass => 0,
            FilterType::Peak => 1,
            FilterType::HighPass => 2,
        }
    }

    /// Each response is read back from its own number, and a number that reads
    /// as a response is the number of that response.
    pub proof fn lemma_code_round_trip(self, code: u8)
        ensures
            filter_type_of(self.spec_code()) == Some(self),
            filter_type_of(code) == Some(self) <==> code == self.spec_code(),
    {
    }
}

impl Default for FilterType {
    fn default() -> (r: Self)
        ensures
            r == FilterType::LowPass,
    {
        FilterType::LowPass
    }
}

impl TryFrom<u8> for FilterType {
    type Error = ();

    /// Reads a response from the number it was saved as; the numbers from 3 on
    /// are refused.
    fn try_from(value: u8) -> (r: Result<Self, ()>)
        ensures
            r == filter_type_from(value),
            r is Ok <==> value <= 2,
    {
        match value {
            0 => Ok(FilterType::LowPass),
            1 => Ok(FilterType::Peak),
            2 => Ok(FilterType::HighPass),
            _ => Err(()),
        }
    }
}

impl vstd::std_specs::convert::TryFromSpecImpl<u8> for FilterType {
    open spec fn obeys_try_from_spec() -> bool {
        true
    }

    open spec fn try_from_spec(value: u8) -> Result<Self, ()> {
        filter_type_from(value)
    }
}

} // verus!
