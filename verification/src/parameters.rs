//! The parameter store: the current value of each control, always inside the
//! range of that control.

use vstd::prelude::*;
use crate::bank::BasicFilterBank;
use crate::parameter::{label_at, name_at, parameter_at, Parameter, PARAMETER_COUNT};

verus! {

/// The answer to a request that names a place where the host lists no control.
#[derive(Clone, Copy, Debug, PartialEq, Eq, Structural)]
pub struct NoSuchParameter {
    /// The place that was asked for.
    pub index: i32,
}

/// The current values of the four controls.
///
/// Its view is the snapshot of those values. Whatever is written, the store
/// keeps numbers inside the range of each control.
#[derive(Debug)]
pub struct BasicFilterParameters {
    values: BasicFilterBank,
}

impl View for BasicFilterParameters {
    type V = BasicFilterBank;

    closed spec fn view(&self) -> BasicFilterBank {
        self.values
    }
}

/// The contents of a store after `data` was stored in it.
pub open spec fn stored(data: BasicFilterBank) -> BasicFilterBank {
    data.clamped()
}

/// What loading gives from a store with the given contents.
pub open spec fn loaded(contents: BasicFilterBank) -> Result<BasicFilterBank, ()> {
    Ok(contents)
}

/// The contents of a store after `value` was written at `index`: only the
/// control at `index` changes, and no control at all where there is none at
/// `index`.
pub open spec fn written(contents: BasicFilterBank, index: int, value: u32) -> BasicFilterBank {
    match parameter_at(index) {
        Some(parameter) => contents.with(parameter, parameter.kept(value)),
        None => contents,
    }
}

/// What reading at `index` gives from a store with the given contents.
pub open spec fn read(contents: BasicFilterBank, index: int) -> Option<u32> {
    match parameter_at(index) {
        Some(parameter) => Some(contents.value(parameter)),
        None => None,
    }
}

impl BasicFilterParameters {
    #[verifier::type_invariant]
    spec fn in_range(&self) -> bool {
        self.values.in_range()
    }

    /// Replaces all four values at once by those of `data`, each brought into
    /// the range of its control.
    pub fn store(&mut self, data: BasicFilterBank)
        ensures
            final(self)@ == stored(data),
            data.in_range() ==> final(self)@ == data,
    {
        self.values = data.clamp();
    }

    /// Takes a snapshot of the four values. It always succeeds, and the
    /// snapshot lies in range.
    pub fn load(&self) -> (r: Result<BasicFilterBank, ()>)
        ensures
            r == loaded(self@),
            self@.in_range(),
    {
        proof {
            use_type_invariant(self);
        }
        Ok(self.values)
    }

    /// The current value of `parameter`, in engineering units.
    pub fn get(&self, parameter: Parameter) -> (r: u32)
        ensures
            r == self@.value(parameter),
            parameter.admits(r),
    {
        proof {
            use_type_invariant(self);
        }
        match parameter {
            Parameter::Filter => self.values.filter,
            Parameter::Frequency => self.values.frequency,
            Parameter::Resonance => self.values.resonance,
            Parameter::Mix => self.values.mix,
        }
    }

    /// Writes `value`, in engineering units, to `parameter`, brought into the
    /// range of the control. The other three values stay.
    pub fn set(&mut self, parameter: Parameter, value: u32)
        ensures
            final(self)@ == old(self)@.with(parameter, parameter.kept(value)),
            parameter.admits(value) ==> final(self)@.value(parameter) == value,
    {
        proof {
            use_type_invariant(&*self);
        }
        let kept: u32 = parameter.clamp(value);
        match parameter {
            Parameter::Filter => {
                self.values.filter = kept;
            },
            Parameter::Frequency => {
                self.values.frequency = kept;
            },
            Parameter::Resonance => {
                self.values.resonance = kept;
            },
            Parameter::Mix => {
                self.values.mix = kept;
            },
        }
    }

    /// The current value of the control that the host lists at `index`, in
    /// engineering units; `None` where it lists none.
    pub fn engineering(&self, index: i32) -> (r: Option<u32>)
        ensures
            r == read(self@, index as int),
            r is Some <==> 0 <= index < PARAMETER_COUNT,
    {
        match Parameter::from_index(index) {
            Some(parameter) => Some(self.get(parameter)),
            None => None,
        }
    }

    /// Writes `value`, in engineering units, to the control that the host
    /// lists at `index`. Where it lists none, nothing is written and the
    /// request is answered with `NoSuchParameter`.
    pub fn set_engineering(&mut self, index: i32, value: u32) -> (r: Result<(), NoSuchParameter>)
        ensures
            final(self)@ == written(old(self)@, index as int, value),
            0 <= index < PARAMETER_COUNT ==> r == Ok::<(), NoSuchParameter>(()),
            !(0 <= index < PARAMETER_COUNT) ==> r == Err::<(), NoSuchParameter>(
                NoSuchParameter { index },
            ) && final(self)@ == old(self)@,
    {
        match Parameter::from_index(index) {
            Some(parameter) => {
                self.set(parameter, value);
                Ok(())
            },
            None => Err(NoSuchParameter { index }),
        }
    }

    /// The unit shown after the value of the control at `index`.
    pub fn get_parameter_label(&self, index: i32) -> (r: String)
        ensures
            r@ == label_at(index as int),
    {
        match index {
            0 => "%".to_owned(),
            1 => "Hz".to_owned(),
            2 => "".to_owned(),
            3 => "%".to_owned(),
            _ => "".to_owned(),
        }
    }

    /// The name of the control at `index`.
    pub fn get_parameter_name(&self, index: i32) -> (r: String)
        ensures
            r@ == name_at(index as int),
    {
        match index {
            0 => "Filter".to_owned(),
            1 => "Frequency".to_owned(),
            2 => "Resonance".to_owned(),
            3 => "Mix".to_owned(),
            _ => "".to_owned(),
        }
    }

    /// Whether the host may automate the control at `index`: every place below
    /// the number of controls.
    pub fn can_be_automated(&self, index: i32) -> (r: bool)
        ensures
            r == (index < PARAMETER_COUNT),
    {
        index < PARAMETER_COUNT
    }
}

impl From<BasicFilterBank> for BasicFilterParameters {
    fn from(value: BasicFilterBank) -> (r: Self)
        ensures
            r@ == stored(value),
    {
        BasicFilterParameters { values: value.clamp() }
    }
}

impl vstd::std_specs::convert::FromSpecImpl<BasicFilterBank> for BasicFilterParameters {
    open spec fn obeys_from_spec() -> bool {
        true
    }

    closed spec fn from_spec(value: BasicFilterBank) -> Self {
        BasicFilterParameters { values: value.clamped() }
    }
}

impl Default for BasicFilterParameters {
    fn default() -> (r: Self)
        ensures
            r@ == BasicFilterBank::initial(),
    {
        BasicFilterParameters { values: BasicFilterBank::default() }
    }
}

/// Storing a snapshot that lies in range and then loading gives that snapshot
/// back.
pub proof fn lemma_store_then_load(data: BasicFilterBank)
    requires
        data.in_range(),
    ensures
        loaded(stored(data)) == Ok::<BasicFilterBank, ()>(data),
{
    data.lemma_clamped_in_range();
}

/// Storing any snapshot and then loading gives a snapshot in range, and
/// storing that one again changes nothing.
pub proof fn lemma_load_then_store(data: BasicFilterBank)
    ensures
        stored(data).in_range(),
        stored(stored(data)) == stored(data),
{
    data.lemma_clamped_in_range();
    data.clamped().lemma_clamped_in_range();
}

/// A write at a place where the host lists no control changes nothing, and a
/// write at any place changes no value but the one at that place.
pub proof fn lemma_write_is_local(contents: BasicFilterBank, index: int, value: u32, other: int)
    requires
        other != index,
    ensures
        read(written(contents, index, value), other) == read(contents, other),
        parameter_at(index) is None ==> written(contents, index, value) == contents,
{
}

/// A write keeps a store in range, and reading at the place of the write gives
/// the value that was kept.
pub proof fn lemma_write_then_read(contents: BasicFilterBank, index: int, value: u32)
    requires
        contents.in_range(),
    ensures
        written(contents, index, value).in_range(),
        parameter_at(index) matches Some(parameter) ==> read(
            written(contents, index, value),
            index,
        ) == Some(parameter.kept(value)),
{
    match parameter_at(index) {
        Some(parameter) => {
            parameter.lemma_kept_admitted(value);
        },
        None => {},
    }
}

} // verus!
