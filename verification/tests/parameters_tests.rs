use basic_filter::bank::BasicFilterBank;
use basic_filter::parameter::Parameter;
use basic_filter::parameters::{BasicFilterParameters, NoSuchParameter};

fn bank(filter: f32, frequency: f32, resonance: f32, mix: f32) -> BasicFilterBank {
    BasicFilterBank {
        filter: filter.to_bits(),
        frequency: frequency.to_bits(),
        resonance: resonance.to_bits(),
        mix: mix.to_bits(),
    }
}

#[test]
fn default_store_holds_the_default_bank() {
    let p = BasicFilterParameters::default();
    assert_eq!(p.load(), Ok(BasicFilterBank::default()));
    assert_eq!(f32::from_bits(p.get(Parameter::Frequency)), 880.0);
    assert_eq!(f32::from_bits(p.get(Parameter::Mix)), 1.0);
    assert_eq!(f32::from_bits(p.get(Parameter::Filter)), 0.0);
}

#[test]
fn store_then_load_gives_the_bank_back() {
    let mut p = BasicFilterParameters::default();
    let b = bank(0.75, 12345.0, 7.5, 0.125);
    p.store(b);
    assert_eq!(p.load(), Ok(b));
    let edge = bank(0.0, 20.0, 0.0, 1.0);
    p.store(edge);
    assert_eq!(p.load(), Ok(edge));
}

#[test]
fn store_brings_a_bank_into_range() {
    let mut p = BasicFilterParameters::default();
    p.store(bank(2.0, 1.0e9, -4.0, f32::NAN));
    assert_eq!(p.load(), Ok(bank(1.0, 20000.0, 0.0, 0.0)));
}

#[test]
fn load_then_store_changes_nothing() {
    let mut p = BasicFilterParameters::from(bank(0.5, 30000.0, 21.0, 0.5));
    let snapshot = p.load().unwrap();
    p.store(snapshot);
    assert_eq!(p.load(), Ok(snapshot));
}

#[test]
fn from_bank_stores_the_bank() {
    let b = bank(0.5, 100.0, 1.0, 0.25);
    assert_eq!(BasicFilterParameters::from(b).load(), Ok(b));
    let out = bank(-1.0, 100.0, 1.0, 0.25);
    assert_eq!(BasicFilterParameters::from(out).load(), Ok(bank(0.0, 100.0, 1.0, 0.25)));
}

#[test]
fn set_changes_one_value() {
    let mut p = BasicFilterParameters::default();
    p.set(Parameter::Resonance, 3.0f32.to_bits());
    assert_eq!(p.load(), Ok(bank(0.0, 880.0, 3.0, 1.0)));
    p.set(Parameter::Filter, 0.5f32.to_bits());
    assert_eq!(p.load(), Ok(bank(0.5, 880.0, 3.0, 1.0)));
    p.set(Parameter::Frequency, 5.0f32.to_bits());
    assert_eq!(p.load(), Ok(bank(0.5, 20.0, 3.0, 1.0)));
    p.set(Parameter::Mix, 7.0f32.to_bits());
    assert_eq!(p.load(), Ok(bank(0.5, 20.0, 3.0, 1.0)));
}

#[test]
fn engineering_reads_by_index() {
    let p = BasicFilterParameters::from(bank(0.25, 440.0, 2.0, 0.5));
    assert_eq!(p.engineering(0), Some(0.25f32.to_bits()));
    assert_eq!(p.engineering(1), Some(440.0f32.to_bits()));
    assert_eq!(p.engineering(2), Some(2.0f32.to_bits()));
    assert_eq!(p.engineering(3), Some(0.5f32.to_bits()));
    assert_eq!(p.engineering(4), None);
    assert_eq!(p.engineering(-1), None);
}

#[test]
fn set_engineering_writes_by_index() {
    let mut p = BasicFilterParameters::default();
    assert_eq!(p.set_engineering(1, 1000.0f32.to_bits()), Ok(()));
    assert_eq!(p.set_engineering(3, 0.5f32.to_bits()), Ok(()));
    assert_eq!(
        p.load(),
        Ok(bank(0.0, 1000.0, std::f32::consts::FRAC_1_SQRT_2, 0.5))
    );
    assert_eq!(p.set_engineering(2, 100.0f32.to_bits()), Ok(()));
    assert_eq!(p.engineering(2), Some(20.0f32.to_bits()));
}

#[test]
fn set_engineering_refuses_an_unknown_index() {
    let mut p = BasicFilterParameters::from(bank(0.25, 440.0, 2.0, 0.5));
    assert_eq!(
        p.set_engineering(4, 0.75f32.to_bits()),
        Err(NoSuchParameter { index: 4 })
    );
    assert_eq!(
        p.set_engineering(-1, 0.75f32.to_bits()),
        Err(NoSuchParameter { index: -1 })
    );
    assert_eq!(p.load(), Ok(bank(0.25, 440.0, 2.0, 0.5)));
}

#[test]
fn labels() {
    let p = BasicFilterParameters::default();
    assert_eq!(p.get_parameter_label(0), "%");
    assert_eq!(p.get_parameter_label(1), "Hz");
    assert_eq!(p.get_parameter_label(2), "");
    assert_eq!(p.get_parameter_label(3), "%");
    assert_eq!(p.get_parameter_label(4), "");
    assert_eq!(p.get_parameter_label(-7), "");
}

#[test]
fn names() {
    let p = BasicFilterParameters::default();
    assert_eq!(p.get_parameter_name(0), "Filter");
    assert_eq!(p.get_parameter_name(1), "Frequency");
    assert_eq!(p.get_parameter_name(2), "Resonance");
    assert_eq!(p.get_parameter_name(3), "Mix");
    assert_eq!(p.get_parameter_name(4), "");
    assert_eq!(p.get_parameter_name(-1), "");
}

#[test]
fn automation_is_offered_below_the_count() {
    let p = BasicFilterParameters::default();
    assert!(p.can_be_automated(0));
    assert!(p.can_be_automated(3));
    assert!(!p.can_be_automated(4));
    assert!(!p.can_be_automated(i32::MAX));
    assert!(p.can_be_automated(-1));
}
