use robot::modules::output::{OutputType, Reading};
use robot::modules::{Descriptor, Metadata, UndefinedType};

#[test]
fn undefined_type_describes_itself() {
    assert_eq!(UndefinedType.id(), 255);
    assert_eq!(UndefinedType.name(), "Undefined");
    assert_eq!(UndefinedType.description(), "N/A");
}

#[test]
fn undefined_id_never_changes() {
    let a = UndefinedType;
    let b = UndefinedType::default();
    for _ in 0..5 {
        assert_eq!(a.id(), 255);
        let _ = OutputType::Humidity.id();
        assert_eq!(b.id(), 255);
        let _ = a.metadata();
    }
}

#[test]
fn undefined_metadata_packages_the_three() {
    let metadata = UndefinedType.metadata();
    assert_eq!(metadata.id, 255);
    assert_eq!(metadata.name, "Undefined");
    assert_eq!(metadata.description, "N/A");
}

#[test]
fn output_types_describe_themselves() {
    assert_eq!(OutputType::Temperature.id(), 0);
    assert_eq!(OutputType::Humidity.id(), 1);
    assert_eq!(OutputType::Moisture.id(), 2);
    assert_eq!(OutputType::Temperature.name(), "Temperature");
    assert_eq!(OutputType::Humidity.name(), "Humidity");
    assert_eq!(OutputType::Moisture.name(), "Moisture");
    assert_eq!(OutputType::Temperature.description(), "Description");
    assert_eq!(OutputType::Humidity.description(), "Description");
    assert_eq!(OutputType::Moisture.description(), "Description");
}

#[test]
fn output_type_defaults_to_temperature() {
    assert_eq!(OutputType::default().id(), 0);
}

#[test]
fn output_type_metadata() {
    let metadata: Metadata = OutputType::Moisture.metadata();
    assert_eq!(metadata.id, 2);
    assert_eq!(metadata.name, "Moisture");
    assert_eq!(metadata.description, "Description");
}

struct Display;

impl Descriptor for Display {
    fn id(&self) -> u8 {
        105
    }

    fn name(&self) -> String {
        "Display".to_string()
    }

    fn description(&self) -> String {
        "Display sensor".to_string()
    }
}

#[test]
fn a_descriptor_of_the_callers_gets_metadata_for_free() {
    let metadata = Display.metadata();
    assert_eq!(metadata.id, 105);
    assert_eq!(metadata.name, "Display");
    assert_eq!(metadata.description, "Display sensor");
}

#[test]
fn reading_defaults_to_zero() {
    let reading = Reading::default();
    assert_eq!(reading.bits(), 0);
    assert_eq!(f64::from_bits(reading.bits()), 0.0);
}

#[test]
fn reading_keeps_what_was_set() {
    let mut reading = Reading::from_bits(21.5f64.to_bits());
    assert_eq!(f64::from_bits(reading.bits()), 21.5);
    reading.set((-3.25f64).to_bits());
    assert_eq!(f64::from_bits(reading.bits()), -3.25);
    reading.set(u64::MAX);
    assert_eq!(reading.bits(), u64::MAX);
}
