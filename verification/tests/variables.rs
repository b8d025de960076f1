use circuit_input::variable::{BoolVariable, ByteVariable, CircuitVariable, EvmVariable, Variable};

#[test]
fn a_variable_is_one_element() {
    assert_eq!(Variable::nb_elements(), 1);
    assert_eq!(Variable::elements(42), vec![42]);
    assert_eq!(Variable::from_elements(&[42]), 42);
}

#[test]
fn a_boolean_is_the_element_one_or_zero() {
    assert_eq!(BoolVariable::nb_elements(), 1);
    assert_eq!(BoolVariable::elements(true), vec![1]);
    assert_eq!(BoolVariable::elements(false), vec![0]);
    assert!(BoolVariable::from_elements(&[1]));
    assert!(!BoolVariable::from_elements(&[0]));
    assert!(!BoolVariable::from_elements(&[2]));
}

#[test]
fn a_byte_is_its_bits_most_significant_first() {
    assert_eq!(ByteVariable::nb_elements(), 8);
    assert_eq!(ByteVariable::elements(0x80), vec![1, 0, 0, 0, 0, 0, 0, 0]);
    assert_eq!(ByteVariable::elements(0x01), vec![0, 0, 0, 0, 0, 0, 0, 1]);
    assert_eq!(ByteVariable::elements(0xA5), vec![1, 0, 1, 0, 0, 1, 0, 1]);
    assert_eq!(ByteVariable::elements(0x00), vec![0; 8]);
    assert_eq!(ByteVariable::elements(0xFF), vec![1; 8]);
    assert_eq!(ByteVariable::from_elements(&[1, 0, 1, 0, 0, 1, 0, 1]), 0xA5);
    assert_eq!(ByteVariable::from_elements(&[0, 1, 0, 0, 0, 0, 0, 0]), 0x40);
}

#[test]
fn every_byte_round_trips_through_its_elements() {
    for byte in 0..=u8::MAX {
        let elements = ByteVariable::elements(byte);
        assert_eq!(elements.len(), ByteVariable::nb_elements());
        assert_eq!(ByteVariable::from_elements(&elements), byte);
    }
}

#[test]
fn an_element_other_than_one_is_a_clear_bit() {
    assert_eq!(ByteVariable::from_elements(&[2, 0, 0, 0, 0, 0, 0, 1]), 0x01);
    assert_eq!(ByteVariable::from_elements(&[u64::MAX, 1, 0, 0, 0, 0, 0, 0]), 0x40);
}

#[test]
fn byte_encodings_have_one_byte() {
    assert_eq!(ByteVariable::encode_value(0x7E), vec![0x7E]);
    assert_eq!(BoolVariable::encode_value(true), vec![1]);
    assert_eq!(BoolVariable::encode_value(false), vec![0]);
}
