use circuit_input::declaration::{
    BytesIO, CircuitIO, CyclicProofIO, ElementsIO, RecursiveProofsIO,
};
use circuit_input::error::InputError;
use circuit_input::proofs::ProofWithPublicInputs;
use circuit_input::public_input::PublicInput;
use circuit_input::variable::{ByteVariable, CircuitVariable, Variable};

fn proof_of(public_inputs: Vec<u64>) -> ProofWithPublicInputs {
    ProofWithPublicInputs { proof: vec![0xEE], public_inputs }
}

#[test]
fn elements_round_trip_through_a_proof() {
    let io = CircuitIO::Elements(ElementsIO { input: 3, output: 2 });
    let mut written = PublicInput::new(&io);
    assert_eq!(written.write::<Variable>(10), Ok(()));
    assert_eq!(written.write_all(&[20, 30]), Ok(()));
    let given = proof_of(vec![10, 20, 30, 77, 88]);
    assert_eq!(PublicInput::from_proof_with_pis(&io, &given), Ok(written));
}

#[test]
fn elements_are_the_declared_prefix() {
    let io = CircuitIO::Elements(ElementsIO { input: 2, output: 0 });
    let given = proof_of(vec![5, 6, 7, 8]);
    assert_eq!(
        PublicInput::from_proof_with_pis(&io, &given),
        Ok(PublicInput::Elements(vec![5, 6]))
    );
}

#[test]
fn elements_of_exactly_the_declared_length() {
    let io = CircuitIO::Elements(ElementsIO { input: 2, output: 0 });
    assert_eq!(
        PublicInput::from_proof_with_pis(&io, &proof_of(vec![5, 6])),
        Ok(PublicInput::Elements(vec![5, 6]))
    );
}

#[test]
fn no_declared_elements_give_an_empty_container() {
    let io = CircuitIO::Elements(ElementsIO { input: 0, output: 0 });
    assert_eq!(
        PublicInput::from_proof_with_pis(&io, &proof_of(vec![])),
        Ok(PublicInput::Elements(vec![]))
    );
}

#[test]
fn a_short_buffer_of_elements_is_a_length_mismatch() {
    let io = CircuitIO::Elements(ElementsIO { input: 3, output: 0 });
    assert_eq!(
        PublicInput::from_proof_with_pis(&io, &proof_of(vec![5, 6])),
        Err(InputError::LengthMismatch)
    );
}

#[test]
fn bytes_are_read_eight_elements_to_a_byte() {
    let io = CircuitIO::Bytes(BytesIO { input: 2, output: 1 });
    let given = proof_of(vec![
        1, 0, 1, 0, 0, 1, 0, 1, // 0xA5
        0, 0, 0, 0, 0, 0, 1, 1, // 0x03
        1, 1, 1, 1, 1, 1, 1, 1, // what follows the declared input
    ]);
    assert_eq!(
        PublicInput::from_proof_with_pis(&io, &given),
        Ok(PublicInput::Bytes(vec![0xA5, 0x03]))
    );
}

#[test]
fn bytes_round_trip_through_a_proof() {
    let io = CircuitIO::Bytes(BytesIO { input: 3, output: 0 });
    let bytes = [0x00u8, 0xFF, 0x5C];
    let mut written = PublicInput::new(&io);
    assert_eq!(written.evm_write_all(&bytes), Ok(()));
    let mut public_inputs = Vec::new();
    for byte in bytes {
        public_inputs.extend(ByteVariable::elements(byte));
    }
    assert_eq!(public_inputs.len(), 24);
    assert_eq!(
        PublicInput::from_proof_with_pis(&io, &proof_of(public_inputs)),
        Ok(written)
    );
}

#[test]
fn a_short_buffer_of_bytes_is_a_length_mismatch() {
    let io = CircuitIO::Bytes(BytesIO { input: 2, output: 0 });
    let given = proof_of(vec![1; 15]);
    assert_eq!(PublicInput::from_proof_with_pis(&io, &given), Err(InputError::LengthMismatch));
    let given = proof_of(vec![1; 16]);
    assert_eq!(
        PublicInput::from_proof_with_pis(&io, &given),
        Ok(PublicInput::Bytes(vec![0xFF, 0xFF]))
    );
}

#[test]
fn a_declared_length_beyond_any_buffer_is_a_length_mismatch() {
    let io = CircuitIO::Bytes(BytesIO { input: usize::MAX, output: 0 });
    assert_eq!(
        PublicInput::from_proof_with_pis(&io, &proof_of(vec![1; 64])),
        Err(InputError::LengthMismatch)
    );
    let io = CircuitIO::Elements(ElementsIO { input: usize::MAX, output: 0 });
    assert_eq!(
        PublicInput::from_proof_with_pis(&io, &proof_of(vec![1; 64])),
        Err(InputError::LengthMismatch)
    );
}

#[test]
fn a_circuit_without_data_gives_the_empty_container() {
    let io = CircuitIO::NoData();
    assert_eq!(PublicInput::from_proof_with_pis(&io, &proof_of(vec![])), Ok(PublicInput::NoData()));
    assert_eq!(
        PublicInput::from_proof_with_pis(&io, &proof_of(vec![1, 2, 3])),
        Ok(PublicInput::NoData())
    );
}

#[test]
fn extraction_is_defined_for_bytes_elements_and_no_data() {
    assert!(CircuitIO::Bytes(BytesIO { input: 1, output: 0 }).supports_extraction());
    assert!(CircuitIO::Elements(ElementsIO { input: 1, output: 0 }).supports_extraction());
    assert!(CircuitIO::NoData().supports_extraction());
    let recursive = RecursiveProofsIO { input: 1, output: 0 };
    assert!(!CircuitIO::RecursiveProofs(recursive).supports_extraction());
    assert!(!CircuitIO::RemoteRecursiveProofs(recursive).supports_extraction());
    assert!(!CircuitIO::CyclicProof(CyclicProofIO { input: 1, output: 0 }).supports_extraction());
}
