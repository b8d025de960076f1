//! What holds of the container's operations taken together.
//!
//! The operations are the functions of
//! [`PublicInputView`](crate::public_input::PublicInputView), which the
//! contracts of the executable operations are stated over.
use crate::declaration::{BytesIO, CircuitIO, ElementsIO, Mode};
use crate::error::InputError;
use crate::proofs::ProofView;
use crate::public_input::{supports, Operation, PublicInputView};
use crate::variable::{elements_of_byte, ByteVariable, CircuitVariable, EvmVariable};
use crate::verifier_data::VerifierDataView;
use vstd::prelude::*;

verus! {

/// The element encodings of `values`, one after the other.
pub open spec fn encodings<V: CircuitVariable>(values: Seq<V::ValueType>) -> Seq<u64> {
    values.map_values(|value: V::ValueType| V::spec_elements(value)).flatten()
}

/// The elements that encode `bytes`: eight for each byte, in order.
pub open spec fn elements_of_bytes(bytes: Seq<u8>) -> Seq<u64> {
    Seq::new(8 * bytes.len(), |k: int| elements_of_byte(bytes[k / 8])[k % 8])
}

impl PublicInputView {
    /// Whether the container holds nothing: its sequences are empty and its
    /// slots are unset.
    pub open spec fn holds_nothing(self) -> bool {
        match self {
            PublicInputView::Bytes(input) => input.len() == 0,
            PublicInputView::Elements(input) => input.len() == 0,
            PublicInputView::RecursiveProofs(input) => input.len() == 0,
            PublicInputView::RemoteRecursiveProofs(input) => input.len() == 0,
            PublicInputView::CyclicProof(input, proof, data) => input.len() == 0 && proof is None
                && data is None,
            PublicInputView::NoData => true,
        }
    }

    /// The container after each of `values` was written in turn, if every
    /// write succeeds, and the first error otherwise.
    pub open spec fn write_each<V: CircuitVariable>(self, values: Seq<V::ValueType>) -> Result<
        PublicInputView,
        InputError,
    >
        decreases values.len(),
    {
        if values.len() == 0 {
            Ok(self)
        } else {
            match self.write_each::<V>(values.drop_last()) {
                Ok(before_last) => before_last.write::<V>(values.last()),
                Err(e) => Err(e),
            }
        }
    }
}

/// A new container has the mode of its declaration and holds nothing.
pub proof fn new_container_is_empty(io: CircuitIO)
    ensures
        PublicInputView::empty(io.mode()).mode() == io.mode(),
        PublicInputView::empty(io.mode()).holds_nothing(),
{
}

/// Writing values one after the other to a container of elements appends
/// the encoding of each, in the order of the calls.
pub proof fn writes_append_encodings<V: CircuitVariable>(
    held: Seq<u64>,
    values: Seq<V::ValueType>,
)
    ensures
        PublicInputView::Elements(held).write_each::<V>(values) == Ok::<
            PublicInputView,
            InputError,
        >(PublicInputView::Elements(held + encodings::<V>(values))),
    decreases values.len(),
{
    let encode = |value: V::ValueType| V::spec_elements(value);
    if values.len() == 0 {
        assert(values.map_values(encode) =~= Seq::<Seq<u64>>::empty());
        assert(held + encodings::<V>(values) =~= held);
    } else {
        let front = values.drop_last();
        writes_append_encodings::<V>(held, front);
        assert(values.map_values(encode) =~= front.map_values(encode).push(
            encode(values.last()),
        ));
        front.map_values(encode).lemma_flatten_push(encode(values.last()));
        assert(held + encodings::<V>(front) + V::spec_elements(values.last()) =~= held
            + encodings::<V>(values));
    }
}

/// The same holds of the elements of a cyclic-proof container, whose slots
/// the writes leave as they are.
pub proof fn writes_append_encodings_to_cyclic_proof<V: CircuitVariable>(
    held: Seq<u64>,
    proof: Option<ProofView>,
    data: Option<VerifierDataView>,
    values: Seq<V::ValueType>,
)
    ensures
        PublicInputView::CyclicProof(held, proof, data).write_each::<V>(values) == Ok::<
            PublicInputView,
            InputError,
        >(PublicInputView::CyclicProof(held + encodings::<V>(values), proof, data)),
    decreases values.len(),
{
    let encode = |value: V::ValueType| V::spec_elements(value);
    if values.len() == 0 {
        assert(values.map_values(encode) =~= Seq::<Seq<u64>>::empty());
        assert(held + encodings::<V>(values) =~= held);
    } else {
        let front = values.drop_last();
        writes_append_encodings_to_cyclic_proof::<V>(held, proof, data, front);
        assert(values.map_values(encode) =~= front.map_values(encode).push(
            encode(values.last()),
        ));
        front.map_values(encode).lemma_flatten_push(encode(values.last()));
        assert(held + encodings::<V>(front) + V::spec_elements(values.last()) =~= held
            + encodings::<V>(values));
    }
}

/// Writing a value to a container of bytes and then raw bytes leaves the
/// bytes held before, the encoding of the value, and the raw bytes, in that
/// order.
pub proof fn evm_writes_append<V: EvmVariable>(held: Seq<u8>, value: V::ValueType, raw: Seq<u8>)
    ensures
        PublicInputView::Bytes(held).evm_write::<V>(value) == Ok::<PublicInputView, InputError>(
            PublicInputView::Bytes(held + V::spec_encode_value(value)),
        ),
        PublicInputView::Bytes(held + V::spec_encode_value(value)).evm_write_all(raw) == Ok::<
            PublicInputView,
            InputError,
        >(PublicInputView::Bytes(held + V::spec_encode_value(value) + raw)),
        PublicInputView::empty(Mode::Bytes).evm_write::<V>(value)->Ok_0.evm_write_all(raw) == Ok::<
            PublicInputView,
            InputError,
        >(PublicInputView::Bytes(V::spec_encode_value(value) + raw)),
{
    assert(Seq::<u8>::empty() + V::spec_encode_value(value) =~= V::spec_encode_value(value));
}

/// A cyclic-proof container takes one proof: the first registration fills
/// the slot with the proof given, and a second one fails with
/// `SlotAlreadySet`.
pub proof fn cyclic_proof_is_registered_once(
    held: Seq<u64>,
    data: Option<VerifierDataView>,
    first: ProofView,
    second: ProofView,
)
    ensures
        PublicInputView::CyclicProof(held, None, data).proof_write(first) == Ok::<
            PublicInputView,
            InputError,
        >(PublicInputView::CyclicProof(held, Some(first), data)),
        PublicInputView::CyclicProof(held, Some(first), data).proof_write(second) == Err::<
            PublicInputView,
            InputError,
        >(InputError::SlotAlreadySet),
{
}

/// A cyclic-proof container takes verifier data once: the first record
/// fills the slot, and a second one fails with `SlotAlreadySet`.
pub proof fn verifier_data_is_attached_once(
    held: Seq<u64>,
    proof: Option<ProofView>,
    first: VerifierDataView,
    second: VerifierDataView,
)
    ensures
        PublicInputView::CyclicProof(held, proof, None).data_write(first) == Ok::<
            PublicInputView,
            InputError,
        >(PublicInputView::CyclicProof(held, proof, Some(first))),
        PublicInputView::CyclicProof(held, proof, Some(first)).data_write(second) == Err::<
            PublicInputView,
            InputError,
        >(InputError::SlotAlreadySet),
{
}

/// A filled slot of a cyclic-proof container keeps what it holds through
/// every operation that succeeds.
pub proof fn filled_slots_stay(
    before: PublicInputView,
    elements: Seq<u64>,
    bytes: Seq<u8>,
    proof: ProofView,
    data: VerifierDataView,
    after: PublicInputView,
)
    requires
        before is CyclicProof,
        before.write_all(elements) == Ok::<PublicInputView, InputError>(after)
            || before.evm_write_all(bytes) == Ok::<PublicInputView, InputError>(after)
            || before.proof_write(proof) == Ok::<PublicInputView, InputError>(after)
            || before.data_write(data) == Ok::<PublicInputView, InputError>(after),
    ensures
        after is CyclicProof,
        before->CyclicProof_1 is Some ==> after->CyclicProof_1 == before->CyclicProof_1,
        before->CyclicProof_2 is Some ==> after->CyclicProof_2 == before->CyclicProof_2,
{
}

/// Reading a container of elements back from a proof gives what was
/// written: if a fresh container for a declaration of `io.input` elements
/// took `written`, that many elements, and the proof's public buffer starts
/// with them, then the container read from the proof is that container.
pub proof fn elements_round_trip(io: ElementsIO, written: Seq<u64>, public_inputs: Seq<u64>)
    requires
        written.len() == io.input,
        written.is_prefix_of(public_inputs),
    ensures
        PublicInputView::empty(CircuitIO::Elements(io).mode()).write_all(written) == Ok::<
            PublicInputView,
            InputError,
        >(PublicInputView::Elements(written)),
        PublicInputView::from_public_inputs(CircuitIO::Elements(io), public_inputs) == Ok::<
            PublicInputView,
            InputError,
        >(PublicInputView::Elements(written)),
{
    assert(Seq::<u64>::empty() + written =~= written);
    assert(public_inputs.take(io.input as int) =~= written);
}

/// Reading a container of bytes back from a proof gives what was written:
/// if a fresh container for a declaration of `io.input` bytes took
/// `written`, that many bytes, and the proof's public buffer starts with
/// their elements, then the container read from the proof is that
/// container.
pub proof fn bytes_round_trip(io: BytesIO, written: Seq<u8>, public_inputs: Seq<u64>)
    requires
        written.len() == io.input,
        elements_of_bytes(written).is_prefix_of(public_inputs),
    ensures
        PublicInputView::empty(CircuitIO::Bytes(io).mode()).evm_write_all(written) == Ok::<
            PublicInputView,
            InputError,
        >(PublicInputView::Bytes(written)),
        PublicInputView::from_public_inputs(CircuitIO::Bytes(io), public_inputs) == Ok::<
            PublicInputView,
            InputError,
        >(PublicInputView::Bytes(written)),
{
    assert(Seq::<u8>::empty() + written =~= written);
    let encoded = elements_of_bytes(written);
    let read = crate::public_input::bytes_of_elements(public_inputs, io.input as nat);
    assert forall|i: int| 0 <= i < written.len() implies read[i] == written[i] by {
        let chunk = public_inputs.subrange(8 * i, 8 * i + 8);
        assert forall|j: int| 0 <= j < 8 implies chunk[j] == elements_of_byte(written[i])[j] by {
            assert(public_inputs[8 * i + j] == encoded[8 * i + j]);
            assert((8 * i + j) / 8 == i && (8 * i + j) % 8 == j);
        }
        assert(chunk =~= elements_of_byte(written[i]));
        ByteVariable::encoding_round_trip(written[i]);
    }
    assert(read =~= written);
}

/// Every operation is defined for some modes and fails with `WrongMode`
/// for exactly the others.
pub proof fn operations_fail_in_other_modes(
    held: PublicInputView,
    elements: Seq<u64>,
    bytes: Seq<u8>,
    proof: ProofView,
    data: VerifierDataView,
)
    ensures
        !supports(held.mode(), Operation::WriteAll) <==> held.write_all(elements) == Err::<
            PublicInputView,
            InputError,
        >(InputError::WrongMode),
        !supports(held.mode(), Operation::EvmWriteAll) <==> held.evm_write_all(bytes) == Err::<
            PublicInputView,
            InputError,
        >(InputError::WrongMode),
        !supports(held.mode(), Operation::ProofWrite) <==> held.proof_write(proof) == Err::<
            PublicInputView,
            InputError,
        >(InputError::WrongMode),
        !supports(held.mode(), Operation::DataWrite) <==> held.data_write(data) == Err::<
            PublicInputView,
            InputError,
        >(InputError::WrongMode),
{
}

/// Writing a value fails with `WrongMode` for exactly the modes that take
/// no elements.
pub proof fn write_fails_in_other_modes<V: CircuitVariable>(
    held: PublicInputView,
    value: V::ValueType,
)
    ensures
        !supports(held.mode(), Operation::Write) <==> held.write::<V>(value) == Err::<
            PublicInputView,
            InputError,
        >(InputError::WrongMode),
{
}

/// Writing the byte encoding of a value fails with `WrongMode` for exactly
/// the modes that take no bytes.
pub proof fn evm_write_fails_in_other_modes<V: EvmVariable>(
    held: PublicInputView,
    value: V::ValueType,
)
    ensures
        !supports(held.mode(), Operation::EvmWrite) <==> held.evm_write::<V>(value) == Err::<
            PublicInputView,
            InputError,
        >(InputError::WrongMode),
{
}

/// No operation changes the mode of a container.
pub proof fn operations_keep_mode(
    before: PublicInputView,
    elements: Seq<u64>,
    bytes: Seq<u8>,
    proof: ProofView,
    data: VerifierDataView,
)
    ensures
        before.write_all(elements) matches Ok(after) ==> after.mode() == before.mode(),
        before.evm_write_all(bytes) matches Ok(after) ==> after.mode() == before.mode(),
        before.proof_write(proof) matches Ok(after) ==> after.mode() == before.mode(),
        before.data_write(data) matches Ok(after) ==> after.mode() == before.mode(),
{
}

/// A container without public data takes no operation at all.
pub proof fn no_data_takes_no_operation(
    elements: Seq<u64>,
    bytes: Seq<u8>,
    proof: ProofView,
    data: VerifierDataView,
)
    ensures
        PublicInputView::empty(Mode::NoData).write_all(elements) == Err::<
            PublicInputView,
            InputError,
        >(InputError::WrongMode),
        PublicInputView::empty(Mode::NoData).evm_write_all(bytes) == Err::<
            PublicInputView,
            InputError,
        >(InputError::WrongMode),
        PublicInputView::empty(Mode::NoData).proof_write(proof) == Err::<
            PublicInputView,
            InputError,
        >(InputError::WrongMode),
        PublicInputView::empty(Mode::NoData).data_write(data) == Err::<
            PublicInputView,
            InputError,
        >(InputError::WrongMode),
{
}

/// Nor does it take a value as elements.
pub proof fn no_data_takes_no_value<V: CircuitVariable>(value: V::ValueType)
    ensures
        PublicInputView::empty(Mode::NoData).write::<V>(value) == Err::<
            PublicInputView,
            InputError,
        >(InputError::WrongMode),
{
}

/// Nor does it take a value as bytes.
pub proof fn no_data_takes_no_encoded_value<V: EvmVariable>(value: V::ValueType)
    ensures
        PublicInputView::empty(Mode::NoData).evm_write::<V>(value) == Err::<
            PublicInputView,
            InputError,
        >(InputError::WrongMode),
{
}

} // verus!
