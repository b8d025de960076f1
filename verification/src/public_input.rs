//! The container of a circuit's public data.
use crate::declaration::{CircuitIO, Mode};
use crate::error::InputError;
use crate::proofs::{ProofId, ProofView, ProofWithPublicInputs};
use crate::variable::{ByteVariable, CircuitVariable, EvmVariable};
use crate::verifier_data::{MyVerifierCircuitData, VerifierCircuitData, VerifierDataView};
use vstd::prelude::*;

verus! {

/// The public data of one circuit instance, in the mode that the circuit
/// declared.
#[derive(Debug, Clone, PartialEq, Eq)]
pub enum PublicInput {
    /// Raw bytes.
    Bytes(Vec<u8>),
    /// Field elements.
    Elements(Vec<u64>),
    /// The sub-proofs that the circuit verifies, in the order in which the
    /// proving backend verifies them.
    RecursiveProofs(Vec<ProofWithPublicInputs>),
    /// Handles to sub-proofs that are computed out of process.
    RemoteRecursiveProofs(Vec<ProofId>),
    /// Field elements, at most one earlier proof of the same circuit, and at
    /// most one record of that circuit's verifier data. The last is left out
    /// of what is stored or sent of a container.
    CyclicProof(Vec<u64>, Option<ProofWithPublicInputs>, Option<MyVerifierCircuitData>),
    /// No public data.
    NoData(),
}

/// The mathematical value of a [`PublicInput`].
pub enum PublicInputView {
    Bytes(Seq<u8>),
    Elements(Seq<u64>),
    RecursiveProofs(Seq<ProofView>),
    RemoteRecursiveProofs(Seq<ProofId>),
    CyclicProof(Seq<u64>, Option<ProofView>, Option<VerifierDataView>),
    NoData,
}

/// The operations that change a container.
pub enum Operation {
    Write,
    WriteAll,
    EvmWrite,
    EvmWriteAll,
    ProofWrite,
    DataWrite,
}

/// Whether a container in mode `mode` takes the operation `op`. Writes of
/// elements go to element and cyclic-proof containers, writes of bytes to byte
/// containers, proofs to recursive and cyclic-proof containers, and verifier
/// data to cyclic-proof containers.
pub open spec fn supports(mode: Mode, op: Operation) -> bool {
    match op {
        Operation::Write | Operation::WriteAll => mode == Mode::Elements || mode
            == Mode::CyclicProof,
        Operation::EvmWrite | Operation::EvmWriteAll => mode == Mode::Bytes,
        Operation::ProofWrite => mode == Mode::RecursiveProofs || mode == Mode::CyclicProof,
        Operation::DataWrite => mode == Mode::CyclicProof,
    }
}

/// The values of the proofs in `proofs`, in order.
pub open spec fn proof_views(proofs: Seq<ProofWithPublicInputs>) -> Seq<ProofView> {
    proofs.map_values(|p: ProofWithPublicInputs| p@)
}

/// The value of the proof slot of a cyclic proof.
pub open spec fn proof_slot_view(slot: Option<ProofWithPublicInputs>) -> Option<ProofView> {
    match slot {
        Some(proof) => Some(proof@),
        Option::None => Option::None,
    }
}

/// The value of the slot for verifier data of a cyclic proof.
pub open spec fn data_slot_view(slot: Option<MyVerifierCircuitData>) -> Option<VerifierDataView> {
    match slot {
        Some(data) => Some(data@),
        Option::None => Option::None,
    }
}

/// The bytes that the first `8 * count` of `elements` encode, eight elements
/// to a byte.
pub open spec fn bytes_of_elements(elements: Seq<u64>, count: nat) -> Seq<u8> {
    Seq::new(
        count,
        |i: int| ByteVariable::spec_from_elements(elements.subrange(8 * i, 8 * i + 8)),
    )
}

impl PublicInputView {
    /// The container that the public buffer `public_inputs` of a proof holds
    /// for a circuit that declared `io`. The declared input stands at the
    /// start of the buffer: as many elements as declared, or eight elements
    /// for each declared byte. A buffer that is too short for the declaration
    /// holds no container.
    pub open spec fn from_public_inputs(io: CircuitIO, public_inputs: Seq<u64>) -> Result<
        PublicInputView,
        InputError,
    >
        recommends
            io.supports_extraction(),
    {
        match io {
            CircuitIO::Bytes(io) => if 8 * io.input <= public_inputs.len() {
                Ok(PublicInputView::Bytes(bytes_of_elements(public_inputs, io.input as nat)))
            } else {
                Err(InputError::LengthMismatch)
            },
            CircuitIO::Elements(io) => if io.input <= public_inputs.len() {
                Ok(PublicInputView::Elements(public_inputs.take(io.input as int)))
            } else {
                Err(InputError::LengthMismatch)
            },
            CircuitIO::NoData() => Ok(PublicInputView::NoData),
            _ => arbitrary(),
        }
    }

    /// The container of mode `mode` that holds nothing yet.
    pub open spec fn empty(mode: Mode) -> PublicInputView {
        match mode {
            Mode::Bytes => PublicInputView::Bytes(Seq::empty()),
            Mode::Elements => PublicInputView::Elements(Seq::empty()),
            Mode::RecursiveProofs => PublicInputView::RecursiveProofs(Seq::empty()),
            Mode::RemoteRecursiveProofs => PublicInputView::RemoteRecursiveProofs(Seq::empty()),
            Mode::CyclicProof => PublicInputView::CyclicProof(
                Seq::empty(),
                Option::None,
                Option::None,
            ),
            Mode::NoData => PublicInputView::NoData,
        }
    }

    /// The mode of this container.
    pub open spec fn mode(self) -> Mode {
        match self {
            PublicInputView::Bytes(_) => Mode::Bytes,
            PublicInputView::Elements(_) => Mode::Elements,
            PublicInputView::RecursiveProofs(_) => Mode::RecursiveProofs,
            PublicInputView::RemoteRecursiveProofs(_) => Mode::RemoteRecursiveProofs,
            PublicInputView::CyclicProof(_, _, _) => Mode::CyclicProof,
            PublicInputView::NoData => Mode::NoData,
        }
    }

    /// The container after `elements` were appended to its elements.
    pub open spec fn write_all(self, elements: Seq<u64>) -> Result<PublicInputView, InputError> {
        match self {
            PublicInputView::Elements(input) => Ok(PublicInputView::Elements(input + elements)),
            PublicInputView::CyclicProof(input, proof, data) => Ok(
                PublicInputView::CyclicProof(input + elements, proof, data),
            ),
            _ => Err(InputError::WrongMode),
        }
    }

    /// The container after the element encoding of `value` was appended.
    pub open spec fn write<V: CircuitVariable>(self, value: V::ValueType) -> Result<
        PublicInputView,
        InputError,
    > {
        self.write_all(V::spec_elements(value))
    }

    /// The container after `bytes` were appended to its bytes.
    pub open spec fn evm_write_all(self, bytes: Seq<u8>) -> Result<PublicInputView, InputError> {
        match self {
            PublicInputView::Bytes(input) => Ok(PublicInputView::Bytes(input + bytes)),
            _ => Err(InputError::WrongMode),
        }
    }

    /// The container after the byte encoding of `value` was appended.
    pub open spec fn evm_write<V: EvmVariable>(self, value: V::ValueType) -> Result<
        PublicInputView,
        InputError,
    > {
        self.evm_write_all(V::spec_encode_value(value))
    }

    /// The container after `proof` was registered: appended to the list of
    /// sub-proofs, or put into the empty proof slot of a cyclic proof.
    pub open spec fn proof_write(self, proof: ProofView) -> Result<PublicInputView, InputError> {
        match self {
            PublicInputView::RecursiveProofs(input) => Ok(
                PublicInputView::RecursiveProofs(input.push(proof)),
            ),
            PublicInputView::CyclicProof(input, slot, data) => if slot is Some {
                Err(InputError::SlotAlreadySet)
            } else {
                Ok(PublicInputView::CyclicProof(input, Some(proof), data))
            },
            _ => Err(InputError::WrongMode),
        }
    }

    /// The container after `data` was put into the empty slot for verifier
    /// data of a cyclic proof.
    pub open spec fn data_write(self, data: VerifierDataView) -> Result<
        PublicInputView,
        InputError,
    > {
        match self {
            PublicInputView::CyclicProof(input, proof, slot) => if slot is Some {
                Err(InputError::SlotAlreadySet)
            } else {
                Ok(PublicInputView::CyclicProof(input, proof, Some(data)))
            },
            _ => Err(InputError::WrongMode),
        }
    }
}

/// Appends `more` to `elements`.
fn extend_elements(elements: &mut Vec<u64>, more: &[u64])
    ensures
        final(elements)@ == old(elements)@ + more@,
{
    elements.extend_from_slice(more);
    assert(elements@ =~= old(elements)@ + more@);
}

/// Appends `more` to `bytes`.
fn extend_bytes(bytes: &mut Vec<u8>, more: &[u8])
    ensures
        final(bytes)@ == old(bytes)@ + more@,
{
    bytes.extend_from_slice(more);
    assert(bytes@ =~= old(bytes)@ + more@);
}

impl View for PublicInput {
    type V = PublicInputView;

    open spec fn view(&self) -> PublicInputView {
        match self {
            PublicInput::Bytes(input) => PublicInputView::Bytes(input@),
            PublicInput::Elements(input) => PublicInputView::Elements(input@),
            PublicInput::RecursiveProofs(input) => PublicInputView::RecursiveProofs(
                proof_views(input@),
            ),
            PublicInput::RemoteRecursiveProofs(input) => PublicInputView::RemoteRecursiveProofs(
                input@,
            ),
            PublicInput::CyclicProof(input, proof, data) => PublicInputView::CyclicProof(
                input@,
                proof_slot_view(*proof),
                data_slot_view(*data),
            ),
            PublicInput::NoData() => PublicInputView::NoData,
        }
    }
}

impl PublicInput {
    /// Creates the container for a circuit that declared `io`: it has the
    /// mode of the declaration and holds nothing.
    pub fn new(io: &CircuitIO) -> (input: PublicInput)
        ensures
            input@ == PublicInputView::empty(io.mode()),
            input@.mode() == io.mode(),
    {
        match io {
            CircuitIO::Bytes(_) => PublicInput::Bytes(Vec::new()),
            CircuitIO::Elements(_) => PublicInput::Elements(Vec::new()),
            CircuitIO::RecursiveProofs(_) => {
                let proofs: Vec<ProofWithPublicInputs> = Vec::new();
                assert(proof_views(proofs@) =~= Seq::empty());
                PublicInput::RecursiveProofs(proofs)
            },
            CircuitIO::RemoteRecursiveProofs(_) => PublicInput::RemoteRecursiveProofs(Vec::new()),
            CircuitIO::CyclicProof(_) => PublicInput::CyclicProof(
                Vec::new(),
                Option::None,
                Option::None,
            ),
            CircuitIO::NoData() => PublicInput::NoData(),
        }
    }

    /// The mode of this container.
    pub fn mode(&self) -> (m: Mode)
        ensures
            m == self@.mode(),
    {
        match self {
            PublicInput::Bytes(_) => Mode::Bytes,
            PublicInput::Elements(_) => Mode::Elements,
            PublicInput::RecursiveProofs(_) => Mode::RecursiveProofs,
            PublicInput::RemoteRecursiveProofs(_) => Mode::RemoteRecursiveProofs,
            PublicInput::CyclicProof(_, _, _) => Mode::CyclicProof,
            PublicInput::NoData() => Mode::NoData,
        }
    }

    /// Reads the container of a circuit that declared `io` back from a proof
    /// of that circuit. Fails with `LengthMismatch` if the proof's public
    /// buffer is shorter than the declared input.
    pub fn from_proof_with_pis(io: &CircuitIO, proof_with_pis: &ProofWithPublicInputs) -> (r:
        Result<PublicInput, InputError>)
        requires
            io.supports_extraction(),
        ensures
            match PublicInputView::from_public_inputs(*io, proof_with_pis@.public_inputs) {
                Ok(held) => r is Ok && r->Ok_0@ == held,
                Err(e) => r == Err::<PublicInput, InputError>(e),
            },
    {
        let public_inputs = proof_with_pis.public_inputs.as_slice();
        let available = public_inputs.len();
        match io {
            CircuitIO::Bytes(io) => {
                let count = io.input;
                let width = ByteVariable::nb_elements();
                let offset = match count.checked_mul(width) {
                    Some(offset) => offset,
                    Option::None => { return Err(InputError::LengthMismatch); },
                };
                if offset > available {
                    return Err(InputError::LengthMismatch);
                }
                let mut bytes: Vec<u8> = Vec::new();
                let mut i: usize = 0;
                while i < count
                    invariant
                        i <= count,
                        width == 8,
                        offset == count * 8,
                        offset <= public_inputs@.len(),
                        bytes@ == bytes_of_elements(public_inputs@, i as nat),
                    decreases count - i,
                {
                    let start = i * width;
                    let chunk = vstd::slice::slice_subrange(public_inputs, start, start + width);
                    bytes.push(ByteVariable::from_elements(chunk));
                    assert(bytes@ =~= bytes_of_elements(public_inputs@, (i + 1) as nat));
                    i += 1;
                }
                Ok(PublicInput::Bytes(bytes))
            },
            CircuitIO::Elements(io) => {
                let offset = io.input;
                if offset > available {
                    return Err(InputError::LengthMismatch);
                }
                let prefix = vstd::slice::slice_subrange(public_inputs, 0, offset);
                let elements = vstd::slice::slice_to_vec(prefix);
                Ok(PublicInput::Elements(elements))
            },
            _ => Ok(PublicInput::NoData()),
        }
    }

    /// Appends the element encoding of `value` to the container's elements.
    /// Fails with `WrongMode`, and changes nothing, unless the container
    /// holds elements or a cyclic proof.
    pub fn write<V: CircuitVariable>(&mut self, value: V::ValueType) -> (r: Result<
        (),
        InputError,
    >)
        ensures
            match old(self)@.write::<V>(value) {
                Ok(after) => r is Ok && final(self)@ == after,
                Err(e) => r == Err::<(), InputError>(e) && *final(self) == *old(self),
            },
            final(self)@.mode() == old(self)@.mode(),
    {
        match self {
            PublicInput::Elements(input) => {
                let encoded = V::elements(value);
                extend_elements(input, encoded.as_slice());
                Ok(())
            },
            PublicInput::CyclicProof(input, _, _) => {
                let encoded = V::elements(value);
                extend_elements(input, encoded.as_slice());
                Ok(())
            },
            _ => Err(InputError::WrongMode),
        }
    }

    /// Appends the elements of `value` to the container's elements. Fails
    /// with `WrongMode`, and changes nothing, unless the container holds
    /// elements or a cyclic proof.
    pub fn write_all(&mut self, value: &[u64]) -> (r: Result<(), InputError>)
        ensures
            match old(self)@.write_all(value@) {
                Ok(after) => r is Ok && final(self)@ == after,
                Err(e) => r == Err::<(), InputError>(e) && *final(self) == *old(self),
            },
            final(self)@.mode() == old(self)@.mode(),
    {
        match self {
            PublicInput::Elements(input) => {
                extend_elements(input, value);
                Ok(())
            },
            PublicInput::CyclicProof(input, _, _) => {
                extend_elements(input, value);
                Ok(())
            },
            _ => Err(InputError::WrongMode),
        }
    }

    /// Appends the byte encoding of `value` to the container's bytes. Fails
    /// with `WrongMode`, and changes nothing, unless the container holds
    /// bytes.
    pub fn evm_write<V: EvmVariable>(&mut self, value: V::ValueType) -> (r: Result<
        (),
        InputError,
    >)
        ensures
            match old(self)@.evm_write::<V>(value) {
                Ok(after) => r is Ok && final(self)@ == after,
                Err(e) => r == Err::<(), InputError>(e) && *final(self) == *old(self),
            },
            final(self)@.mode() == old(self)@.mode(),
    {
        match self {
            PublicInput::Bytes(input) => {
                let encoded = V::encode_value(value);
                extend_bytes(input, encoded.as_slice());
                Ok(())
            },
            _ => Err(InputError::WrongMode),
        }
    }

    /// Appends `bytes` to the container's bytes as they are. Fails with
    /// `WrongMode`, and changes nothing, unless the container holds bytes.
    pub fn evm_write_all(&mut self, bytes: &[u8]) -> (r: Result<(), InputError>)
        ensures
            match old(self)@.evm_write_all(bytes@) {
                Ok(after) => r is Ok && final(self)@ == after,
                Err(e) => r == Err::<(), InputError>(e) && *final(self) == *old(self),
            },
            final(self)@.mode() == old(self)@.mode(),
    {
        match self {
            PublicInput::Bytes(input) => {
                extend_bytes(input, bytes);
                Ok(())
            },
            _ => Err(InputError::WrongMode),
        }
    }

    /// Registers `proof`. A container of sub-proofs takes it as its last
    /// one. A cyclic-proof container takes it into its proof slot, and fails
    /// with `SlotAlreadySet` if that slot is filled. Any other container
    /// fails with `WrongMode`. A container that fails is unchanged.
    pub fn proof_write(&mut self, proof: ProofWithPublicInputs) -> (r: Result<(), InputError>)
        ensures
            match old(self)@.proof_write(proof@) {
                Ok(after) => r is Ok && final(self)@ == after,
                Err(e) => r == Err::<(), InputError>(e) && *final(self) == *old(self),
            },
            final(self)@.mode() == old(self)@.mode(),
    {
        match self {
            PublicInput::RecursiveProofs(input) => {
                input.push(proof);
                assert(proof_views(input@) =~= proof_views(old(self)->RecursiveProofs_0@).push(
                    proof@,
                ));
                Ok(())
            },
            PublicInput::CyclicProof(_, slot, _) => {
                if slot.is_some() {
                    Err(InputError::SlotAlreadySet)
                } else {
                    *slot = Some(proof);
                    Ok(())
                }
            },
            _ => Err(InputError::WrongMode),
        }
    }

    /// Attaches the verifier data `data` to a cyclic-proof container. Fails
    /// with `SlotAlreadySet` if the container has verifier data already, and
    /// with `WrongMode` if it holds no cyclic proof. A container that fails
    /// is unchanged.
    pub fn data_write(&mut self, data: VerifierCircuitData) -> (r: Result<(), InputError>)
        ensures
            match old(self)@.data_write(data@) {
                Ok(after) => r is Ok && final(self)@ == after,
                Err(e) => r == Err::<(), InputError>(e) && *final(self) == *old(self),
            },
            final(self)@.mode() == old(self)@.mode(),
    {
        match self {
            PublicInput::CyclicProof(_, _, slot) => {
                if slot.is_some() {
                    Err(InputError::SlotAlreadySet)
                } else {
                    *slot = Some(MyVerifierCircuitData::new(data));
                    Ok(())
                }
            },
            _ => Err(InputError::WrongMode),
        }
    }
}

} // verus!
