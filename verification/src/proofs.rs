//! Proofs and verifier data, as the container holds them.
use vstd::prelude::*;

verus! {

/// A proof together with the public data that it was made for. The proof
/// itself is opaque here and kept as the bytes that the proving backend wrote;
/// the public buffer is a sequence of field elements.
#[derive(Debug, Clone, PartialEq, Eq)]
pub struct ProofWithPublicInputs {
    pub proof: Vec<u8>,
    pub public_inputs: Vec<u64>,
}

/// The mathematical value of a [`ProofWithPublicInputs`].
pub struct ProofView {
    pub proof: Seq<u8>,
    pub public_inputs: Seq<u64>,
}

impl View for ProofWithPublicInputs {
    type V = ProofView;

    open spec fn view(&self) -> ProofView {
        ProofView { proof: self.proof@, public_inputs: self.public_inputs@ }
    }
}

/// A handle to a proof that is computed out of process. The container keeps
/// it as it is and never resolves it.
#[derive(Debug, Clone, Copy, PartialEq, Eq, Structural)]
pub struct ProofId(pub u128);

} // verus!
