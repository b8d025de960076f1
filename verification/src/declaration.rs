//! What a circuit declares about its public data.
use vstd::prelude::*;

verus! {

/// The encoding in which a circuit exposes its public data. It is fixed when
/// the circuit is declared.
#[derive(Debug, Clone, Copy, PartialEq, Eq, Structural)]
pub enum Mode {
    Bytes,
    Elements,
    RecursiveProofs,
    RemoteRecursiveProofs,
    CyclicProof,
    NoData,
}

/// A declaration of byte-encoded public data: how many bytes go in and out.
#[derive(Debug, Clone, Copy, PartialEq, Eq, Structural)]
pub struct BytesIO {
    pub input: usize,
    pub output: usize,
}

/// A declaration of public data made of field elements: how many elements go
/// in and out.
#[derive(Debug, Clone, Copy, PartialEq, Eq, Structural)]
pub struct ElementsIO {
    pub input: usize,
    pub output: usize,
}

/// A declaration of a circuit that verifies a list of sub-proofs: how many
/// proofs go in and how many elements come out.
#[derive(Debug, Clone, Copy, PartialEq, Eq, Structural)]
pub struct RecursiveProofsIO {
    pub input: usize,
    pub output: usize,
}

/// A declaration of a circuit that verifies a proof of itself: how many
/// elements go in and out beside the proof.
#[derive(Debug, Clone, Copy, PartialEq, Eq, Structural)]
pub struct CyclicProofIO {
    pub input: usize,
    pub output: usize,
}

/// The public interface that a circuit declares.
#[derive(Debug, Clone, Copy, PartialEq, Eq, Structural)]
pub enum CircuitIO {
    Bytes(BytesIO),
    Elements(ElementsIO),
    RecursiveProofs(RecursiveProofsIO),
    RemoteRecursiveProofs(RecursiveProofsIO),
    CyclicProof(CyclicProofIO),
    NoData(),
}

impl CircuitIO {
    /// The mode that this declaration fixes.
    pub open spec fn spec_mode(&self) -> Mode {
        match self {
            CircuitIO::Bytes(_) => Mode::Bytes,
            CircuitIO::Elements(_) => Mode::Elements,
            CircuitIO::RecursiveProofs(_) => Mode::RecursiveProofs,
            CircuitIO::RemoteRecursiveProofs(_) => Mode::RemoteRecursiveProofs,
            CircuitIO::CyclicProof(_) => Mode::CyclicProof,
            CircuitIO::NoData() => Mode::NoData,
        }
    }

    /// Whether a container can be read back from the public buffer of a
    /// proof of a circuit with this declaration. That is so for bytes, for
    /// elements, and for a circuit without public data.
    pub open spec fn spec_supports_extraction(&self) -> bool {
        self is Bytes || self is Elements || self is NoData
    }

    /// Whether a container can be read back from the public buffer of a
    /// proof of a circuit with this declaration.
    #[verifier::when_used_as_spec(spec_supports_extraction)]
    pub fn supports_extraction(&self) -> (b: bool)
        ensures
            b == self.spec_supports_extraction(),
    {
        match self {
            CircuitIO::Bytes(_) => true,
            CircuitIO::Elements(_) => true,
            CircuitIO::NoData() => true,
            _ => false,
        }
    }

    /// The mode that this declaration fixes.
    #[verifier::when_used_as_spec(spec_mode)]
    pub fn mode(&self) -> (m: Mode)
        ensures
            m == self.spec_mode(),
    {
        match self {
            CircuitIO::Bytes(_) => Mode::Bytes,
            CircuitIO::Elements(_) => Mode::Elements,
            CircuitIO::RecursiveProofs(_) => Mode::RecursiveProofs,
            CircuitIO::RemoteRecursiveProofs(_) => Mode::RemoteRecursiveProofs,
            CircuitIO::CyclicProof(_) => Mode::CyclicProof,
            CircuitIO::NoData() => Mode::NoData,
        }
    }
}

} // verus!
