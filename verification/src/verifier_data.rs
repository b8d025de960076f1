//! The data that a verifier needs to check a proof of a circuit.
use vstd::prelude::*;

verus! {

/// The verification key of a circuit, as the bytes that the proving backend
/// wrote. It is opaque here.
#[derive(Debug, Clone, PartialEq, Eq)]
pub struct VerifierOnlyCircuitData {
    pub bytes: Vec<u8>,
}

/// The description of a circuit's shape, as the bytes that the proving
/// backend wrote. It is opaque here.
#[derive(Debug, Clone, PartialEq, Eq)]
pub struct CommonCircuitData {
    pub bytes: Vec<u8>,
}

/// What a verifier of a circuit works with: its key and its shape.
#[derive(Debug, Clone, PartialEq, Eq)]
pub struct VerifierCircuitData {
    pub verifier_only: VerifierOnlyCircuitData,
    pub common: CommonCircuitData,
}

/// The verifier data of a circuit as a cyclic-proof container keeps it. It
/// can be rebuilt from the circuit at any time, so it is no part of what is
/// stored or sent of a container.
#[derive(Debug, Clone, PartialEq, Eq)]
pub struct MyVerifierCircuitData {
    pub verifier_only: VerifierOnlyCircuitData,
    pub common: CommonCircuitData,
}

/// The mathematical value of verifier data, in either of its two forms.
pub struct VerifierDataView {
    pub verifier_only: Seq<u8>,
    pub common: Seq<u8>,
}

impl View for VerifierCircuitData {
    type V = VerifierDataView;

    open spec fn view(&self) -> VerifierDataView {
        VerifierDataView { verifier_only: self.verifier_only.bytes@, common: self.common.bytes@ }
    }
}

impl View for MyVerifierCircuitData {
    type V = VerifierDataView;

    open spec fn view(&self) -> VerifierDataView {
        VerifierDataView { verifier_only: self.verifier_only.bytes@, common: self.common.bytes@ }
    }
}

impl MyVerifierCircuitData {
    /// Keeps the verifier data `data` for a container.
    pub fn new(data: VerifierCircuitData) -> (kept: MyVerifierCircuitData)
        ensures
            kept.verifier_only == data.verifier_only,
            kept.common == data.common,
            kept@ == data@,
    {
        MyVerifierCircuitData { verifier_only: data.verifier_only, common: data.common }
    }

    /// Hands the verifier data back in the form that a verifier takes.
    pub fn materialize(self) -> (data: VerifierCircuitData)
        ensures
            data.verifier_only == self.verifier_only,
            data.common == self.common,
            data@ == self@,
    {
        VerifierCircuitData { verifier_only: self.verifier_only, common: self.common }
    }
}

} // verus!
