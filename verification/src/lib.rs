//! A container for the public data of a circuit in a proof-composition system.
//!
//! A circuit declares one way in which it exposes public data: as raw bytes,
//! as field elements, as a list of sub-proofs that it verifies, as a list of
//! handles to proofs computed elsewhere, as a cyclic proof of itself, or not
//! at all. [`public_input::PublicInput`] holds that data for one circuit
//! instance. Every operation either has its documented effect or fails with a
//! named error and leaves the container as it was; no operation changes the
//! container's mode.
//!
//! Field elements are held by their canonical 64-bit representative, and
//! proofs and verifier data as plain values, so that every contract can be
//! stated over sequences of integers.
pub mod declaration;
pub mod error;
pub mod laws;
pub mod proofs;
pub mod public_input;
pub mod variable;
pub mod verifier_data;
