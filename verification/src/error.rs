//! The ways in which an operation on a public-input container can fail.
use vstd::prelude::*;

verus! {

/// A violated contract of the container. Each one marks a fault in the
/// calling code or a declaration that does not fit the data, and the
/// container is unchanged when one is returned.
#[derive(Debug, Clone, Copy, PartialEq, Eq, Structural)]
pub enum InputError {
    /// The operation is not defined for the container's mode.
    WrongMode,
    /// A slot of a cyclic-proof container that can be filled once was
    /// already filled.
    SlotAlreadySet,
    /// A proof's public buffer is shorter than its declaration implies.
    LengthMismatch,
}

} // verus!
