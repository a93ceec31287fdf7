//! Kind tags and errors.
use vstd::prelude::*;

verus! {

/// The runtime kind tag of a kernel shape. A handle's tag never changes after
/// the handle is created.
#[derive(Clone, Copy, Debug, PartialEq, Eq, Structural)]
pub enum ShapeKind {
    Vertex,
    Edge,
    Wire,
    Face,
    Shell,
    Solid,
    Compound,
    CompoundSolid,
    Generic,
}

/// Every failure that an operation of this crate can report.
#[derive(Clone, Copy, Debug, PartialEq, Eq, Structural)]
pub enum Error {
    /// A shape was narrowed to a kind that its tag does not carry.
    KindMismatch { expected: ShapeKind, actual: ShapeKind },
    /// A loft was asked for with fewer than two cross-section wires.
    TooFewWires { given: usize },
    /// The kernel could not produce a result for a composition algorithm.
    KernelOperationFailure,
    /// The mesh writer reported that the file was not written.
    ExportFailure,
}

} // verus!
