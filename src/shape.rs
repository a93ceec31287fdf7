//! Generic shapes, and the checked narrowing that every typed wrapper goes through.
use crate::kind::{Error, ShapeKind};
use vstd::prelude::*;

verus! {

/// A generic shape: one kernel handle of any kind, owned exclusively, with the
/// kind tag that the kernel reports for it.
pub struct Shape<H> {
    pub kind: ShapeKind,
    pub handle: H,
}

/// What narrowing `s` to `expected` yields: its handle when the tags agree,
/// a kind mismatch naming both tags otherwise.
pub open spec fn downcast_spec<H>(s: Shape<H>, expected: ShapeKind) -> Result<H, Error> {
    if s.kind == expected {
        Ok(s.handle)
    } else {
        Err(Error::KindMismatch { expected, actual: s.kind })
    }
}

/// What committing the outcome of a kernel operation yields: a kernel failure
/// when there is no result, else the result narrowed to `expected`.
pub open spec fn commit_spec<H>(outcome: Option<Shape<H>>, expected: ShapeKind) -> Result<
    H,
    Error,
> {
    match outcome {
        None => Err(Error::KernelOperationFailure),
        Some(s) => downcast_spec(s, expected),
    }
}

/// Narrows `shape` to `expected`, checked against its kind tag.
pub fn downcast<H>(shape: Shape<H>, expected: ShapeKind) -> (r: Result<H, Error>)
    ensures
        r == downcast_spec(shape, expected),
{
    if shape.kind == expected {
        Ok(shape.handle)
    } else {
        Err(Error::KindMismatch { expected, actual: shape.kind })
    }
}

/// Takes the outcome of a kernel operation (`None` when the kernel failed) and
/// narrows its result to `expected`.
pub fn commit<H>(outcome: Option<Shape<H>>, expected: ShapeKind) -> (r: Result<H, Error>)
    ensures
        r == commit_spec(outcome, expected),
{
    match outcome {
        None => Err(Error::KernelOperationFailure),
        Some(s) => downcast(s, expected),
    }
}

impl<H> Shape<H> {
    /// Wraps a kernel handle together with the kind tag that the kernel reports.
    pub fn new(kind: ShapeKind, handle: H) -> (r: Self)
        ensures
            r.kind == kind,
            r.handle == handle,
    {
        Shape { kind, handle }
    }

    /// The kind tag of the handle.
    pub fn kind(&self) -> (r: ShapeKind)
        ensures
            r == self.kind,
    {
        self.kind
    }

    /// The kernel handle, borrowed.
    pub fn handle(&self) -> (r: &H)
        ensures
            *r == self.handle,
    {
        &self.handle
    }

    /// Replaces this shape by the result of an edge fillet. When the kernel
    /// produced no result, the shape is left as it was and the failure is
    /// reported.
    pub fn apply_fillet(&mut self, outcome: Option<Shape<H>>) -> (r: Result<(), Error>)
        ensures
            outcome is None ==> r == Err::<(), Error>(Error::KernelOperationFailure),
            outcome is None ==> *final(self) == *old(self),
            outcome is Some ==> r is Ok && *final(self) == outcome->Some_0,
    {
        match outcome {
            None => Err(Error::KernelOperationFailure),
            Some(s) => {
                *self = s;
                Ok(())
            },
        }
    }

    /// Turns the mesh writer's success flag into a result.
    pub fn export_status(written: bool) -> (r: Result<(), Error>)
        ensures
            written <==> r is Ok,
            !written ==> r == Err::<(), Error>(Error::ExportFailure),
    {
        if written {
            Ok(())
        } else {
            Err(Error::ExportFailure)
        }
    }
}

} // verus!
