//! The typed wrapper for compounds, and the commit of a compound assembly.
use crate::kind::{Error, ShapeKind};
use crate::shape::{commit, commit_spec, downcast, downcast_spec, Shape};
use vstd::prelude::*;

verus! {

/// A shape whose handle is known to be a compound.
pub struct Compound<H> {
    handle: H,
}

impl<H> Compound<H> {
    /// The kernel handle held.
    pub closed spec fn handle_view(&self) -> H {
        self.handle
    }

    /// The generic shape that this compound widens to.
    pub open spec fn upcast_view(&self) -> Shape<H> {
        Shape { kind: ShapeKind::Compound, handle: self.handle_view() }
    }

    /// Narrows a generic shape to a compound, checked against its kind tag.
    pub fn try_from_shape(shape: Shape<H>) -> (r: Result<Self, Error>)
        ensures
            r is Ok <==> shape.kind == ShapeKind::Compound,
            r matches Ok(v) ==> Ok::<H, Error>(v.handle_view()) == downcast_spec(shape, ShapeKind::Compound),
            r matches Err(e) ==> Err::<H, Error>(e) == downcast_spec(shape, ShapeKind::Compound),
    {
        match downcast(shape, ShapeKind::Compound) {
            Ok(handle) => Ok(Compound { handle }),
            Err(e) => Err(e),
        }
    }

    /// Widens this compound to a generic shape; always succeeds.
    pub fn into_shape(self) -> (r: Shape<H>)
        ensures
            r == self.upcast_view(),
    {
        Shape { kind: ShapeKind::Compound, handle: self.handle }
    }

    /// The kernel handle, borrowed.
    pub fn handle(&self) -> (r: &H)
        ensures
            *r == self.handle_view(),
    {
        &self.handle
    }
}

impl<H> Compound<H> {
    /// Commits the outcome of a compound builder: the kernel's result must be
    /// a compound.
    pub fn from_assembly(outcome: Option<Shape<H>>) -> (r: Result<Self, Error>)
        ensures
            r matches Ok(c) ==> commit_spec(outcome, ShapeKind::Compound) == Ok::<H, Error>(
                c.handle_view(),
            ),
            r matches Err(e) ==> commit_spec(outcome, ShapeKind::Compound) == Err::<H, Error>(e),
    {
        match commit(outcome, ShapeKind::Compound) {
            Ok(handle) => Ok(Compound { handle }),
            Err(e) => Err(e),
        }
    }
}

} // verus!
