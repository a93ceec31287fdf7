//! The typed wrapper for shells, and the commits of a loft and of a make-volume.
use crate::kind::{Error, ShapeKind};
use crate::shape::{commit, commit_spec, downcast, downcast_spec, Shape};
use crate::topology::{Solid, Wire};
use vstd::prelude::*;

verus! {

/// A loft through cross sections builds an open surface, not a solid.
pub const LOFT_SOLID: bool = false;

/// The kernel checks successive cross sections for compatibility, so that the
/// surface does not come out twisted.
pub const LOFT_CHECK_COMPATIBILITY: bool = true;

/// A shape whose handle is known to be a shell.
pub struct Shell<H> {
    handle: H,
}

impl<H> Shell<H> {
    /// The kernel handle held.
    pub closed spec fn handle_view(&self) -> H {
        self.handle
    }

    /// The generic shape that this shell widens to.
    pub open spec fn upcast_view(&self) -> Shape<H> {
        Shape { kind: ShapeKind::Shell, handle: self.handle_view() }
    }

    /// Narrows a generic shape to a shell, checked against its kind tag.
    pub fn try_from_shape(shape: Shape<H>) -> (r: Result<Self, Error>)
        ensures
            r is Ok <==> shape.kind == ShapeKind::Shell,
            r matches Ok(v) ==> Ok::<H, Error>(v.handle_view()) == downcast_spec(shape, ShapeKind::Shell),
            r matches Err(e) ==> Err::<H, Error>(e) == downcast_spec(shape, ShapeKind::Shell),
    {
        match downcast(shape, ShapeKind::Shell) {
            Ok(handle) => Ok(Shell { handle }),
            Err(e) => Err(e),
        }
    }

    /// Widens this shell to a generic shape; always succeeds.
    pub fn into_shape(self) -> (r: Shape<H>)
        ensures
            r == self.upcast_view(),
    {
        Shape { kind: ShapeKind::Shell, handle: self.handle }
    }

    /// The kernel handle, borrowed.
    pub fn handle(&self) -> (r: &H)
        ensures
            *r == self.handle_view(),
    {
        &self.handle
    }
}

impl<H> Shell<H> {
    /// Checks the cross sections of a loft: at least two wires are needed.
    /// They are handed back unchanged, in the order given, which is the order
    /// in which the kernel sweeps through them.
    pub fn loft_sections(wires: Vec<Wire<H>>) -> (r: Result<Vec<Wire<H>>, Error>)
        ensures
            r is Ok <==> wires@.len() >= 2,
            r matches Ok(v) ==> v@ == wires@,
            r matches Err(e) ==> e == (Error::TooFewWires { given: wires@.len() as usize }),
    {
        if wires.len() < 2 {
            Err(Error::TooFewWires { given: wires.len() })
        } else {
            Ok(wires)
        }
    }

    /// Commits the outcome of a loft: the kernel's result must be a shell.
    pub fn from_loft(outcome: Option<Shape<H>>) -> (r: Result<Self, Error>)
        ensures
            r matches Ok(s) ==> commit_spec(outcome, ShapeKind::Shell) == Ok::<H, Error>(
                s.handle_view(),
            ),
            r matches Err(e) ==> commit_spec(outcome, ShapeKind::Shell) == Err::<H, Error>(e),
    {
        match commit(outcome, ShapeKind::Shell) {
            Ok(handle) => Ok(Shell { handle }),
            Err(e) => Err(e),
        }
    }

    /// Commits the outcome of a make-volume over this shell and a face: the
    /// kernel's result must be a solid, else the kind mismatch is reported.
    pub fn from_volume(outcome: Option<Shape<H>>) -> (r: Result<Solid<H>, Error>)
        ensures
            r matches Ok(s) ==> commit_spec(outcome, ShapeKind::Solid) == Ok::<H, Error>(
                s.handle_view(),
            ),
            r matches Err(e) ==> commit_spec(outcome, ShapeKind::Solid) == Err::<H, Error>(e),
    {
        match outcome {
            None => Err(Error::KernelOperationFailure),
            Some(s) => Solid::try_from_shape(s),
        }
    }
}

} // verus!
