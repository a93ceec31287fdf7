//! The typed wrapper for vertices.
use crate::kind::{Error, ShapeKind};
use crate::shape::{downcast, downcast_spec, Shape};
use vstd::prelude::*;

verus! {

/// A shape whose handle is known to be a vertex.
pub struct Vertex<H> {
    handle: H,
}

impl<H> Vertex<H> {
    /// The kernel handle held.
    pub closed spec fn handle_view(&self) -> H {
        self.handle
    }

    /// The generic shape that this vertex widens to.
    pub open spec fn upcast_view(&self) -> Shape<H> {
        Shape { kind: ShapeKind::Vertex, handle: self.handle_view() }
    }

    /// Narrows a generic shape to a vertex, checked against its kind tag.
    pub fn try_from_shape(shape: Shape<H>) -> (r: Result<Self, Error>)
        ensures
            r is Ok <==> shape.kind == ShapeKind::Vertex,
            r matches Ok(v) ==> Ok::<H, Error>(v.handle_view()) == downcast_spec(shape, ShapeKind::Vertex),
            r matches Err(e) ==> Err::<H, Error>(e) == downcast_spec(shape, ShapeKind::Vertex),
    {
        match downcast(shape, ShapeKind::Vertex) {
            Ok(handle) => Ok(Vertex { handle }),
            Err(e) => Err(e),
        }
    }

    /// Widens this vertex to a generic shape; always succeeds.
    pub fn into_shape(self) -> (r: Shape<H>)
        ensures
            r == self.upcast_view(),
    {
        Shape { kind: ShapeKind::Vertex, handle: self.handle }
    }

    /// The kernel handle, borrowed.
    pub fn handle(&self) -> (r: &H)
        ensures
            *r == self.handle_view(),
    {
        &self.handle
    }
}

} // verus!
