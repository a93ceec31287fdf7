//! The typed wrappers for edges, wires, faces and solids.
use crate::kind::{Error, ShapeKind};
use crate::shape::{downcast, downcast_spec, Shape};
use vstd::prelude::*;

verus! {

/// A shape whose handle is known to be an edge.
pub struct Edge<H> {
    handle: H,
}

impl<H> Edge<H> {
    /// The kernel handle held.
    pub closed spec fn handle_view(&self) -> H {
        self.handle
    }

    /// The generic shape that this edge widens to.
    pub open spec fn upcast_view(&self) -> Shape<H> {
        Shape { kind: ShapeKind::Edge, handle: self.handle_view() }
    }

    /// Narrows a generic shape to an edge, checked against its kind tag.
    pub fn try_from_shape(shape: Shape<H>) -> (r: Result<Self, Error>)
        ensures
            r is Ok <==> shape.kind == ShapeKind::Edge,
            r matches Ok(v) ==> Ok::<H, Error>(v.handle_view()) == downcast_spec(shape, ShapeKind::Edge),
            r matches Err(e) ==> Err::<H, Error>(e) == downcast_spec(shape, ShapeKind::Edge),
    {
        match downcast(shape, ShapeKind::Edge) {
            Ok(handle) => Ok(Edge { handle }),
            Err(e) => Err(e),
        }
    }

    /// Widens this edge to a generic shape; always succeeds.
    pub fn into_shape(self) -> (r: Shape<H>)
        ensures
            r == self.upcast_view(),
    {
        Shape { kind: ShapeKind::Edge, handle: self.handle }
    }

    /// The kernel handle, borrowed.
    pub fn handle(&self) -> (r: &H)
        ensures
            *r == self.handle_view(),
    {
        &self.handle
    }
}

/// A shape whose handle is known to be a wire.
pub struct Wire<H> {
    handle: H,
}

impl<H> Wire<H> {
    /// The kernel handle held.
    pub closed spec fn handle_view(&self) -> H {
        self.handle
    }

    /// The generic shape that this wire widens to.
    pub open spec fn upcast_view(&self) -> Shape<H> {
        Shape { kind: ShapeKind::Wire, handle: self.handle_view() }
    }

    /// Narrows a generic shape to a wire, checked against its kind tag.
    pub fn try_from_shape(shape: Shape<H>) -> (r: Result<Self, Error>)
        ensures
            r is Ok <==> shape.kind == ShapeKind::Wire,
            r matches Ok(v) ==> Ok::<H, Error>(v.handle_view()) == downcast_spec(shape, ShapeKind::Wire),
            r matches Err(e) ==> Err::<H, Error>(e) == downcast_spec(shape, ShapeKind::Wire),
    {
        match downcast(shape, ShapeKind::Wire) {
            Ok(handle) => Ok(Wire { handle }),
            Err(e) => Err(e),
        }
    }

    /// Widens this wire to a generic shape; always succeeds.
    pub fn into_shape(self) -> (r: Shape<H>)
        ensures
            r == self.upcast_view(),
    {
        Shape { kind: ShapeKind::Wire, handle: self.handle }
    }

    /// The kernel handle, borrowed.
    pub fn handle(&self) -> (r: &H)
        ensures
            *r == self.handle_view(),
    {
        &self.handle
    }
}

/// A shape whose handle is known to be a face.
pub struct Face<H> {
    handle: H,
}

impl<H> Face<H> {
    /// The kernel handle held.
    pub closed spec fn handle_view(&self) -> H {
        self.handle
    }

    /// The generic shape that this face widens to.
    pub open spec fn upcast_view(&self) -> Shape<H> {
        Shape { kind: ShapeKind::Face, handle: self.handle_view() }
    }

    /// Narrows a generic shape to a face, checked against its kind tag.
    pub fn try_from_shape(shape: Shape<H>) -> (r: Result<Self, Error>)
        ensures
            r is Ok <==> shape.kind == ShapeKind::Face,
            r matches Ok(v) ==> Ok::<H, Error>(v.handle_view()) == downcast_spec(shape, ShapeKind::Face),
            r matches Err(e) ==> Err::<H, Error>(e) == downcast_spec(shape, ShapeKind::Face),
    {
        match downcast(shape, ShapeKind::Face) {
            Ok(handle) => Ok(Face { handle }),
            Err(e) => Err(e),
        }
    }

    /// Widens this face to a generic shape; always succeeds.
    pub fn into_shape(self) -> (r: Shape<H>)
        ensures
            r == self.upcast_view(),
    {
        Shape { kind: ShapeKind::Face, handle: self.handle }
    }

    /// The kernel handle, borrowed.
    pub fn handle(&self) -> (r: &H)
        ensures
            *r == self.handle_view(),
    {
        &self.handle
    }
}

/// A shape whose handle is known to be a solid.
pub struct Solid<H> {
    handle: H,
}

impl<H> Solid<H> {
    /// The kernel handle held.
    pub closed spec fn handle_view(&self) -> H {
        self.handle
    }

    /// The generic shape that this solid widens to.
    pub open spec fn upcast_view(&self) -> Shape<H> {
        Shape { kind: ShapeKind::Solid, handle: self.handle_view() }
    }

    /// Narrows a generic shape to a solid, checked against its kind tag.
    pub fn try_from_shape(shape: Shape<H>) -> (r: Result<Self, Error>)
        ensures
            r is Ok <==> shape.kind == ShapeKind::Solid,
            r matches Ok(v) ==> Ok::<H, Error>(v.handle_view()) == downcast_spec(shape, ShapeKind::Solid),
            r matches Err(e) ==> Err::<H, Error>(e) == downcast_spec(shape, ShapeKind::Solid),
    {
        match downcast(shape, ShapeKind::Solid) {
            Ok(handle) => Ok(Solid { handle }),
            Err(e) => Err(e),
        }
    }

    /// Widens this solid to a generic shape; always succeeds.
    pub fn into_shape(self) -> (r: Shape<H>)
        ensures
            r == self.upcast_view(),
    {
        Shape { kind: ShapeKind::Solid, handle: self.handle }
    }

    /// The kernel handle, borrowed.
    pub fn handle(&self) -> (r: &H)
        ensures
            *r == self.handle_view(),
    {
        &self.handle
    }
}

/// Whether every shape of `found` is tagged as an edge.
pub open spec fn all_edges<H>(found: Seq<Shape<H>>) -> bool {
    forall|i: int| 0 <= i < found.len() ==> (#[trigger] found[i]).kind == ShapeKind::Edge
}

impl<H> Edge<H> {
    /// Narrows the sub-shapes that a topology explorer found to edges, keeping
    /// the explorer's order. The first shape that is not an edge is reported.
    pub fn try_from_shapes(found: Vec<Shape<H>>) -> (r: Result<Vec<Self>, Error>)
        ensures
            r is Ok <==> all_edges(found@),
            r matches Ok(edges) ==> edges@.len() == found@.len(),
            r matches Ok(edges) ==> forall|i: int|
                0 <= i < found@.len() ==> (#[trigger] edges@[i]).handle_view() == found@[i].handle,
            r matches Err(e) ==> exists|i: int|
                0 <= i < found@.len() && all_edges(found@.take(i)) && (#[trigger] found@[i]).kind
                    != ShapeKind::Edge && e == (Error::KindMismatch {
                    expected: ShapeKind::Edge,
                    actual: found@[i].kind,
                }),
    {
        let ghost orig = found@;
        let mut rest = found;
        let mut edges: Vec<Self> = Vec::new();
        while rest.len() > 0
            invariant
                orig == found@,
                edges@.len() + rest@.len() == orig.len(),
                rest@ == orig.subrange(edges@.len() as int, orig.len() as int),
                all_edges(orig.take(edges@.len() as int)),
                forall|j: int|
                    0 <= j < edges@.len() ==> (#[trigger] edges@[j]).handle_view() == orig[j].handle,
            decreases rest@.len(),
        {
            let ghost k = edges@.len() as int;
            let s = rest.remove(0);
            assert(s == orig[k]);
            match Edge::try_from_shape(s) {
                Ok(e) => {
                    edges.push(e);
                    assert(orig.take(k + 1) =~= orig.take(k).push(orig[k]));
                    assert(rest@ =~= orig.subrange(k + 1, orig.len() as int));
                },
                Err(e) => {
                    assert(orig[k].kind != ShapeKind::Edge);
                    assert(!all_edges(orig));
                    assert(0 <= k < orig.len() && all_edges(orig.take(k)) && orig[k].kind
                        != ShapeKind::Edge && e == (Error::KindMismatch {
                        expected: ShapeKind::Edge,
                        actual: orig[k].kind,
                    }));
                    return Err(e);
                },
            }
        }
        assert(orig.take(edges@.len() as int) =~= orig);
        Ok(edges)
    }
}

} // verus!
