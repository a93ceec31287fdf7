//! Properties of casting and committing that hold for every handle.
use crate::compound::Compound;
use crate::kind::{Error, ShapeKind};
use crate::shape::{commit_spec, downcast_spec, Shape};
use crate::shell::Shell;
use crate::topology::{Edge, Face, Solid, Wire};
use crate::vertex::Vertex;
use vstd::prelude::*;

verus! {

/// Widening any typed wrapper to a generic shape and narrowing it back to the
/// wrapper's own kind succeeds, and gives back the very handle it held.
pub proof fn cast_round_trip<H>(
    v: Vertex<H>,
    e: Edge<H>,
    w: Wire<H>,
    f: Face<H>,
    sh: Shell<H>,
    so: Solid<H>,
    c: Compound<H>,
)
    ensures
        downcast_spec(v.upcast_view(), ShapeKind::Vertex) == Ok::<H, Error>(v.handle_view()),
        downcast_spec(e.upcast_view(), ShapeKind::Edge) == Ok::<H, Error>(e.handle_view()),
        downcast_spec(w.upcast_view(), ShapeKind::Wire) == Ok::<H, Error>(w.handle_view()),
        downcast_spec(f.upcast_view(), ShapeKind::Face) == Ok::<H, Error>(f.handle_view()),
        downcast_spec(sh.upcast_view(), ShapeKind::Shell) == Ok::<H, Error>(sh.handle_view()),
        downcast_spec(so.upcast_view(), ShapeKind::Solid) == Ok::<H, Error>(so.handle_view()),
        downcast_spec(c.upcast_view(), ShapeKind::Compound) == Ok::<H, Error>(c.handle_view()),
{
}

/// Narrowing a shape to a kind that its tag does not carry always fails with a
/// kind mismatch that names both kinds; no handle comes out.
pub proof fn cast_rejection<H>(s: Shape<H>, expected: ShapeKind)
    requires
        s.kind != expected,
    ensures
        downcast_spec(s, expected) == Err::<H, Error>(
            Error::KindMismatch { expected, actual: s.kind },
        ),
{
}

/// When a make-volume yields a shape that is not a solid, committing it reports
/// the kind mismatch against the solid kind.
pub proof fn volume_rejects_non_solid<H>(result: Shape<H>)
    requires
        result.kind != ShapeKind::Solid,
    ensures
        commit_spec(Some(result), ShapeKind::Solid) == Err::<H, Error>(
            Error::KindMismatch { expected: ShapeKind::Solid, actual: result.kind },
        ),
{
}

} // verus!
