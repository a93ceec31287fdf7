//! Typed ownership and checked casting over the shapes of a boundary-representation
//! modeling kernel.
//!
//! A kernel shape handle is held here as an opaque value `H`, together with the
//! kind tag that the kernel reports for it. A generic [`Shape`] carries any kind;
//! each typed wrapper ([`Vertex`], [`Edge`], [`Wire`], [`Face`], [`Shell`],
//! [`Solid`], [`Compound`]) can only be obtained through a checked downcast, so its
//! handle always has the wrapper's kind. Kernel operations run outside this crate;
//! what they hand back is committed here, and every mismatch becomes an [`Error`].

pub mod compound;
pub mod kind;
pub mod laws;
pub mod shape;
pub mod shell;
pub mod topology;
pub mod vertex;

pub use compound::Compound;
pub use kind::{Error, ShapeKind};
pub use shape::Shape;
pub use shell::Shell;
pub use topology::{Edge, Face, Solid, Wire};
pub use vertex::Vertex;
