//! Aggregation and volume-reconstruction layer of a boundary-representation
//! (BREP) solid-modeling kernel, stated over an explicit model of kind-tagged
//! shape handles.
//!
//! The library models a shape handle as its runtime topological kind, the
//! identity of the kernel-resident topology it refers to, the geometric
//! content of that topology, and — for compounds — the ordered children it
//! aggregates.  On that model it verifies the operations this layer owns:
//! classification and fallible downcasting, referential (non-copying)
//! aggregation, deep structural copy, and the normalization of a boolean
//! volume-making result to a compound.

pub mod model;
pub mod shape;
pub mod volume;

pub use model::ShapeKind;
pub use model::ShapeModel;
pub use shape::CastError;
pub use shape::Compound;
pub use shape::Face;
pub use shape::Shape;
pub use shape::Shell;
pub use shape::Solid;
pub use volume::OperationError;
