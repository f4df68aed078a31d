//! Exact predicates for great-circle edges on the sphere, and spherical
//! loops built on them.
//!
//! Points are integer direction vectors: the point on the sphere is where
//! the ray from the centre through the vector leaves it. Every predicate is
//! computed in integer arithmetic, so every answer is exact.

pub mod vector;
pub mod point;
pub mod predicates;
pub mod crossing;
pub mod edge_crosser;
pub mod loops;
