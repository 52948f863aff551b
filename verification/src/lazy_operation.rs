//! Operations on convex sets that are carried out query by query.
pub mod hull;

pub use hull::ConvexHull;
