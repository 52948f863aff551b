//! Convex sets: the interface they share, and those that the library holds as data.
pub mod halfspace;
pub mod traits;

pub use halfspace::DHalfspacePolytope;
pub use halfspace::SHalfspacePolytope;
pub use traits::LazySet;
