//! Conversion of 3D coordinates and rigid-body poses between named spatial
//! reference systems, with the cartographic point math delegated to a
//! projection engine.

mod error;
mod projection;
mod srid;

pub use error::Error;
pub use projection::Projector;
pub use srid::SpatialReferenceIdentifier;
