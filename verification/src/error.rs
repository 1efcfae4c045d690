use vstd::prelude::*;

verus! {

/// Errors raised while building a projection context or converting values
/// through it.
///
/// The taxonomy keeps the three failure sources apart, since callers may
/// want a different recovery for each: a bad reference-system pair, a point
/// the engine cannot transform, and an orientation transport whose derived
/// basis is too close to singular to trust.
#[derive(Debug)]
pub enum Error {
    /// The engine could not build a transform context for the requested
    /// pair of spatial reference systems.
    ConstructionError(String),
    /// The engine could not transform a given point; a batch conversion
    /// aborts as a whole with this error.
    ConversionError,
    /// The basis derived by the orientation-transport algorithm is too
    /// close to singular to trust.
    DegenerateBasisError,
    /// A numeric code that names no supported spatial reference system.
    UnknownEpsgCodeError,
}

}
