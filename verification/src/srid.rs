use vstd::prelude::*;

use crate::error::Error;

verus! {

/// The closed set of spatial reference systems the library supports.
///
/// Each identifier maps to exactly one engine-recognized string identifier
/// (an authority code such as `"EPSG:4326"`); the lookup is pure and has no
/// mutable state.
#[derive(Clone, Copy, Debug, PartialEq, Eq, Structural)]
pub enum SpatialReferenceIdentifier {
    /// Geographic 2D, WGS 84.
    Epsg4326,
    /// Geocentric cartesian, WGS 84.
    Epsg4978,
    /// Geographic 3D, WGS 84.
    Epsg4979,
    /// Projected, ETRS89 / UTM zone 32N.
    Epsg25832,
}

impl SpatialReferenceIdentifier {
    /// The numeric EPSG code of this identifier.
    pub open spec fn spec_epsg_code(self) -> u32 {
        match self {
            SpatialReferenceIdentifier::Epsg4326 => 4326,
            SpatialReferenceIdentifier::Epsg4978 => 4978,
            SpatialReferenceIdentifier::Epsg4979 => 4979,
            SpatialReferenceIdentifier::Epsg25832 => 25832,
        }
    }

    /// The engine string identifier of this identifier.
    pub open spec fn spec_as_str(self) -> Seq<char> {
        match self {
            SpatialReferenceIdentifier::Epsg4326 => "EPSG:4326"@,
            SpatialReferenceIdentifier::Epsg4978 => "EPSG:4978"@,
            SpatialReferenceIdentifier::Epsg4979 => "EPSG:4979"@,
            SpatialReferenceIdentifier::Epsg25832 => "EPSG:25832"@,
        }
    }

    /// Whether a numeric code names a supported spatial reference system.
    pub open spec fn supported_code(code: u32) -> bool {
        code == 4326 || code == 4978 || code == 4979 || code == 25832
    }

    /// The numeric EPSG code of this identifier.
    pub fn epsg_code(&self) -> (code: u32)
        ensures
            code == self.spec_epsg_code(),
    {
        match self {
            SpatialReferenceIdentifier::Epsg4326 => 4326,
            SpatialReferenceIdentifier::Epsg4978 => 4978,
            SpatialReferenceIdentifier::Epsg4979 => 4979,
            SpatialReferenceIdentifier::Epsg25832 => 25832,
        }
    }

    /// The engine string identifier for this spatial reference system.
    pub fn as_str(&self) -> (s: &'static str)
        ensures
            s@ == self.spec_as_str(),
    {
        match self {
            SpatialReferenceIdentifier::Epsg4326 => "EPSG:4326",
            SpatialReferenceIdentifier::Epsg4978 => "EPSG:4978",
            SpatialReferenceIdentifier::Epsg4979 => "EPSG:4979",
            SpatialReferenceIdentifier::Epsg25832 => "EPSG:25832",
        }
    }

    /// Looks a numeric EPSG code up in the table of supported systems.
    ///
    /// Succeeds exactly on the supported codes; every other code is
    /// rejected with [`Error::UnknownEpsgCodeError`].
    pub fn from_epsg_code(code: u32) -> (r: Result<Self, Error>)
        ensures
            r is Ok <==> Self::supported_code(code),
            r matches Ok(s) ==> s.spec_epsg_code() == code,
            r matches Err(e) ==> e is UnknownEpsgCodeError,
    {
        if code == 4326 {
            Ok(SpatialReferenceIdentifier::Epsg4326)
        } else if code == 4978 {
            Ok(SpatialReferenceIdentifier::Epsg4978)
        } else if code == 4979 {
            Ok(SpatialReferenceIdentifier::Epsg4979)
        } else if code == 25832 {
            Ok(SpatialReferenceIdentifier::Epsg25832)
        } else {
            Err(Error::UnknownEpsgCodeError)
        }
    }
}

/// Every supported identifier carries a supported code, and the code
/// determines the identifier: the table is a bijection between the
/// enumerated systems and their numeric codes.
pub proof fn lemma_epsg_code_injective(a: SpatialReferenceIdentifier, b: SpatialReferenceIdentifier)
    ensures
        SpatialReferenceIdentifier::supported_code(a.spec_epsg_code()),
        a.spec_epsg_code() == b.spec_epsg_code() ==> a == b,
{
}

/// Each spatial reference system maps to exactly one engine string
/// identifier: distinct identifiers carry distinct engine strings.
pub proof fn lemma_as_str_injective(a: SpatialReferenceIdentifier, b: SpatialReferenceIdentifier)
    ensures
        a.spec_as_str() == b.spec_as_str() ==> a == b,
{
    reveal_strlit("EPSG:4326");
    reveal_strlit("EPSG:4978");
    reveal_strlit("EPSG:4979");
    reveal_strlit("EPSG:25832");
    assert("EPSG:4326"@[6] == '3' && "EPSG:4978"@[6] == '9' && "EPSG:4979"@[6] == '9');
    assert("EPSG:4978"@[8] == '8' && "EPSG:4979"@[8] == '9');
    assert("EPSG:4326"@.len() == 9 && "EPSG:4978"@.len() == 9 && "EPSG:4979"@.len() == 9);
    assert("EPSG:25832"@.len() == 10);
}

}
