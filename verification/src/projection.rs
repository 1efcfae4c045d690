use vstd::prelude::*;

use geodesy::ctx::Context;

use crate::error::Error;
use crate::srid::SpatialReferenceIdentifier;

verus! {

// ----- Trusted declarations of the engine types -------------------------------------

/// The engine's context provider, which owns the instantiated operators.
#[verifier::external_type_specification]
#[verifier::external_body]
pub struct ExMinimal(geodesy::ctx::Minimal);

/// The engine's handle to one instantiated transform operator.
#[verifier::external_type_specification]
#[verifier::external_body]
pub struct ExOpHandle(geodesy::ctx::OpHandle);

/// The engine's coordinate operand: four doubles, opaque to the library.
#[verifier::external_type_specification]
#[verifier::external_body]
pub struct ExCoor4D(geodesy::coord::Coor4D);

// ----- Names for the engine's outcomes -----------------------------------------------

/// Whether the engine can instantiate an operator from this definition text
/// in a fresh context. A fresh `Minimal` context always carries the same
/// built-in operators and adaptors and reads no outside resources, so the
/// outcome depends on the definition alone.
pub uninterp spec fn op_buildable(definition: Seq<char>) -> bool;

/// The operands as the operator instantiated from `definition` leaves them:
/// the engine's operators are arithmetic over their inputs, reading no
/// files, clock or randomness, so the rewritten operands depend on the
/// definition and the incoming operands alone.
pub uninterp spec fn apply_outcome_data(
    definition: Seq<char>,
    operands: Seq<geodesy::coord::Coor4D>,
) -> Seq<geodesy::coord::Coor4D>;

/// How many of the operands the operator instantiated from `definition`
/// transforms successfully, a function of the definition and the incoming
/// operands for the same reason as [`apply_outcome_data`].
pub uninterp spec fn apply_outcome_count(
    definition: Seq<char>,
    operands: Seq<geodesy::coord::Coor4D>,
) -> int;

// ----- Trusted wrappers around the engine calls -------------------------------------

/// Relies on geodesy's `Context::new` and `Context::op` for the `Minimal`
/// provider: a fresh context is always built with the same built-in
/// operators and adaptors, and `op` then parses and instantiates the
/// definition in it, so success is the function of the definition text that
/// `op_buildable` names. A rejected definition is reported as the text of
/// the engine's error, rendered by its `Display` impl. Some operator
/// constructors resolve their parameters at instantiation time through
/// unwraps that panic on names outside the engine's built-in tables (an
/// unknown ellipsoid, for instance), so only the library's own table of
/// definitions is admitted: those instantiate without reaching a panic.
#[verifier::external_body]
fn engine_new_op(
    definition: &str,
) -> (r: Result<(geodesy::ctx::Minimal, geodesy::ctx::OpHandle), String>)
    requires
        exists|f: SpatialReferenceIdentifier, t: SpatialReferenceIdentifier|
            definition@ == Projector::spec_transform_definition(f, t),
    ensures
        r is Ok <==> op_buildable(definition@),
{
    let mut ctx = geodesy::ctx::Minimal::new();
    match ctx.op(definition) {
        Ok(handle) => Ok((ctx, handle)),
        Err(e) => Err(format!("{e}")),
    }
}

// ----- The projector -----------------------------------------------------------------

/// A transform context bound to one ordered pair of spatial reference
/// systems.
///
/// The projector exclusively owns the engine context it was built with; it
/// is acquired once at construction, reused for any number of conversions,
/// and released when the projector is dropped. Converting in the other
/// direction takes a new projector with the identifiers swapped.
#[derive(Debug)]
pub struct Projector {
    from: SpatialReferenceIdentifier,
    to: SpatialReferenceIdentifier,
    definition: &'static str,
    ctx: geodesy::ctx::Minimal,
    op: geodesy::ctx::OpHandle,
}

impl Projector {
    /// The spatial reference system the inputs are expressed in.
    pub closed spec fn spec_from(self) -> SpatialReferenceIdentifier {
        self.from
    }

    /// The spatial reference system the outputs are expressed in.
    pub closed spec fn spec_to(self) -> SpatialReferenceIdentifier {
        self.to
    }

    /// The engine operator definition this projector was built from.
    pub closed spec fn spec_definition(self) -> Seq<char> {
        self.definition@
    }

    /// The spatial reference system the inputs are expressed in.
    pub fn source(&self) -> (s: SpatialReferenceIdentifier)
        ensures
            s == self.spec_from(),
    {
        self.from
    }

    /// The spatial reference system the outputs are expressed in.
    pub fn target(&self) -> (s: SpatialReferenceIdentifier)
        ensures
            s == self.spec_to(),
    {
        self.to
    }

    /// The engine operator definition that carries coordinates of the
    /// system `from` over to the system `to`.
    ///
    /// Geographic coordinates are the engine's base representation
    /// (longitude, latitude in radians), so a geographic pair maps to the
    /// engine's identity operator; the projected and geocentric systems
    /// are reached by their respective operators.
    pub open spec fn spec_transform_definition(
        from: SpatialReferenceIdentifier,
        to: SpatialReferenceIdentifier,
    ) -> Seq<char> {
        match (from, to) {
            (SpatialReferenceIdentifier::Epsg4326, SpatialReferenceIdentifier::Epsg4326) => "noop"@,
            (SpatialReferenceIdentifier::Epsg4326, SpatialReferenceIdentifier::Epsg4978) => "cart"@,
            (SpatialReferenceIdentifier::Epsg4326, SpatialReferenceIdentifier::Epsg4979) => "noop"@,
            (SpatialReferenceIdentifier::Epsg4326, SpatialReferenceIdentifier::Epsg25832) => "utm zone=32"@,
            (SpatialReferenceIdentifier::Epsg4978, SpatialReferenceIdentifier::Epsg4326) => "inv cart"@,
            (SpatialReferenceIdentifier::Epsg4978, SpatialReferenceIdentifier::Epsg4978) => "noop"@,
            (SpatialReferenceIdentifier::Epsg4978, SpatialReferenceIdentifier::Epsg4979) => "inv cart"@,
            (SpatialReferenceIdentifier::Epsg4978, SpatialReferenceIdentifier::Epsg25832) => "inv cart | utm zone=32"@,
            (SpatialReferenceIdentifier::Epsg4979, SpatialReferenceIdentifier::Epsg4326) => "noop"@,
            (SpatialReferenceIdentifier::Epsg4979, SpatialReferenceIdentifier::Epsg4978) => "cart"@,
            (SpatialReferenceIdentifier::Epsg4979, SpatialReferenceIdentifier::Epsg4979) => "noop"@,
            (SpatialReferenceIdentifier::Epsg4979, SpatialReferenceIdentifier::Epsg25832) => "utm zone=32"@,
            (SpatialReferenceIdentifier::Epsg25832, SpatialReferenceIdentifier::Epsg4326) => "inv utm zone=32"@,
            (SpatialReferenceIdentifier::Epsg25832, SpatialReferenceIdentifier::Epsg4978) => "inv utm zone=32 | cart"@,
            (SpatialReferenceIdentifier::Epsg25832, SpatialReferenceIdentifier::Epsg4979) => "inv utm zone=32"@,
            (SpatialReferenceIdentifier::Epsg25832, SpatialReferenceIdentifier::Epsg25832) => "noop"@,
        }
    }

    /// The engine operator definition for an ordered pair of spatial
    /// reference systems.
    pub fn transform_definition(
        from: SpatialReferenceIdentifier,
        to: SpatialReferenceIdentifier,
    ) -> (s: &'static str)
        ensures
            s@ == Self::spec_transform_definition(from, to),
    {
        match (from, to) {
            (SpatialReferenceIdentifier::Epsg4326, SpatialReferenceIdentifier::Epsg4326) => "noop",
            (SpatialReferenceIdentifier::Epsg4326, SpatialReferenceIdentifier::Epsg4978) => "cart",
            (SpatialReferenceIdentifier::Epsg4326, SpatialReferenceIdentifier::Epsg4979) => "noop",
            (SpatialReferenceIdentifier::Epsg4326, SpatialReferenceIdentifier::Epsg25832) => "utm zone=32",
            (SpatialReferenceIdentifier::Epsg4978, SpatialReferenceIdentifier::Epsg4326) => "inv cart",
            (SpatialReferenceIdentifier::Epsg4978, SpatialReferenceIdentifier::Epsg4978) => "noop",
            (SpatialReferenceIdentifier::Epsg4978, SpatialReferenceIdentifier::Epsg4979) => "inv cart",
            (SpatialReferenceIdentifier::Epsg4978, SpatialReferenceIdentifier::Epsg25832) => "inv cart | utm zone=32",
            (SpatialReferenceIdentifier::Epsg4979, SpatialReferenceIdentifier::Epsg4326) => "noop",
            (SpatialReferenceIdentifier::Epsg4979, SpatialReferenceIdentifier::Epsg4978) => "cart",
            (SpatialReferenceIdentifier::Epsg4979, SpatialReferenceIdentifier::Epsg4979) => "noop",
            (SpatialReferenceIdentifier::Epsg4979, SpatialReferenceIdentifier::Epsg25832) => "utm zone=32",
            (SpatialReferenceIdentifier::Epsg25832, SpatialReferenceIdentifier::Epsg4326) => "inv utm zone=32",
            (SpatialReferenceIdentifier::Epsg25832, SpatialReferenceIdentifier::Epsg4978) => "inv utm zone=32 | cart",
            (SpatialReferenceIdentifier::Epsg25832, SpatialReferenceIdentifier::Epsg4979) => "inv utm zone=32",
            (SpatialReferenceIdentifier::Epsg25832, SpatialReferenceIdentifier::Epsg25832) => "noop",
        }
    }

    /// Relies on geodesy's `Context::apply` in the forward direction, and
    /// on the projector's construction, which pairs the handle with the
    /// context it was instantiated in, so the operator lookup cannot fail.
    /// The operator rewrites the operands in place through the engine's
    /// coordinate-set interface, which cannot change their number, and
    /// reports how many it transformed successfully — never more than there
    /// are; both outcomes are the functions of the projector's definition
    /// and the operands that `apply_outcome_data` and `apply_outcome_count`
    /// name. The engine's operators process each operand index by itself
    /// (a pipeline applies its steps to each index independently and counts
    /// the minimum coverage), so each operand's outcome equals its outcome
    /// as a batch of one, and the batch is fully covered exactly when every
    /// operand by itself is. The identity operator `noop` reports full
    /// coverage and leaves the operands untouched.
    #[verifier::external_body]
    fn engine_apply(&self, data: &mut Vec<geodesy::coord::Coor4D>) -> (r: Result<usize, String>)
        ensures
            final(data)@.len() == old(data)@.len(),
            final(data)@ == apply_outcome_data(self.spec_definition(), old(data)@),
            r matches Ok(n) && n as int == apply_outcome_count(self.spec_definition(), old(data)@)
                && n <= old(data)@.len(),
            forall|i: int| 0 <= i < old(data)@.len() ==> final(data)@[i]
                == (#[trigger] apply_outcome_data(self.spec_definition(), seq![old(data)@[i]]))[0],
            (apply_outcome_count(self.spec_definition(), old(data)@) == old(data)@.len())
                <==> (forall|i: int| 0 <= i < old(data)@.len() ==>
                    #[trigger] apply_outcome_count(self.spec_definition(), seq![old(data)@[i]]) == 1),
            self.spec_definition() == "noop"@ ==> final(data)@ == old(data)@
                && apply_outcome_count(self.spec_definition(), old(data)@) == old(data)@.len(),
    {
        match self.ctx.apply(self.op, geodesy::ctx::Fwd, data) {
            Ok(n) => Ok(n),
            Err(e) => Err(format!("{e}")),
        }
    }

    /// Binds a new projector to the ordered pair `(from, to)`.
    ///
    /// Succeeds exactly when the engine can instantiate the pair's operator
    /// definition; a rejected pair is reported as a construction error and
    /// nothing of the partially built context is kept.
    pub fn new(
        from: SpatialReferenceIdentifier,
        to: SpatialReferenceIdentifier,
    ) -> (r: Result<Projector, Error>)
        ensures
            r is Ok <==> op_buildable(Self::spec_transform_definition(from, to)),
            r matches Ok(p) ==> p.spec_from() == from && p.spec_to() == to
                && p.spec_definition() == Self::spec_transform_definition(from, to),
            r matches Err(e) ==> e is ConstructionError,
    {
        let definition = Self::transform_definition(from, to);
        proof {
            assert(definition@ == Self::spec_transform_definition(from, to));
        }
        let parts = engine_new_op(definition);
        Self::assemble(from, to, definition, parts)
    }

    /// Turns the engine's answer to the operator instantiation into the
    /// constructed projector: context and handle yield the projector for
    /// the requested pair, a rejection yields a construction error carrying
    /// the engine's message. Kept private so that every projector pairs a
    /// handle with the context it was instantiated in.
    fn assemble(
        from: SpatialReferenceIdentifier,
        to: SpatialReferenceIdentifier,
        definition: &'static str,
        parts: Result<(geodesy::ctx::Minimal, geodesy::ctx::OpHandle), String>,
    ) -> (r: Result<Projector, Error>)
        ensures
            r is Ok <==> parts is Ok,
            r matches Ok(p) ==> p.spec_from() == from && p.spec_to() == to
                && p.spec_definition() == definition@,
            r matches Err(e) ==> (parts matches Err(text) && e == Error::ConstructionError(text)),
    {
        match parts {
            Ok((ctx, op)) => Ok(Projector { from, to, definition, ctx, op }),
            Err(e) => Err(Error::ConstructionError(e)),
        }
    }

    /// The all-or-nothing batch rule: the engine's report of how many
    /// operands it transformed is accepted only when it covers the whole
    /// batch; any partial result is discarded and reported as a conversion
    /// failure, so a caller never sees output for a batch the engine could
    /// not transform completely.
    pub fn batch_outcome(
        data: Vec<geodesy::coord::Coor4D>,
        converted: usize,
    ) -> (r: Result<Vec<geodesy::coord::Coor4D>, Error>)
        ensures
            r is Ok <==> converted == data@.len(),
            r matches Ok(out) ==> out == data,
            r matches Err(e) ==> e is ConversionError,
    {
        if converted == data.len() {
            Ok(data)
        } else {
            Err(Error::ConversionError)
        }
    }

    /// Converts a batch of engine coordinates from the source system to the
    /// target system: succeeds exactly when the engine's operator covers
    /// every element — equivalently, exactly when each element converts by
    /// itself, and the empty batch always does — and then returns the
    /// engine's rewritten operands in order, each element the same as its
    /// own single conversion; an incomplete batch fails atomically with a
    /// conversion error. Within the same system the batch comes back
    /// unchanged.
    pub fn convert_coords(
        &self,
        points: Vec<geodesy::coord::Coor4D>,
    ) -> (r: Result<Vec<geodesy::coord::Coor4D>, Error>)
        ensures
            r is Ok <==> apply_outcome_count(self.spec_definition(), points@) == points@.len(),
            r is Ok <==> (forall|i: int| 0 <= i < points@.len() ==>
                #[trigger] apply_outcome_count(self.spec_definition(), seq![points@[i]]) == 1),
            r matches Ok(out) ==> out@ == apply_outcome_data(self.spec_definition(), points@)
                && out@.len() == points@.len()
                && (forall|i: int| 0 <= i < points@.len() ==> out@[i]
                    == (#[trigger] apply_outcome_data(self.spec_definition(), seq![points@[i]]))[0]),
            points@.len() == 0 ==> r is Ok,
            self.spec_definition() == "noop"@ ==> (r matches Ok(out) && out@ == points@),
            r matches Err(e) ==> e is ConversionError,
    {
        let mut data = points;
        match self.engine_apply(&mut data) {
            Ok(converted) => Self::batch_outcome(data, converted),
            Err(_) => Err(Error::ConversionError),
        }
    }

    /// Converts a single engine coordinate from the source system to the
    /// target system: succeeds exactly when the engine transforms it, and
    /// then returns the engine's output for it. Within the same system the
    /// coordinate comes back unchanged.
    pub fn convert_coord(
        &self,
        point: geodesy::coord::Coor4D,
    ) -> (r: Result<geodesy::coord::Coor4D, Error>)
        ensures
            r is Ok <==> apply_outcome_count(self.spec_definition(), seq![point]) == 1,
            r matches Ok(c) ==> c == apply_outcome_data(self.spec_definition(), seq![point])[0],
            self.spec_definition() == "noop"@ ==> (r matches Ok(c) && c == point),
            r matches Err(e) ==> e is ConversionError,
    {
        let mut data: Vec<geodesy::coord::Coor4D> = Vec::new();
        data.push(point);
        proof {
            assert(data@ =~= seq![point]);
        }
        match self.convert_coords(data) {
            Ok(mut out) => Ok(out.remove(0)),
            Err(e) => Err(e),
        }
    }
}

/// Binding a pair of equal spatial reference systems yields the text of the
/// engine's identity operator. Together with the conversion contracts —
/// which return the input unchanged for a projector bound to that operator
/// — a same-pair projector converts every coordinate to itself.
pub proof fn lemma_same_pair_is_identity(s: SpatialReferenceIdentifier)
    ensures
        Projector::spec_transform_definition(s, s) == "noop"@,
{
}

}
