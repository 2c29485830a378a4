//! The geometry of a feature and the writer that assembles it.
//!
//! A geometry is built by `geozero`'s `GeoWriter` from the visitor's events and
//! is a `geo` geometry when it is done. The library never looks inside either:
//! it carries the geometry through, and of the writer it knows only which
//! geometry it would hand out.
use vstd::prelude::*;

verus! {

/// `geozero::geo_types::GeoWriter`, of which nothing is read but, through
/// [`assembled`], the geometry that it would hand out.
#[verifier::external_type_specification]
#[verifier::external_body]
pub struct ExGeoWriter(geozero::geo_types::GeoWriter);

/// One assembled geometry: a `geo` geometry that is carried through unread.
#[verifier::external_body]
#[derive(Debug)]
pub struct Geometry(pub geo::Geometry);

/// The geometry that the writer holds for taking, none where it holds none.
pub uninterp spec fn assembled(writer: geozero::geo_types::GeoWriter) -> Option<Geometry>;

/// The generic form of a geometry, `None` where `serde_json` cannot give one.
pub uninterp spec fn geometry_value(geometry: Geometry) -> Option<serde_json::Value>;

/// Calls `GeoWriter::new`: the new writer has finished no geometry.
#[verifier::external_body]
pub(crate) fn new_writer() -> (writer: geozero::geo_types::GeoWriter)
    ensures
        assembled(writer) is None,
{
    geozero::geo_types::GeoWriter::new()
}

/// Calls `GeoWriter::take_geometry`: hands out what the writer has finished,
/// none where it has finished nothing, and leaves it with nothing finished.
#[verifier::external_body]
pub(crate) fn take_geometry(writer: &mut geozero::geo_types::GeoWriter) -> (r: Option<Geometry>)
    ensures
        r == assembled(*old(writer)),
        assembled(*final(writer)) is None,
{
    writer.take_geometry().map(Geometry)
}

/// Calls `serde_json::to_value` on the geometry and turns the error into its
/// text. The value is a function of the geometry alone; the contract names it
/// and leaves open whether the call succeeds.
#[verifier::external_body]
pub(crate) fn geometry_to_value(geometry: &Geometry) -> (r: Result<serde_json::Value, String>)
    ensures
        r matches Ok(value) ==> geometry_value(*geometry) == Some(value),
        r is Err ==> geometry_value(*geometry) is None,
{
    serde_json::to_value(&geometry.0).map_err(|e| e.to_string())
}

} // verus!
