//! A collector that keeps the geometry and the properties of each feature as
//! they were reported, without a cursor over them.
use crate::de::{collect_property, null_free, with_property};
use crate::error::Error;
use crate::geometry::{assembled, new_writer, take_geometry, Geometry};
use crate::map::{no_properties, PropertyMap};
use crate::ser::column_json;
use crate::value::ColumnValue;
use vstd::prelude::*;

verus! {

/// One collected feature: its geometry and its properties.
#[derive(Debug)]
pub struct GeozeroFeature {
    pub geometry: Geometry,
    pub properties: PropertyMap,
}

/// Collects the features that the visitor reports, one after the other.
#[derive(Debug)]
pub struct GeozeroCollector {
    pub features: Vec<GeozeroFeature>,
    pub current_geometry: geozero::geo_types::GeoWriter,
    pub current_properties: PropertyMap,
}

impl GeozeroCollector {
    /// A collector without a feature, which holds no property and has finished
    /// no geometry.
    pub fn new() -> (r: Self)
        ensures
            r.features@.len() == 0,
            r.current_properties@ == no_properties(),
            assembled(r.current_geometry) is None,
    {
        GeozeroCollector {
            features: Vec::new(),
            current_geometry: new_writer(),
            current_properties: PropertyMap::empty(),
        }
    }

    /// Takes one property of the current feature, and asks the visitor to go
    /// on: the answer is never to stop.
    pub fn property(&mut self, idx: usize, name: &str, value: &ColumnValue) -> (r: Result<
        bool,
        Error,
    >)
        ensures
            r matches Ok(stop) && !stop,
            final(self).current_properties@ == with_property(
                old(self).current_properties@,
                name@,
                column_json(value@),
            ),
            null_free(old(self).current_properties@) ==> null_free(final(self).current_properties@),
            final(self).current_geometry == old(self).current_geometry,
            final(self).features == old(self).features,
    {
        collect_property(&mut self.current_properties, name, value);
        Ok(false)
    }

    /// The dataset begins: nothing is kept of that.
    pub fn dataset_begin(&mut self) -> (r: Result<(), Error>)
        ensures
            r is Ok,
            *final(self) == *old(self),
    {
        Ok(())
    }

    /// The dataset ends: nothing is kept of that.
    pub fn dataset_end(&mut self) -> (r: Result<(), Error>)
        ensures
            r is Ok,
            *final(self) == *old(self),
    {
        Ok(())
    }

    /// A feature begins: what was collected before is dropped.
    pub fn feature_begin(&mut self, idx: u64) -> (r: Result<(), Error>)
        ensures
            r is Ok,
            final(self).current_properties@ == no_properties(),
            assembled(final(self).current_geometry) is None,
            final(self).features == old(self).features,
    {
        self.current_geometry = new_writer();
        self.current_properties = PropertyMap::empty();
        Ok(())
    }

    /// The properties of a feature begin: those collected before are dropped.
    pub fn properties_begin(&mut self) -> (r: Result<(), Error>)
        ensures
            r is Ok,
            final(self).current_properties@ == no_properties(),
            final(self).current_geometry == old(self).current_geometry,
            final(self).features == old(self).features,
    {
        self.current_properties = PropertyMap::empty();
        Ok(())
    }

    /// The geometry of a feature begins: what the writer held is dropped.
    pub fn geometry_begin(&mut self) -> (r: Result<(), Error>)
        ensures
            r is Ok,
            assembled(final(self).current_geometry) is None,
            final(self).current_properties == old(self).current_properties,
            final(self).features == old(self).features,
    {
        self.current_geometry = new_writer();
        Ok(())
    }

    /// A feature ends: its geometry is the one that the writer has finished,
    /// its properties are those collected, it is appended to the features, and
    /// the collector is left empty. Where no geometry was finished this is the
    /// fault of a missing geometry and nothing is appended.
    pub fn feature_end(&mut self, idx: u64) -> (r: Result<(), Error>)
        ensures
            assembled(final(self).current_geometry) is None,
            match assembled(old(self).current_geometry) {
                Some(geometry) => {
                    &&& r is Ok
                    &&& final(self).features@.len() == old(self).features@.len() + 1
                    &&& final(self).features@.drop_last() == old(self).features@
                    &&& final(self).features@.last().geometry == geometry
                    &&& final(self).features@.last().properties@ == old(self).current_properties@
                    &&& final(self).current_properties@ == no_properties()
                },
                None => {
                    &&& r matches Err(e)
                    &&& e.is_missing_geometry()
                    &&& final(self).features == old(self).features
                    &&& final(self).current_properties == old(self).current_properties
                },
            },
    {
        match take_geometry(&mut self.current_geometry) {
            Some(geometry) => {
                let mut properties = PropertyMap::empty();
                core::mem::swap(&mut self.current_properties, &mut properties);
                self.features.push(GeozeroFeature { geometry, properties });
                assert(self.features@.drop_last() =~= old(self).features@);
                Ok(())
            },
            None => Err(Error::missing_geometry()),
        }
    }
}

impl Default for GeozeroCollector {
    fn default() -> (r: Self)
        ensures
            r.features@.len() == 0,
            r.current_properties@ == no_properties(),
            assembled(r.current_geometry) is None,
    {
        GeozeroCollector::new()
    }
}

} // verus!
