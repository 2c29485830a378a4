//! The decode path: from the visitor's events to assembled features, and from
//! an assembled feature to an ordered sequence of named fields.
use crate::error::Error;
use crate::geometry::{
    assembled, geometry_to_value, geometry_value, new_writer, take_geometry, Geometry,
};
use crate::map::{lists_names, names_of, no_properties, PropertyMap};
use crate::ser::{column_json, ColumnValueSerializer};
use crate::value::{ColumnValue, JsonModel, JsonValue};
use vstd::prelude::*;

verus! {

/// The name of the field under which a feature's geometry is exposed.
pub open spec fn geometry_column() -> Seq<char> {
    "geometry"@
}

/// The properties once one more was collected: a null value is dropped and
/// leaves them as they are; any other value stands for its name from then on.
pub open spec fn with_property(
    properties: Map<Seq<char>, JsonModel>,
    name: Seq<char>,
    value: JsonModel,
) -> Map<Seq<char>, JsonModel> {
    if value is Null {
        properties
    } else {
        properties.insert(name, value)
    }
}

/// No name of the properties stands for null.
pub open spec fn null_free(properties: Map<Seq<char>, JsonModel>) -> bool {
    forall|name: Seq<char>| #[trigger]
        properties.contains_key(name) ==> !(properties[name] is Null)
}

/// Collects one typed property into the properties: its generic value is
/// stored under its name, over any value stored there before, and a null value
/// is dropped.
pub fn collect_property(properties: &mut PropertyMap, name: &str, value: &ColumnValue)
    ensures
        final(properties)@ == with_property(old(properties)@, name@, column_json(value@)),
        null_free(old(properties)@) ==> null_free(final(properties)@),
{
    let generic = ColumnValueSerializer(value).serialize();
    if !generic.is_null() {
        properties.put(name.to_owned(), generic);
    }
}

/// The geometry and the properties of the feature that the visitor is
/// reporting.
#[derive(Debug)]
pub struct GeozeroFeature {
    pub current_properties: PropertyMap,
    pub current_geometry: geozero::geo_types::GeoWriter,
}

impl GeozeroFeature {
    /// A collector that holds no property and has finished no geometry.
    pub fn new() -> (r: Self)
        ensures
            r.current_properties@ == no_properties(),
            assembled(r.current_geometry) is None,
    {
        GeozeroFeature { current_properties: PropertyMap::empty(), current_geometry: new_writer() }
    }

    /// Takes one property of the current feature, and asks the visitor to go
    /// on: the answer is never to stop.
    pub fn property(&mut self, idx: usize, name: &str, value: &ColumnValue) -> (r: Result<
        bool,
        Error,
    >)
        ensures
            r matches Ok(stop) && !stop,
            final(self).current_properties@ == with_property(
                old(self).current_properties@,
                name@,
                column_json(value@),
            ),
            null_free(old(self).current_properties@) ==> null_free(final(self).current_properties@),
            final(self).current_geometry == old(self).current_geometry,
    {
        collect_property(&mut self.current_properties, name, value);
        Ok(false)
    }

    /// A feature begins: what was collected before is dropped.
    pub fn feature_begin(&mut self, idx: u64) -> (r: Result<(), Error>)
        ensures
            r is Ok,
            final(self).current_properties@ == no_properties(),
            assembled(final(self).current_geometry) is None,
    {
        self.current_geometry = new_writer();
        self.current_properties = PropertyMap::empty();
        Ok(())
    }

    /// The geometry of a feature begins: what the writer held is dropped, and
    /// the properties stay.
    pub fn geometry_begin(&mut self) -> (r: Result<(), Error>)
        ensures
            r is Ok,
            assembled(final(self).current_geometry) is None,
            final(self).current_properties == old(self).current_properties,
    {
        self.current_geometry = new_writer();
        Ok(())
    }

    /// The properties of a feature begin: those collected before are dropped,
    /// and the writer stays.
    pub fn properties_begin(&mut self) -> (r: Result<(), Error>)
        ensures
            r is Ok,
            final(self).current_properties@ == no_properties(),
            final(self).current_geometry == old(self).current_geometry,
    {
        self.current_properties = PropertyMap::empty();
        Ok(())
    }
}

impl Default for GeozeroFeature {
    fn default() -> (r: Self)
        ensures
            r.current_properties@ == no_properties(),
            assembled(r.current_geometry) is None,
    {
        GeozeroFeature::new()
    }
}

/// One assembled feature, and the cursor over its fields: the geometry first,
/// under its reserved name, then each property.
#[derive(Debug)]
pub struct Feature {
    pub geometry: Geometry,
    pub properties: PropertyMap,
    /// The names of the properties that the cursor has not reached yet; the
    /// last one is the next.
    pub map_keys: Vec<String>,
    /// The name of the field that the cursor stands at, none before the first.
    pub current_col: Option<String>,
}

/// The value of the field that the cursor stands at.
#[derive(Debug)]
pub enum FieldValue<'a> {
    /// The geometry, in its generic form.
    Geometry(serde_json::Value),
    /// The value of a property, as it is stored.
    Property(&'a JsonValue),
}

/// The name that an optional text holds.
pub open spec fn name_of(text: Option<String>) -> Option<Seq<char>> {
    match text {
        Some(t) => Some(t@),
        None => None,
    }
}

/// The field that the cursor moves to, and the names that it has not reached
/// after that. Before the first field it moves to the geometry. Then it takes
/// the last of the names left, and where none is left it has no field.
pub open spec fn next_field(current: Option<Seq<char>>, keys: Seq<Seq<char>>) -> (
    Option<Seq<char>>,
    Seq<Seq<char>>,
) {
    if current is None {
        (Some(geometry_column()), keys)
    } else if keys.len() > 0 {
        (Some(keys.last()), keys.drop_last())
    } else {
        (None, keys)
    }
}

impl Feature {
    /// The feature of a geometry and its properties, with the cursor before
    /// the first field and every property's name still to come.
    pub fn new(geometry: Geometry, properties: PropertyMap) -> (r: Self)
        ensures
            r.geometry == geometry,
            r.properties == properties,
            r.fresh(),
    {
        let map_keys = properties.key_list();
        Feature { geometry, properties, current_col: None, map_keys }
    }

    /// The cursor is before the first field, and the names to come are those
    /// of the properties, each once.
    pub open spec fn fresh(self) -> bool {
        &&& self.current_col is None
        &&& lists_names(names_of(self.map_keys@), self.properties@)
    }

    /// Assembles the feature that was collected: its geometry is the one that
    /// the writer has finished, its properties are those collected, and the
    /// collector is left empty. Where no geometry was finished this is the fault
    /// of a missing geometry, and the properties stay with the collector.
    pub fn try_from(value: &mut GeozeroFeature) -> (r: Result<Self, Error>)
        ensures
            assembled(final(value).current_geometry) is None,
            match assembled(old(value).current_geometry) {
                Some(geometry) => {
                    &&& r matches Ok(feature)
                    &&& feature.geometry == geometry
                    &&& feature.properties@ == old(value).current_properties@
                    &&& feature.fresh()
                    &&& final(value).current_properties@ == no_properties()
                },
                None => {
                    &&& r matches Err(e)
                    &&& e.is_missing_geometry()
                    &&& final(value).current_properties == old(value).current_properties
                },
            },
    {
        match take_geometry(&mut value.current_geometry) {
            Some(geometry) => {
                let mut properties = PropertyMap::empty();
                core::mem::swap(&mut value.current_properties, &mut properties);
                Ok(Feature::new(geometry, properties))
            },
            None => Err(Error::missing_geometry()),
        }
    }

    /// Moves the cursor to the next field and gives its name, none when the
    /// fields are exhausted. A cursor that has given none stands before the
    /// first field again.
    pub fn next_key(&mut self) -> (r: Option<String>)
        ensures
            name_of(r) == next_field(name_of(old(self).current_col), names_of(old(self).map_keys@)).0,
            name_of(final(self).current_col) == name_of(r),
            names_of(final(self).map_keys@) == next_field(
                name_of(old(self).current_col),
                names_of(old(self).map_keys@),
            ).1,
            final(self).geometry == old(self).geometry,
            final(self).properties == old(self).properties,
    {
        if self.current_col.is_none() {
            self.current_col = Some("geometry".to_owned());
        } else {
            let ghost keys = names_of(self.map_keys@);
            self.current_col = self.map_keys.pop();
            assert(names_of(self.map_keys@) =~= if keys.len() > 0 {
                keys.drop_last()
            } else {
                keys
            });
        }
        match &self.current_col {
            Some(col) => Some(col.clone()),
            None => None,
        }
    }

    /// What [`Feature::next_value`] gives: the geometry's generic form at the
    /// geometry's field, the stored value at a property's field.
    pub open spec fn value_found(self, r: Result<FieldValue<'_>, Error>) -> bool {
        match name_of(self.current_col) {
            Some(name) => if name == geometry_column() {
                match geometry_value(self.geometry) {
                    Some(generic) => r matches Ok(FieldValue::Geometry(value)) && value == generic,
                    None => r matches Err(Error::SerdeError(_)),
                }
            } else if self.properties@.contains_key(name) {
                r matches Ok(FieldValue::Property(value)) && value@ == self.properties@[name]
            } else {
                r matches Err(e) && e.is_no_value()
            },
            None => r matches Err(e) && e.is_no_value(),
        }
    }

    /// Gives the value of the field that the cursor stands at. It is the fault
    /// of a missing value to ask at a field for which nothing is stored, or
    /// before the first field. At the reserved name the geometry is given, also
    /// where a property bears that name.
    pub fn next_value(&self) -> (r: Result<FieldValue<'_>, Error>)
        ensures
            self.value_found(r),
    {
        match &self.current_col {
            Some(col) => {
                let reserved = "geometry".to_owned();
                if *col == reserved {
                    match geometry_to_value(&self.geometry) {
                        Ok(value) => Ok(FieldValue::Geometry(value)),
                        Err(text) => Err(Error::SerdeError(text)),
                    }
                } else {
                    match self.properties.lookup(col) {
                        Some(value) => Ok(FieldValue::Property(value)),
                        None => Err(Error::no_value()),
                    }
                }
            },
            None => Err(Error::no_value()),
        }
    }
}

/// Collects the features that the visitor reports, one after the other.
#[derive(Debug)]
pub struct DataSourceDeserializer {
    pub features: Vec<Feature>,
    pub current_feature: GeozeroFeature,
}

impl DataSourceDeserializer {
    /// A collector without a feature, ready for the first.
    pub fn new() -> (r: Self)
        ensures
            r.features@.len() == 0,
            r.current_feature.current_properties@ == no_properties(),
            assembled(r.current_feature.current_geometry) is None,
    {
        DataSourceDeserializer { features: Vec::new(), current_feature: GeozeroFeature::new() }
    }

    /// Takes one property of the current feature; the answer is never to stop.
    pub fn property(&mut self, idx: usize, name: &str, value: &ColumnValue) -> (r: Result<
        bool,
        Error,
    >)
        ensures
            r matches Ok(stop) && !stop,
            final(self).current_feature.current_properties@ == with_property(
                old(self).current_feature.current_properties@,
                name@,
                column_json(value@),
            ),
            null_free(old(self).current_feature.current_properties@) ==> null_free(
                final(self).current_feature.current_properties@,
            ),
            final(self).current_feature.current_geometry == old(
                self,
            ).current_feature.current_geometry,
            final(self).features == old(self).features,
    {
        self.current_feature.property(idx, name, value)
    }

    /// The dataset begins: nothing is kept of that.
    pub fn dataset_begin(&mut self) -> (r: Result<(), Error>)
        ensures
            r is Ok,
            *final(self) == *old(self),
    {
        Ok(())
    }

    /// The dataset ends: nothing is kept of that.
    pub fn dataset_end(&mut self) -> (r: Result<(), Error>)
        ensures
            r is Ok,
            *final(self) == *old(self),
    {
        Ok(())
    }

    /// A feature begins: what was collected for the one before is dropped.
    pub fn feature_begin(&mut self, idx: u64) -> (r: Result<(), Error>)
        ensures
            r is Ok,
            final(self).current_feature.current_properties@ == no_properties(),
            assembled(final(self).current_feature.current_geometry) is None,
            final(self).features == old(self).features,
    {
        self.current_feature = GeozeroFeature::new();
        Ok(())
    }

    /// The geometry of a feature begins: what the writer held is dropped, and
    /// the properties stay.
    pub fn geometry_begin(&mut self) -> (r: Result<(), Error>)
        ensures
            r is Ok,
            assembled(final(self).current_feature.current_geometry) is None,
            final(self).current_feature.current_properties == old(
                self,
            ).current_feature.current_properties,
            final(self).features == old(self).features,
    {
        self.current_feature.geometry_begin()
    }

    /// The properties of a feature begin: those collected before are dropped,
    /// and the writer stays.
    pub fn properties_begin(&mut self) -> (r: Result<(), Error>)
        ensures
            r is Ok,
            final(self).current_feature.current_properties@ == no_properties(),
            final(self).current_feature.current_geometry == old(
                self,
            ).current_feature.current_geometry,
            final(self).features == old(self).features,
    {
        self.current_feature.properties_begin()
    }

    /// A feature ends: it is assembled from what was collected and appended to
    /// the features, and the collector is left empty. Where no geometry was
    /// finished this is the fault of a missing geometry and nothing is appended.
    pub fn feature_end(&mut self, idx: u64) -> (r: Result<(), Error>)
        ensures
            assembled(final(self).current_feature.current_geometry) is None,
            match assembled(old(self).current_feature.current_geometry) {
                Some(geometry) => {
                    &&& r is Ok
                    &&& final(self).features@.len() == old(self).features@.len() + 1
                    &&& final(self).features@.drop_last() == old(self).features@
                    &&& final(self).features@.last().geometry == geometry
                    &&& final(self).features@.last().properties@ == old(
                        self,
                    ).current_feature.current_properties@
                    &&& final(self).features@.last().fresh()
                    &&& final(self).current_feature.current_properties@ == no_properties()
                },
                None => {
                    &&& r matches Err(e)
                    &&& e.is_missing_geometry()
                    &&& final(self).features == old(self).features
                    &&& final(self).current_feature.current_properties == old(
                        self,
                    ).current_feature.current_properties
                },
            },
    {
        match Feature::try_from(&mut self.current_feature) {
            Ok(feature) => {
                self.features.push(feature);
                assert(self.features@.drop_last() =~= old(self).features@);
                Ok(())
            },
            Err(e) => Err(e),
        }
    }
}

impl Default for DataSourceDeserializer {
    fn default() -> (r: Self)
        ensures
            r.features@.len() == 0,
            r.current_feature.current_properties@ == no_properties(),
            assembled(r.current_feature.current_geometry) is None,
    {
        DataSourceDeserializer::new()
    }
}

} // verus!
