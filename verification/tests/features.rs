use geo::Geometry;
use geozero::GeomProcessor;
use serde_geozero::collector::GeozeroCollector;
use serde_geozero::de::{DataSourceDeserializer, Feature, FieldValue, GeozeroFeature};
use serde_geozero::error::{Error, GeozeroFault};
use serde_geozero::map::PropertyMap;
use serde_geozero::ser::{process_feature, to_geozero_datasource, FeatureEvent};
use serde_geozero::map::ColumnTable;
use serde_geozero::value::{ColumnValue, JsonNumber, JsonValue};

fn point(x: f64, y: f64) -> serde_geozero::geometry::Geometry {
    serde_geozero::geometry::Geometry(Geometry::Point(geo::Point::new(x, y)))
}

fn properties(entries: Vec<(&str, JsonValue)>) -> PropertyMap {
    let mut map = hashbrown::HashMap::new();
    for (name, value) in entries {
        map.insert(name.to_string(), value);
    }
    PropertyMap(map)
}

fn write_point(writer: &mut geozero::geo_types::GeoWriter, x: f64, y: f64) {
    writer.point_begin(0).unwrap();
    writer.xy(x, y, 0).unwrap();
    writer.point_end(0).unwrap();
}

fn missing_geometry() -> Error {
    Error::GeozeroError(GeozeroFault::Geometry("Could not fetch geometry for feature".to_string()))
}

#[test]
fn new_collector_is_empty() {
    let collector = GeozeroFeature::new();
    assert!(collector.current_properties.0.is_empty());
    assert!(collector.current_geometry.is_empty());
    let collector = DataSourceDeserializer::new();
    assert!(collector.features.is_empty());
    let collector = GeozeroCollector::default();
    assert!(collector.features.is_empty());
    assert!(collector.current_properties.0.is_empty());
}

#[test]
fn property_is_stored_under_its_name() {
    let mut collector = GeozeroFeature::new();
    assert_eq!(collector.property(0, "value", &ColumnValue::Int(42)), Ok(false));
    assert_eq!(collector.property(1, "name", &ColumnValue::String("a".to_string())), Ok(false));
    assert_eq!(collector.current_properties.0.len(), 2);
    assert_eq!(
        collector.current_properties.0.get("value"),
        Some(&JsonValue::Number(JsonNumber::PosInt(42)))
    );
    assert_eq!(
        collector.current_properties.0.get("name"),
        Some(&JsonValue::String("a".to_string()))
    );
}

#[test]
fn later_property_of_the_same_name_wins() {
    let mut collector = GeozeroFeature::new();
    collector.property(0, "value", &ColumnValue::Int(1)).unwrap();
    collector.property(0, "value", &ColumnValue::Bool(true)).unwrap();
    assert_eq!(collector.current_properties.0.len(), 1);
    assert_eq!(collector.current_properties.0.get("value"), Some(&JsonValue::Bool(true)));
}

#[test]
fn null_property_is_not_stored() {
    let mut collector = GeozeroFeature::new();
    let not_a_number = ColumnValue::Double(f64::NAN.to_bits());
    assert_eq!(collector.property(0, "ratio", &not_a_number), Ok(false));
    assert!(collector.current_properties.0.is_empty());

    // A null that comes after a value leaves the value where it is.
    collector.property(0, "ratio", &ColumnValue::Double(0.5f64.to_bits())).unwrap();
    collector.property(0, "ratio", &not_a_number).unwrap();
    assert_eq!(
        collector.current_properties.0.get("ratio"),
        Some(&JsonValue::Number(JsonNumber::Float(0.5f64.to_bits())))
    );
}

#[test]
fn signed_maximum_is_decoded_as_it_is() {
    let mut collector = GeozeroFeature::new();
    collector.property(0, "big", &ColumnValue::Long(i64::MAX)).unwrap();
    assert_eq!(
        collector.current_properties.0.get("big"),
        Some(&JsonValue::Number(JsonNumber::PosInt(9223372036854775807)))
    );
    collector.property(1, "part", &ColumnValue::Double(0.25f64.to_bits())).unwrap();
    assert_eq!(
        collector.current_properties.0.get("part"),
        Some(&JsonValue::Number(JsonNumber::Float(0.25f64.to_bits())))
    );
}

#[test]
fn feature_is_assembled_at_its_end() {
    let mut collector = DataSourceDeserializer::new();
    collector.dataset_begin().unwrap();
    collector.feature_begin(0).unwrap();
    write_point(&mut collector.current_feature.current_geometry, 102.0, 0.5);
    collector.properties_begin().unwrap();
    collector.property(0, "name", &ColumnValue::String("Test Point".to_string())).unwrap();
    assert_eq!(collector.feature_end(0), Ok(()));
    collector.dataset_end().unwrap();

    assert_eq!(collector.features.len(), 1);
    assert_eq!(collector.features[0].geometry.0, Geometry::Point(geo::Point::new(102.0, 0.5)));
    assert_eq!(
        collector.features[0].properties.0.get("name"),
        Some(&JsonValue::String("Test Point".to_string()))
    );
    // The collector is empty again.
    assert!(collector.current_feature.current_properties.0.is_empty());
    assert!(collector.current_feature.current_geometry.is_empty());
}

#[test]
fn feature_end_without_geometry_is_a_fault() {
    let mut collector = DataSourceDeserializer::new();
    collector.feature_begin(0).unwrap();
    collector.property(0, "name", &ColumnValue::String("Test Point".to_string())).unwrap();
    assert_eq!(collector.feature_end(0), Err(missing_geometry()));
    assert!(collector.features.is_empty());
    // The properties stay with the collector.
    assert_eq!(collector.current_feature.current_properties.0.len(), 1);

    let mut collector = GeozeroCollector::new();
    assert_eq!(collector.feature_end(0), Err(missing_geometry()));
    assert!(collector.features.is_empty());

    let mut collector = GeozeroFeature::new();
    assert!(matches!(Feature::try_from(&mut collector), Err(e) if e == missing_geometry()));
}

#[test]
fn geometry_is_taken_only_once() {
    let mut collector = GeozeroCollector::new();
    collector.geometry_begin().unwrap();
    write_point(&mut collector.current_geometry, 1.0, 2.0);
    assert_eq!(collector.feature_end(0), Ok(()));
    assert_eq!(collector.feature_end(1), Err(missing_geometry()));
    assert_eq!(collector.features.len(), 1);
}

#[test]
fn begin_events_reset_what_they_name() {
    let mut collector = GeozeroCollector::new();
    write_point(&mut collector.current_geometry, 1.0, 2.0);
    collector.property(0, "a", &ColumnValue::Bool(true)).unwrap();

    collector.properties_begin().unwrap();
    assert!(collector.current_properties.0.is_empty());
    assert!(!collector.current_geometry.is_empty());

    collector.property(0, "a", &ColumnValue::Bool(true)).unwrap();
    collector.geometry_begin().unwrap();
    assert!(collector.current_geometry.is_empty());
    assert_eq!(collector.current_properties.0.len(), 1);

    write_point(&mut collector.current_geometry, 1.0, 2.0);
    collector.feature_begin(1).unwrap();
    assert!(collector.current_geometry.is_empty());
    assert!(collector.current_properties.0.is_empty());
}

#[test]
fn features_are_collected_in_order() {
    let mut collector = GeozeroCollector::new();
    for (fid, x) in [10.0, 20.0, 30.0].into_iter().enumerate() {
        collector.feature_begin(fid as u64).unwrap();
        write_point(&mut collector.current_geometry, x, 0.0);
        collector.property(0, "fid", &ColumnValue::ULong(fid as u64)).unwrap();
        collector.feature_end(fid as u64).unwrap();
    }
    assert_eq!(collector.features.len(), 3);
    for (fid, x) in [10.0, 20.0, 30.0].into_iter().enumerate() {
        assert_eq!(collector.features[fid].geometry.0, Geometry::Point(geo::Point::new(x, 0.0)));
        assert_eq!(
            collector.features[fid].properties.0.get("fid"),
            Some(&JsonValue::Number(JsonNumber::PosInt(fid as u64)))
        );
    }
}

#[test]
fn fields_start_with_the_geometry() {
    let mut feature = Feature::new(
        point(102.0, 0.5),
        properties(vec![
            ("name", JsonValue::String("Test Point".to_string())),
            ("value", JsonValue::Number(JsonNumber::PosInt(42))),
        ]),
    );
    assert_eq!(feature.next_key(), Some("geometry".to_string()));
    let mut rest = vec![feature.next_key().unwrap(), feature.next_key().unwrap()];
    rest.sort();
    assert_eq!(rest, vec!["name".to_string(), "value".to_string()]);
    assert_eq!(feature.next_key(), None);
}

#[test]
fn feature_without_properties_has_one_field() {
    let mut feature = Feature::new(point(0.0, 0.0), properties(Vec::new()));
    assert_eq!(feature.next_key(), Some("geometry".to_string()));
    assert_eq!(feature.next_key(), None);
}

#[test]
fn geometry_field_gives_the_generic_form() {
    let mut feature = Feature::new(point(102.0, 0.5), properties(Vec::new()));
    feature.next_key();
    let expected = serde_json::to_value(Geometry::Point(geo::Point::new(102.0, 0.5))).unwrap();
    match feature.next_value() {
        Ok(FieldValue::Geometry(value)) => {
            assert_eq!(value, expected);
            assert!(value.is_object());
        }
        other => panic!("expected the geometry, got {:?}", other),
    }
}

#[test]
fn property_field_gives_the_stored_value() {
    let mut feature = Feature::new(
        point(0.0, 0.0),
        properties(vec![("name", JsonValue::String("Test Point".to_string()))]),
    );
    feature.next_key();
    assert_eq!(feature.next_key(), Some("name".to_string()));
    match feature.next_value() {
        Ok(FieldValue::Property(value)) => {
            assert_eq!(*value, JsonValue::String("Test Point".to_string()))
        }
        other => panic!("expected a property, got {:?}", other),
    }
    // Asking again at the same field gives the same value.
    assert!(matches!(feature.next_value(), Ok(FieldValue::Property(_))));
}

#[test]
fn names_may_be_asked_without_values() {
    let mut feature = Feature::new(
        point(0.0, 0.0),
        properties(vec![("a", JsonValue::Bool(true)), ("b", JsonValue::Bool(false))]),
    );
    let mut names = Vec::new();
    while let Some(name) = feature.next_key() {
        names.push(name);
    }
    assert_eq!(names.len(), 3);
    assert_eq!(names[0], "geometry");
}

#[test]
fn value_without_a_field_is_a_fault() {
    let feature = Feature::new(point(0.0, 0.0), properties(Vec::new()));
    match feature.next_value() {
        Err(e) => assert_eq!(e, Error::SerdeError("no value found".to_string())),
        Ok(other) => panic!("expected a fault, got {:?}", other),
    }

    let mut feature =
        Feature::new(point(0.0, 0.0), properties(vec![("a", JsonValue::Bool(true))]));
    feature.next_key();
    feature.next_key();
    feature.properties.0.clear();
    match feature.next_value() {
        Err(e) => assert_eq!(e, Error::SerdeError("no value found".to_string())),
        Ok(other) => panic!("expected a fault, got {:?}", other),
    }
}

#[test]
fn one_feature_is_sent_between_its_begin_and_end() {
    let feature = Feature::new(point(1.0, 2.0), properties(vec![("a", JsonValue::Bool(true))]));
    let mut columns = ColumnTable(hashbrown::HashMap::new());
    let mut log = Vec::new();
    assert_eq!(process_feature(7, &feature, &mut columns, &mut log), Ok(()));
    assert_eq!(
        log,
        vec![
            FeatureEvent::FeatureBegin(7),
            FeatureEvent::GeometryBegin,
            FeatureEvent::Geometry(7),
            FeatureEvent::GeometryEnd,
            FeatureEvent::PropertiesBegin,
            FeatureEvent::Property {
                index: 0,
                name: "a".to_string(),
                value: ColumnValue::Bool(true)
            },
            FeatureEvent::PropertiesEnd,
            FeatureEvent::FeatureEnd(7),
        ]
    );
}

#[test]
fn empty_dataset_begins_and_ends() {
    let mut log = Vec::new();
    assert_eq!(to_geozero_datasource(&Vec::new(), &mut log), Ok(()));
    assert_eq!(log, vec![FeatureEvent::DatasetBegin, FeatureEvent::DatasetEnd]);
}

#[test]
fn dataset_shares_one_column_table() {
    let features = vec![
        Feature::new(point(1.0, 2.0), properties(vec![("a", JsonValue::Bool(true))])),
        Feature::new(point(3.0, 4.0), properties(vec![("b", JsonValue::Null)])),
        Feature::new(point(5.0, 6.0), properties(vec![("c", JsonValue::Bool(false))])),
        Feature::new(point(7.0, 8.0), properties(vec![("a", JsonValue::Bool(false))])),
    ];
    let mut log = Vec::new();
    assert_eq!(to_geozero_datasource(&features, &mut log), Ok(()));
    let property = |index: usize, name: &str, value: bool| FeatureEvent::Property {
        index,
        name: name.to_string(),
        value: ColumnValue::Bool(value),
    };
    assert_eq!(
        log,
        vec![
            FeatureEvent::DatasetBegin,
            FeatureEvent::FeatureBegin(0),
            FeatureEvent::GeometryBegin,
            FeatureEvent::Geometry(0),
            FeatureEvent::GeometryEnd,
            FeatureEvent::PropertiesBegin,
            property(0, "a", true),
            FeatureEvent::PropertiesEnd,
            FeatureEvent::FeatureEnd(0),
            FeatureEvent::FeatureBegin(1),
            FeatureEvent::GeometryBegin,
            FeatureEvent::Geometry(1),
            FeatureEvent::GeometryEnd,
            FeatureEvent::PropertiesBegin,
            FeatureEvent::PropertiesEnd,
            FeatureEvent::FeatureEnd(1),
            FeatureEvent::FeatureBegin(2),
            FeatureEvent::GeometryBegin,
            FeatureEvent::Geometry(2),
            FeatureEvent::GeometryEnd,
            FeatureEvent::PropertiesBegin,
            property(1, "c", false),
            FeatureEvent::PropertiesEnd,
            FeatureEvent::FeatureEnd(2),
            FeatureEvent::FeatureBegin(3),
            FeatureEvent::GeometryBegin,
            FeatureEvent::Geometry(3),
            FeatureEvent::GeometryEnd,
            FeatureEvent::PropertiesBegin,
            property(0, "a", false),
            FeatureEvent::PropertiesEnd,
            FeatureEvent::FeatureEnd(3),
            FeatureEvent::DatasetEnd,
        ]
    );
}

#[test]
fn property_named_like_the_geometry_gives_the_geometry() {
    let mut feature = Feature::new(
        point(1.0, 2.0),
        properties(vec![("geometry", JsonValue::String("shadowed".to_string()))]),
    );
    assert_eq!(feature.next_key(), Some("geometry".to_string()));
    assert!(matches!(feature.next_value(), Ok(FieldValue::Geometry(_))));
    assert_eq!(feature.next_key(), Some("geometry".to_string()));
    assert!(matches!(feature.next_value(), Ok(FieldValue::Geometry(_))));
    assert_eq!(feature.next_key(), None);
}

#[test]
fn exhausted_cursor_starts_again_at_the_geometry() {
    let mut feature =
        Feature::new(point(1.0, 2.0), properties(vec![("a", JsonValue::Bool(true))]));
    assert_eq!(feature.next_key(), Some("geometry".to_string()));
    assert_eq!(feature.next_key(), Some("a".to_string()));
    assert_eq!(feature.next_key(), None);
    assert_eq!(feature.next_key(), Some("geometry".to_string()));
    assert_eq!(feature.next_key(), None);
}
