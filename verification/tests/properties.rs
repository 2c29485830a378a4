use serde_geozero::error::{Error, GeozeroFault};
use serde_geozero::map::{ColumnTable, PropertyMap};
use serde_geozero::ser::{
    infer_column, json_column, number_to_column, process_entries, process_properties,
    resolve_column, FeatureEvent,
};
use serde_geozero::value::{ColumnValue, JsonNumber, JsonValue};

fn table() -> ColumnTable {
    ColumnTable(hashbrown::HashMap::new())
}

fn name(text: &str) -> String {
    text.to_string()
}

fn property(index: usize, name: &str, value: ColumnValue) -> FeatureEvent {
    FeatureEvent::Property { index, name: name.to_string(), value }
}

#[test]
fn numbers_are_typed_by_their_form() {
    assert_eq!(number_to_column(JsonNumber::PosInt(42)), ColumnValue::Long(42));
    assert_eq!(number_to_column(JsonNumber::NegInt(-42)), ColumnValue::Long(-42));
    assert_eq!(number_to_column(JsonNumber::PosInt(0)), ColumnValue::Long(0));
    assert_eq!(
        number_to_column(JsonNumber::Float(2.5f64.to_bits())),
        ColumnValue::Double(2.5f64.to_bits())
    );
}

#[test]
fn largest_signed_integer_stays_signed() {
    let largest = i64::MAX;
    assert_eq!(number_to_column(JsonNumber::PosInt(largest as u64)), ColumnValue::Long(largest));
    assert_eq!(
        number_to_column(JsonNumber::PosInt(largest as u64 + 1)),
        ColumnValue::ULong(9223372036854775808)
    );
    assert_eq!(number_to_column(JsonNumber::PosInt(u64::MAX)), ColumnValue::ULong(u64::MAX));
    assert_eq!(number_to_column(JsonNumber::NegInt(i64::MIN)), ColumnValue::Long(i64::MIN));
}

#[test]
fn whole_float_stays_a_float() {
    // 1.0 has no fractional digits, but it is a float and is sent as one.
    assert_eq!(
        number_to_column(JsonNumber::Float(1f64.to_bits())),
        ColumnValue::Double(1f64.to_bits())
    );
}

#[test]
fn scalars_are_inferred() {
    let key = name("k");
    assert_eq!(infer_column(&JsonValue::Bool(true), &key), Ok(Some(ColumnValue::Bool(true))));
    assert_eq!(
        infer_column(&JsonValue::String(name("Test Point")), &key),
        Ok(Some(ColumnValue::String(name("Test Point"))))
    );
    assert_eq!(
        infer_column(&JsonValue::Number(JsonNumber::PosInt(42)), &key),
        Ok(Some(ColumnValue::Long(42)))
    );
}

#[test]
fn null_is_inferred_as_no_column() {
    assert_eq!(infer_column(&JsonValue::Null, &name("k")), Ok(None));
}

#[test]
fn array_is_sent_as_compact_json_text() {
    let items = vec![
        serde_json::Value::from(1u64),
        serde_json::Value::from("two"),
        serde_json::Value::Null,
        serde_json::Value::from(vec![serde_json::Value::from(3.5)]),
    ];
    assert_eq!(
        infer_column(&JsonValue::Array(items), &name("k")),
        Ok(Some(ColumnValue::Json(name("[1,\"two\",null,[3.5]]"))))
    );
    assert_eq!(
        infer_column(&JsonValue::Array(Vec::new()), &name("k")),
        Ok(Some(ColumnValue::Json(name("[]"))))
    );
}

#[test]
fn object_is_sent_as_compact_json_text() {
    let mut fields = serde_json::Map::new();
    fields.insert(name("b"), serde_json::Value::from(true));
    fields.insert(name("a"), serde_json::Value::from(1u64));
    assert_eq!(
        infer_column(&JsonValue::Object(fields), &name("k")),
        Ok(Some(ColumnValue::Json(name("{\"a\":1,\"b\":true}"))))
    );
    assert_eq!(
        infer_column(&JsonValue::Object(serde_json::Map::new()), &name("k")),
        Ok(Some(ColumnValue::Json(name("{}"))))
    );
}

#[test]
fn missing_text_is_the_fault_of_the_property() {
    assert_eq!(
        json_column(None, &name("shape")),
        Err(Error::GeozeroError(GeozeroFault::Property(name("shape"))))
    );
    assert_eq!(
        json_column(Some(name("[1]")), &name("shape")),
        Ok(ColumnValue::Json(name("[1]")))
    );
}

#[test]
fn first_names_get_indices_from_zero() {
    let mut columns = table();
    assert_eq!(resolve_column(&mut columns, &name("a")), 0);
    assert_eq!(resolve_column(&mut columns, &name("b")), 1);
    assert_eq!(resolve_column(&mut columns, &name("c")), 2);
    assert_eq!(columns.0.len(), 3);
    assert_eq!(columns.0.get("a"), Some(&0));
    assert_eq!(columns.0.get("b"), Some(&1));
    assert_eq!(columns.0.get("c"), Some(&2));
}

#[test]
fn known_name_keeps_its_index() {
    let mut columns = table();
    assert_eq!(resolve_column(&mut columns, &name("a")), 0);
    assert_eq!(resolve_column(&mut columns, &name("b")), 1);
    assert_eq!(resolve_column(&mut columns, &name("a")), 0);
    assert_eq!(resolve_column(&mut columns, &name("b")), 1);
    assert_eq!(columns.0.len(), 2);
}

#[test]
fn table_of_the_caller_is_taken_as_it_is() {
    // A table that was not filled by this library: the new name still gets the
    // number of names as its index.
    let mut columns = table();
    columns.0.insert(name("x"), 7);
    assert_eq!(resolve_column(&mut columns, &name("x")), 7);
    assert_eq!(resolve_column(&mut columns, &name("y")), 1);
}

#[test]
fn entries_are_sent_in_the_order_given() {
    let (a, b, c) = (name("a"), name("b"), name("c"));
    let (va, vb, vc) = (
        JsonValue::String(name("x")),
        JsonValue::Number(JsonNumber::NegInt(-1)),
        JsonValue::Bool(false),
    );
    let entries = vec![(&c, &vc), (&a, &va), (&b, &vb)];
    let mut columns = table();
    let mut log = Vec::new();
    assert_eq!(process_entries(&entries, &mut columns, &mut log), Ok(()));
    assert_eq!(
        log,
        vec![
            property(0, "c", ColumnValue::Bool(false)),
            property(1, "a", ColumnValue::String(name("x"))),
            property(2, "b", ColumnValue::Long(-1)),
        ]
    );
}

#[test]
fn null_property_sends_nothing_and_takes_no_index() {
    let (a, b, c) = (name("a"), name("b"), name("c"));
    let (va, vb, vc) = (JsonValue::Bool(true), JsonValue::Null, JsonValue::Bool(false));
    let entries = vec![(&a, &va), (&b, &vb), (&c, &vc)];
    let mut columns = table();
    let mut log = Vec::new();
    assert_eq!(process_entries(&entries, &mut columns, &mut log), Ok(()));
    assert_eq!(
        log,
        vec![property(0, "a", ColumnValue::Bool(true)), property(1, "c", ColumnValue::Bool(false))]
    );
    assert_eq!(columns.0.len(), 2);
    assert_eq!(columns.0.get("b"), None);
}

#[test]
fn second_item_without_new_names_reuses_indices() {
    let (a, b) = (name("a"), name("b"));
    let (one, two) = (JsonValue::Bool(true), JsonValue::Bool(false));
    let mut columns = table();
    let mut log = Vec::new();
    process_entries(&vec![(&a, &one), (&b, &two)], &mut columns, &mut log).unwrap();
    let mut second = Vec::new();
    process_entries(&vec![(&b, &one), (&a, &two)], &mut columns, &mut second).unwrap();
    assert_eq!(
        second,
        vec![property(1, "b", ColumnValue::Bool(true)), property(0, "a", ColumnValue::Bool(false))]
    );
    assert_eq!(columns.0.len(), 2);
}

#[test]
fn new_name_in_second_item_gets_the_next_index() {
    let (a, b, c) = (name("a"), name("b"), name("c"));
    let value = JsonValue::Bool(true);
    let mut columns = table();
    let mut log = Vec::new();
    process_entries(&vec![(&a, &value), (&b, &value)], &mut columns, &mut log).unwrap();
    let largest = *columns.0.values().max().unwrap();
    let mut second = Vec::new();
    process_entries(&vec![(&c, &value), (&a, &value)], &mut columns, &mut second).unwrap();
    assert_eq!(
        second,
        vec![property(largest + 1, "c", ColumnValue::Bool(true)), property(0, "a", ColumnValue::Bool(true))]
    );
    assert_eq!(columns.0.get("c"), Some(&2));
}

#[test]
fn log_keeps_what_it_held() {
    let a = name("a");
    let value = JsonValue::Bool(true);
    let mut columns = table();
    let mut log = vec![FeatureEvent::PropertiesBegin];
    process_entries(&vec![(&a, &value)], &mut columns, &mut log).unwrap();
    assert_eq!(
        log,
        vec![FeatureEvent::PropertiesBegin, property(0, "a", ColumnValue::Bool(true))]
    );
}

#[test]
fn no_entries_send_nothing() {
    let mut columns = table();
    let mut log = Vec::new();
    assert_eq!(process_entries(&Vec::new(), &mut columns, &mut log), Ok(()));
    assert!(log.is_empty());
    assert!(columns.0.is_empty());
}

#[test]
fn properties_of_a_map_are_each_sent_once() {
    let mut map = hashbrown::HashMap::new();
    map.insert(name("name"), JsonValue::String(name("Test Point")));
    map.insert(name("value"), JsonValue::Number(JsonNumber::PosInt(42)));
    map.insert(name("gone"), JsonValue::Null);
    let mut columns = table();
    let mut log = Vec::new();
    assert_eq!(process_properties(&PropertyMap(map), &mut columns, &mut log), Ok(()));

    assert_eq!(log.len(), 2);
    let first = property(0, "name", ColumnValue::String(name("Test Point")));
    let second = property(0, "value", ColumnValue::Long(42));
    let swapped_first = property(1, "name", ColumnValue::String(name("Test Point")));
    let swapped_second = property(1, "value", ColumnValue::Long(42));
    assert!(log == vec![first, swapped_second] || log == vec![second, swapped_first]);
    assert_eq!(columns.0.len(), 2);
    assert_eq!(columns.0.get("gone"), None);
}
