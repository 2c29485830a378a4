//! The encode path: from generic values back to the visitor's events.
use crate::de::Feature;
use crate::error::Error;
use crate::map::{entries_of, lists_entries, no_columns, ColumnTable, PropertyMap};
use crate::value::{
    array_text, array_to_string, is_finite_double, json_of_unsigned, object_text,
    object_to_string, signed_number, unsigned_value, ColumnModel, ColumnValue, JsonModel,
    JsonNumber, JsonValue,
};
use vstd::prelude::*;

verus! {

/// The view of one typed column value as a generic value.
pub struct ColumnValueSerializer<'a>(pub &'a ColumnValue);

/// The array of numbers that stands for a sequence of bytes.
pub open spec fn byte_array(bytes: Seq<u8>) -> Seq<serde_json::Value> {
    Seq::new(bytes.len(), |i: int| json_of_unsigned(bytes[i] as u64))
}

/// The generic value of a double given by its bits: a number where the double
/// is finite, null where it is not.
pub open spec fn double_json(bits: u64) -> JsonModel {
    if is_finite_double(bits) {
        JsonModel::Number(JsonNumber::Float(bits))
    } else {
        JsonModel::Null
    }
}

/// The generic value of a typed column value. Integers of every width become
/// numbers, floats become numbers where they are finite, the three kinds of
/// text become strings as they stand, and bytes become an array of numbers.
pub open spec fn column_json(column: ColumnModel) -> JsonModel {
    match column {
        ColumnModel::Byte(v) => JsonModel::Number(signed_number(v as i64)),
        ColumnModel::UByte(v) => JsonModel::Number(JsonNumber::PosInt(v as u64)),
        ColumnModel::Bool(v) => JsonModel::Bool(v),
        ColumnModel::Short(v) => JsonModel::Number(signed_number(v as i64)),
        ColumnModel::UShort(v) => JsonModel::Number(JsonNumber::PosInt(v as u64)),
        ColumnModel::Int(v) => JsonModel::Number(signed_number(v as i64)),
        ColumnModel::UInt(v) => JsonModel::Number(JsonNumber::PosInt(v as u64)),
        ColumnModel::Long(v) => JsonModel::Number(signed_number(v)),
        ColumnModel::ULong(v) => JsonModel::Number(JsonNumber::PosInt(v)),
        ColumnModel::Float(bits) => double_json(bits),
        ColumnModel::Double(bits) => double_json(bits),
        ColumnModel::String(s) => JsonModel::String(s),
        ColumnModel::Json(s) => JsonModel::String(s),
        ColumnModel::DateTime(s) => JsonModel::String(s),
        ColumnModel::Binary(bytes) => JsonModel::Array(byte_array(bytes)),
    }
}

/// The generic value of a double given by its bits.
fn double_value(bits: u64) -> (r: JsonValue)
    ensures
        r@ == double_json(bits),
{
    match JsonNumber::from_double_bits(bits) {
        Some(n) => JsonValue::Number(n),
        None => JsonValue::Null,
    }
}

/// The array of numbers that stands for the bytes.
fn bytes_value(bytes: &Vec<u8>) -> (r: JsonValue)
    ensures
        r@ == JsonModel::Array(byte_array(bytes@)),
{
    let mut items: Vec<serde_json::Value> = Vec::new();
    let mut i: usize = 0;
    while i < bytes.len()
        invariant
            i <= bytes.len(),
            items@ == byte_array(bytes@.take(i as int)),
        decreases bytes.len() - i,
    {
        items.push(unsigned_value(bytes[i] as u64));
        i += 1;
        assert(items@ =~= byte_array(bytes@.take(i as int)));
    }
    assert(bytes@.take(i as int) =~= bytes@);
    JsonValue::Array(items)
}

impl<'a> ColumnValueSerializer<'a> {
    /// Gives the column value as a generic value. The width of a number is not
    /// kept, and a text that holds JSON stays a string.
    pub fn serialize(&self) -> (r: JsonValue)
        ensures
            r@ == column_json(self.0@),
            r@ matches JsonModel::Number(n) ==> n.wf(),
    {
        match self.0 {
            ColumnValue::Byte(v) => JsonValue::Number(JsonNumber::from_i64(*v as i64)),
            ColumnValue::UByte(v) => JsonValue::Number(JsonNumber::from_u64(*v as u64)),
            ColumnValue::Bool(v) => JsonValue::Bool(*v),
            ColumnValue::Short(v) => JsonValue::Number(JsonNumber::from_i64(*v as i64)),
            ColumnValue::UShort(v) => JsonValue::Number(JsonNumber::from_u64(*v as u64)),
            ColumnValue::Int(v) => JsonValue::Number(JsonNumber::from_i64(*v as i64)),
            ColumnValue::UInt(v) => JsonValue::Number(JsonNumber::from_u64(*v as u64)),
            ColumnValue::Long(v) => JsonValue::Number(JsonNumber::from_i64(*v)),
            ColumnValue::ULong(v) => JsonValue::Number(JsonNumber::from_u64(*v)),
            ColumnValue::Float(bits) => double_value(*bits),
            ColumnValue::Double(bits) => double_value(*bits),
            ColumnValue::String(s) => JsonValue::String(s.clone()),
            ColumnValue::Json(s) => JsonValue::String(s.clone()),
            ColumnValue::DateTime(s) => JsonValue::String(s.clone()),
            ColumnValue::Binary(bytes) => bytes_value(bytes),
        }
    }
}

/// One call of the visitor protocol, as encoding asks for it.
#[derive(Clone, Debug, PartialEq, Eq)]
pub enum FeatureEvent {
    /// The dataset begins.
    DatasetBegin,
    /// The feature at this position begins.
    FeatureBegin(u64),
    /// The geometry of the current feature begins.
    GeometryBegin,
    /// The geometry of the feature at this position is replayed, event by
    /// event.
    Geometry(u64),
    /// The geometry of the current feature ends.
    GeometryEnd,
    /// The properties of the current feature begin.
    PropertiesBegin,
    /// One property, with its column index, its name and its typed value.
    Property { index: usize, name: String, value: ColumnValue },
    /// The properties of the current feature end.
    PropertiesEnd,
    /// The feature at this position ends.
    FeatureEnd(u64),
    /// The dataset ends.
    DatasetEnd,
}

/// What a [`FeatureEvent`] holds, as a mathematical value.
pub ghost enum EventModel {
    DatasetBegin,
    FeatureBegin(u64),
    GeometryBegin,
    Geometry(u64),
    GeometryEnd,
    PropertiesBegin,
    Property { index: usize, name: Seq<char>, value: ColumnModel },
    PropertiesEnd,
    FeatureEnd(u64),
    DatasetEnd,
}

impl View for FeatureEvent {
    type V = EventModel;

    open spec fn view(&self) -> EventModel {
        match self {
            FeatureEvent::DatasetBegin => EventModel::DatasetBegin,
            FeatureEvent::FeatureBegin(fid) => EventModel::FeatureBegin(*fid),
            FeatureEvent::GeometryBegin => EventModel::GeometryBegin,
            FeatureEvent::Geometry(fid) => EventModel::Geometry(*fid),
            FeatureEvent::GeometryEnd => EventModel::GeometryEnd,
            FeatureEvent::PropertiesBegin => EventModel::PropertiesBegin,
            FeatureEvent::Property { index, name, value } => EventModel::Property {
                index: *index,
                name: name@,
                value: value@,
            },
            FeatureEvent::PropertiesEnd => EventModel::PropertiesEnd,
            FeatureEvent::FeatureEnd(fid) => EventModel::FeatureEnd(*fid),
            FeatureEvent::DatasetEnd => EventModel::DatasetEnd,
        }
    }
}

/// The events of a log, each as a mathematical value.
pub open spec fn events_of(log: Seq<FeatureEvent>) -> Seq<EventModel> {
    Seq::new(log.len(), |i: int| log[i]@)
}

/// The typed column of a number: a double for a float, a signed integer for
/// every integer that fits one, an unsigned integer for the rest.
pub open spec fn number_column(n: JsonNumber) -> ColumnModel {
    match n {
        JsonNumber::Float(bits) => ColumnModel::Double(bits),
        JsonNumber::NegInt(v) => ColumnModel::Long(v),
        JsonNumber::PosInt(v) => if v <= i64::MAX as u64 {
            ColumnModel::Long(v as i64)
        } else {
            ColumnModel::ULong(v)
        },
    }
}

/// The compact JSON text of an array or an object; none for any other value,
/// and none where the text cannot be had.
pub open spec fn nested_text(value: JsonModel) -> Option<Seq<char>> {
    match value {
        JsonModel::Array(items) => array_text(items),
        JsonModel::Object(fields) => object_text(fields),
        _ => None,
    }
}

/// The value is an array or an object of which no text can be had.
pub open spec fn unwritable(value: JsonModel) -> bool {
    (value is Array || value is Object) && nested_text(value) is None
}

/// The typed column under which a generic value is sent: none for null, which
/// is omitted, and none for a value that is unwritable.
pub open spec fn column_of(value: JsonModel) -> Option<ColumnModel> {
    match value {
        JsonModel::Null => None,
        JsonModel::Bool(b) => Some(ColumnModel::Bool(b)),
        JsonModel::Number(n) => Some(number_column(n)),
        JsonModel::String(s) => Some(ColumnModel::String(s)),
        _ => match nested_text(value) {
            Some(text) => Some(ColumnModel::Json(text)),
            None => None,
        },
    }
}

/// Gives the typed column of a number.
pub fn number_to_column(n: JsonNumber) -> (r: ColumnValue)
    ensures
        r@ == number_column(n),
{
    match n {
        JsonNumber::Float(bits) => ColumnValue::Double(bits),
        JsonNumber::NegInt(v) => ColumnValue::Long(v),
        JsonNumber::PosInt(v) => if v <= i64::MAX as u64 {
            ColumnValue::Long(v as i64)
        } else {
            ColumnValue::ULong(v)
        },
    }
}

/// Gives the typed column of an array or object from its compact JSON text, or
/// the fault that names the property where there is no text.
pub fn json_column(text: Option<String>, name: &String) -> (r: Result<ColumnValue, Error>)
    ensures
        match text {
            Some(t) => r matches Ok(column) && column@ == ColumnModel::Json(t@),
            None => r matches Err(e) && e.is_property_fault(name@),
        },
{
    match text {
        Some(t) => Ok(ColumnValue::Json(t)),
        None => Err(Error::property_fault(name)),
    }
}

/// Infers the typed column under which a generic value is sent: a string as a
/// string, a number as [`number_column`] says, a boolean as a boolean, an array
/// or an object as its compact JSON text. Null gives no column. An unwritable
/// value gives the fault that names the property.
pub fn infer_column(value: &JsonValue, name: &String) -> (r: Result<Option<ColumnValue>, Error>)
    ensures
        match r {
            Ok(Some(column)) => column_of(value@) == Some(column@),
            Ok(None) => value@ is Null,
            Err(e) => unwritable(value@) && e.is_property_fault(name@),
        },
{
    match value {
        JsonValue::Null => Ok(None),
        JsonValue::Bool(b) => Ok(Some(ColumnValue::Bool(*b))),
        JsonValue::Number(n) => Ok(Some(number_to_column(*n))),
        JsonValue::String(s) => Ok(Some(ColumnValue::String(s.clone()))),
        JsonValue::Array(items) => match json_column(array_to_string(items), name) {
            Ok(column) => Ok(Some(column)),
            Err(e) => Err(e),
        },
        JsonValue::Object(fields) => match json_column(object_to_string(fields), name) {
            Ok(column) => Ok(Some(column)),
            Err(e) => Err(e),
        },
    }
}

/// The column index under which a name is sent: the one it has in the table,
/// or, for a name that the table does not hold, the number of names in it.
pub open spec fn column_index(table: Map<Seq<char>, usize>, name: Seq<char>) -> usize {
    if table.contains_key(name) {
        table[name]
    } else {
        table.dom().len() as usize
    }
}

/// The table once a name was sent: unchanged where it held the name, else
/// with the name at the next index.
pub open spec fn with_column(table: Map<Seq<char>, usize>, name: Seq<char>) -> Map<
    Seq<char>,
    usize,
> {
    if table.contains_key(name) {
        table
    } else {
        table.insert(name, table.dom().len() as usize)
    }
}

/// Finds the column index of a name, giving it the next index where the table
/// does not hold it yet.
pub fn resolve_column(column_mapping: &mut ColumnTable, name: &String) -> (index: usize)
    ensures
        index == column_index(old(column_mapping)@, name@),
        final(column_mapping)@ == with_column(old(column_mapping)@, name@),
{
    match column_mapping.index_of(name) {
        Some(index) => index,
        None => {
            let index = column_mapping.count();
            column_mapping.put(name.clone(), index);
            index
        },
    }
}

/// How far the properties of a feature have been sent: the events so far, the
/// column table, and the name of the property at which sending failed, if any.
pub ghost struct PropertyRun {
    pub events: Seq<EventModel>,
    pub table: Map<Seq<char>, usize>,
    pub fault: Option<Seq<char>>,
}

/// The run that starts from the given events and table.
pub open spec fn start_run(events: Seq<EventModel>, table: Map<Seq<char>, usize>) -> PropertyRun {
    PropertyRun { events, table, fault: None }
}

/// One property is sent. After a fault nothing happens any more. Null is
/// omitted: no event, and the table stays as it is. Any other value has its
/// name resolved in the table; then its event follows, or, for an unwritable
/// value, the fault.
pub open spec fn property_step(run: PropertyRun, name: Seq<char>, value: JsonModel) -> PropertyRun {
    if run.fault is Some || value is Null {
        run
    } else if unwritable(value) {
        PropertyRun { events: run.events, table: with_column(run.table, name), fault: Some(name) }
    } else {
        PropertyRun {
            events: run.events.push(
                EventModel::Property {
                    index: column_index(run.table, name),
                    name,
                    value: column_of(value).unwrap(),
                },
            ),
            table: with_column(run.table, name),
            fault: None,
        }
    }
}

/// The properties are sent one after the other, in the order given.
pub open spec fn property_run(entries: Seq<(Seq<char>, JsonModel)>, start: PropertyRun) -> PropertyRun
    decreases entries.len(),
{
    if entries.len() == 0 {
        start
    } else {
        property_step(property_run(entries.drop_last(), start), entries.last().0, entries.last().1)
    }
}

/// The log, the table and the result are those of the run.
pub open spec fn run_outcome(
    run: PropertyRun,
    table: Map<Seq<char>, usize>,
    events: Seq<EventModel>,
    r: Result<(), Error>,
) -> bool {
    &&& events == run.events
    &&& table == run.table
    &&& match r {
        Ok(_) => run.fault is None,
        Err(e) => run.fault matches Some(name) && e.is_property_fault(name),
    }
}

/// Once a run has failed, the entries that follow change nothing.
pub proof fn lemma_fault_ends_run(entries: Seq<(Seq<char>, JsonModel)>, start: PropertyRun, i: int)
    requires
        0 <= i <= entries.len(),
        property_run(entries.take(i), start).fault is Some,
    ensures
        property_run(entries, start) == property_run(entries.take(i), start),
    decreases entries.len() - i,
{
    if i == entries.len() {
        assert(entries.take(i) =~= entries);
    } else {
        assert(entries.take(i + 1).drop_last() =~= entries.take(i));
        lemma_fault_ends_run(entries, start, i + 1);
    }
}

/// Sends the properties in the order given. A property whose value is null is
/// passed over. Every other has its name resolved in the column table, and its
/// event is appended to the log. Sending stops at the first unwritable value,
/// with the fault that names its property.
pub fn process_entries(
    entries: &[(&String, &JsonValue)],
    column_mapping: &mut ColumnTable,
    processor: &mut Vec<FeatureEvent>,
) -> (r: Result<(), Error>)
    ensures
        run_outcome(
            property_run(
                entries_of(entries@),
                start_run(events_of(old(processor)@), old(column_mapping)@),
            ),
            final(column_mapping)@,
            events_of(final(processor)@),
            r,
        ),
{
    let ghost all = entries_of(entries@);
    let ghost start = start_run(events_of(processor@), column_mapping@);
    let mut i: usize = 0;
    while i < entries.len()
        invariant
            i <= entries.len(),
            all == entries_of(entries@),
            start == start_run(events_of(old(processor)@), old(column_mapping)@),
            property_run(all.take(i as int), start).fault is None,
            property_run(all.take(i as int), start).events == events_of(processor@),
            property_run(all.take(i as int), start).table == column_mapping@,
        decreases entries.len() - i,
    {
        let name: &String = entries[i].0;
        let value: &JsonValue = entries[i].1;
        proof {
            assert(all.take(i + 1).drop_last() =~= all.take(i as int));
            assert(all.take(i + 1).last() == (name@, value@));
        }
        match infer_column(value, name) {
            Ok(None) => {},
            Ok(Some(column)) => {
                let index = resolve_column(column_mapping, name);
                let ghost before = events_of(processor@);
                processor.push(FeatureEvent::Property { index, name: name.clone(), value: column });
                assert(events_of(processor@) =~= before.push(processor@.last()@));
            },
            Err(e) => {
                let _ = resolve_column(column_mapping, name);
                proof {
                    let before = property_run(all.take(i as int), start);
                    assert(property_run(all.take(i + 1), start) == property_step(
                        before,
                        name@,
                        value@,
                    ));
                    lemma_fault_ends_run(all, start, i + 1);
                }
                return Err(e);
            },
        }
        i += 1;
    }
    assert(all.take(i as int) =~= all);
    Ok(())
}

/// Sends the properties of one feature, in the order in which the map yields
/// them: there is an order of the map's entries in which [`process_entries`]
/// gives this log, this table and this result.
pub fn process_properties(
    properties: &PropertyMap,
    column_mapping: &mut ColumnTable,
    processor: &mut Vec<FeatureEvent>,
) -> (r: Result<(), Error>)
    ensures
        exists|entries: Seq<(Seq<char>, JsonModel)>|
            #[trigger] lists_entries(entries, properties@) && run_outcome(
                property_run(entries, start_run(events_of(old(processor)@), old(column_mapping)@)),
                final(column_mapping)@,
                events_of(final(processor)@),
                r,
            ),
{
    let entries = properties.entry_list();
    let r = process_entries(&entries, column_mapping, processor);
    assert(lists_entries(entries_of(entries@), properties@));
    r
}

/// The events with which a feature opens: its beginning, its geometry between
/// the geometry's beginning and end, and the beginning of its properties.
pub open spec fn feature_opening(fid: u64) -> Seq<EventModel> {
    seq![
        EventModel::FeatureBegin(fid),
        EventModel::GeometryBegin,
        EventModel::Geometry(fid),
        EventModel::GeometryEnd,
        EventModel::PropertiesBegin,
    ]
}

/// The events with which a feature closes: the end of its properties, and its
/// own end.
pub open spec fn feature_closing(fid: u64) -> Seq<EventModel> {
    seq![EventModel::PropertiesEnd, EventModel::FeatureEnd(fid)]
}

/// One feature is sent: its opening, then its properties in the order given,
/// then its closing. After a fault nothing happens any more, and a fault among
/// the properties leaves the feature unclosed.
pub open spec fn feature_run(fid: u64, entries: Seq<(Seq<char>, JsonModel)>, start: PropertyRun) -> PropertyRun {
    if start.fault is Some {
        start
    } else {
        let sent = property_run(entries, start_run(start.events + feature_opening(fid), start.table));
        if sent.fault is Some {
            sent
        } else {
            PropertyRun {
                events: sent.events + feature_closing(fid),
                table: sent.table,
                fault: None,
            }
        }
    }
}

/// The features are sent one after the other, each under its position, with
/// the properties of each in the order given for it.
pub open spec fn features_run(orders: Seq<Seq<(Seq<char>, JsonModel)>>, start: PropertyRun) -> PropertyRun
    decreases orders.len(),
{
    if orders.len() == 0 {
        start
    } else {
        feature_run(
            (orders.len() - 1) as u64,
            orders.last(),
            features_run(orders.drop_last(), start),
        )
    }
}

/// A dataset is sent: its beginning, its features over one column table that
/// starts empty, and, unless a fault ended the run, its end.
pub open spec fn dataset_run(orders: Seq<Seq<(Seq<char>, JsonModel)>>, events: Seq<EventModel>) -> PropertyRun {
    let sent = features_run(orders, start_run(events.push(EventModel::DatasetBegin), no_columns()));
    if sent.fault is Some {
        sent
    } else {
        PropertyRun {
            events: sent.events.push(EventModel::DatasetEnd),
            table: sent.table,
            fault: None,
        }
    }
}

/// Each order lists the properties of the feature at its position, and there
/// is an order for every feature up to the one at which a run over them ends.
pub open spec fn lists_features(
    orders: Seq<Seq<(Seq<char>, JsonModel)>>,
    features: Seq<Feature>,
    complete: bool,
) -> bool {
    &&& orders.len() <= features.len()
    &&& complete ==> orders.len() == features.len()
    &&& forall|i: int|
        0 <= i < orders.len() ==> lists_entries(#[trigger] orders[i], features[i].properties@)
}

/// The log and the result are those of the run.
pub open spec fn dataset_outcome(run: PropertyRun, events: Seq<EventModel>, r: Result<(), Error>) -> bool {
    &&& events == run.events
    &&& match r {
        Ok(_) => run.fault is None,
        Err(e) => run.fault matches Some(name) && e.is_property_fault(name),
    }
}

/// Sends one feature under its position: its beginning, its geometry between
/// the geometry's beginning and end, its properties in the order in which its
/// map yields them, and its end.
pub fn process_feature(
    fid: u64,
    feature: &Feature,
    column_mapping: &mut ColumnTable,
    processor: &mut Vec<FeatureEvent>,
) -> (r: Result<(), Error>)
    ensures
        exists|entries: Seq<(Seq<char>, JsonModel)>|
            #[trigger] lists_entries(entries, feature.properties@) && run_outcome(
                feature_run(
                    fid,
                    entries,
                    start_run(events_of(old(processor)@), old(column_mapping)@),
                ),
                final(column_mapping)@,
                events_of(final(processor)@),
                r,
            ),
{
    let ghost before = events_of(processor@);
    processor.push(FeatureEvent::FeatureBegin(fid));
    processor.push(FeatureEvent::GeometryBegin);
    processor.push(FeatureEvent::Geometry(fid));
    processor.push(FeatureEvent::GeometryEnd);
    processor.push(FeatureEvent::PropertiesBegin);
    assert(events_of(processor@) =~= before + feature_opening(fid));
    let ghost opened = start_run(events_of(processor@), column_mapping@);
    let r = process_properties(&feature.properties, column_mapping, processor);
    let ghost entries = choose|entries: Seq<(Seq<char>, JsonModel)>|
        #[trigger] lists_entries(entries, feature.properties@) && run_outcome(
            property_run(entries, opened),
            column_mapping@,
            events_of(processor@),
            r,
        );
    match r {
        Ok(()) => {
            let ghost sent = events_of(processor@);
            processor.push(FeatureEvent::PropertiesEnd);
            processor.push(FeatureEvent::FeatureEnd(fid));
            assert(events_of(processor@) =~= sent + feature_closing(fid));
            Ok(())
        },
        Err(e) => Err(e),
    }
}

/// Sends a dataset of features to the log: the dataset's beginning, each
/// feature under its position, and the dataset's end. Every property name gets
/// its column index from one table for the whole dataset: the first name seen
/// gets 0, each new one the next number, and a name keeps its index. A fault
/// ends the run where it occurs.
///
/// The order of a feature's properties is the one in which its map yields
/// them: there are such orders, one for every feature that was reached, for
/// which [`dataset_run`] gives this log and this result.
pub fn to_geozero_datasource(input: &[Feature], processor: &mut Vec<FeatureEvent>) -> (r: Result<
    (),
    Error,
>)
    ensures
        exists|orders: Seq<Seq<(Seq<char>, JsonModel)>>|
            #[trigger] lists_features(orders, input@, r is Ok) && dataset_outcome(
                dataset_run(orders, events_of(old(processor)@)),
                events_of(final(processor)@),
                r,
            ),
{
    let ghost before = events_of(processor@);
    processor.push(FeatureEvent::DatasetBegin);
    assert(events_of(processor@) =~= before.push(EventModel::DatasetBegin));
    let ghost start = start_run(events_of(processor@), no_columns());
    let ghost mut orders: Seq<Seq<(Seq<char>, JsonModel)>> = Seq::empty();
    let mut columns = ColumnTable::empty();
    let mut fid: usize = 0;
    while fid < input.len()
        invariant
            fid <= input.len(),
            orders.len() == fid,
            start == start_run(events_of(old(processor)@).push(EventModel::DatasetBegin), no_columns()),
            forall|i: int|
                0 <= i < orders.len() ==> lists_entries(#[trigger] orders[i], input@[i].properties@),
            features_run(orders, start).fault is None,
            features_run(orders, start).events == events_of(processor@),
            features_run(orders, start).table == columns@,
        decreases input.len() - fid,
    {
        let ghost reached = start_run(events_of(processor@), columns@);
        let r = process_feature(fid as u64, &input[fid], &mut columns, processor);
        proof {
            let entries = choose|entries: Seq<(Seq<char>, JsonModel)>|
                #[trigger] lists_entries(entries, input@[fid as int].properties@) && run_outcome(
                    feature_run(fid as u64, entries, reached),
                    columns@,
                    events_of(processor@),
                    r,
                );
            let longer = orders.push(entries);
            assert(longer.drop_last() =~= orders);
            assert(features_run(orders, start) == reached);
            assert(features_run(longer, start) == feature_run(fid as u64, entries, reached));
            orders = longer;
        }
        match r {
            Ok(()) => {},
            Err(e) => {
                assert(lists_features(orders, input@, false));
                return Err(e);
            },
        }
        fid += 1;
    }
    let ghost sent = events_of(processor@);
    processor.push(FeatureEvent::DatasetEnd);
    assert(events_of(processor@) =~= sent.push(EventModel::DatasetEnd));
    proof {
        let run = dataset_run(orders, events_of(old(processor)@));
        assert(run.events == events_of(processor@));
        assert(lists_features(orders, input@, true));
        assert(dataset_outcome(run, events_of(processor@), Ok(())));
    }
    Ok(())
}

} // verus!
