//! What holds of the library as a whole, stated over the specifications that
//! the functions' contracts use, and proved.
use crate::de::{
    geometry_column, name_of, next_field, null_free, with_property, Feature, FieldValue,
};
use crate::error::Error;
use crate::geometry::geometry_value;
use crate::map::{lists_names, no_columns, no_properties};
use crate::ser::{
    column_index, column_json, column_of, dataset_run, feature_opening,
    feature_run, features_run, property_run, property_step, start_run, with_column, EventModel,
    PropertyRun,
};
use crate::value::{is_finite_double, ColumnModel, JsonModel};
use vstd::prelude::*;

verus! {

/// The integer that a typed column holds, none where it holds no integer.
pub open spec fn integer_of(column: ColumnModel) -> Option<int> {
    match column {
        ColumnModel::Byte(v) => Some(v as int),
        ColumnModel::UByte(v) => Some(v as int),
        ColumnModel::Short(v) => Some(v as int),
        ColumnModel::UShort(v) => Some(v as int),
        ColumnModel::Int(v) => Some(v as int),
        ColumnModel::UInt(v) => Some(v as int),
        ColumnModel::Long(v) => Some(v as int),
        ColumnModel::ULong(v) => Some(v as int),
        _ => None,
    }
}

/// An integer column that is turned into a generic value and sent again keeps
/// its value: it comes back as a signed 64-bit integer where it fits one, and as
/// an unsigned one where it does not. Only the width is lost.
pub proof fn law_integer_round_trip(column: ColumnModel)
    requires
        integer_of(column) is Some,
    ensures
        column_of(column_json(column)) matches Some(back) && integer_of(back) == integer_of(column)
            && if integer_of(column).unwrap() <= i64::MAX {
            back is Long
        } else {
            back is ULong
        },
{
}

/// A signed 64-bit integer comes back as the same signed 64-bit integer, the
/// largest one included.
pub proof fn law_long_round_trip(v: i64)
    ensures
        column_of(column_json(ColumnModel::Long(v))) == Some(ColumnModel::Long(v)),
{
}

/// A finite double comes back as the same double, typed as a double and never
/// as an integer.
pub proof fn law_double_round_trip(bits: u64)
    requires
        is_finite_double(bits),
    ensures
        column_of(column_json(ColumnModel::Double(bits))) == Some(ColumnModel::Double(bits)),
{
}

/// A boolean and a string come back as they were; a text that holds JSON and a
/// date come back as strings with the same text.
pub proof fn law_text_round_trip(text: Seq<char>, flag: bool)
    ensures
        column_of(column_json(ColumnModel::Bool(flag))) == Some(ColumnModel::Bool(flag)),
        column_of(column_json(ColumnModel::String(text))) == Some(ColumnModel::String(text)),
        column_of(column_json(ColumnModel::Json(text))) == Some(ColumnModel::String(text)),
        column_of(column_json(ColumnModel::DateTime(text))) == Some(ColumnModel::String(text)),
{
}

/// Properties that hold no null still hold none after one more was collected,
/// whatever its value was; and a null value leaves them as they were.
pub proof fn law_collected_properties_hold_no_null(
    properties: Map<Seq<char>, JsonModel>,
    name: Seq<char>,
    value: JsonModel,
)
    requires
        null_free(properties),
    ensures
        null_free(with_property(properties, name, value)),
        value is Null ==> with_property(properties, name, value) == properties,
        null_free(no_properties()),
{
}

/// The entries without those whose value is null, in the same order.
pub open spec fn without_nulls(entries: Seq<(Seq<char>, JsonModel)>) -> Seq<(Seq<char>, JsonModel)>
    decreases entries.len(),
{
    if entries.len() == 0 {
        entries
    } else if entries.last().1 is Null {
        without_nulls(entries.drop_last())
    } else {
        without_nulls(entries.drop_last()).push(entries.last())
    }
}

/// A property whose value is null is never sent: the events, the column table
/// and the fault of a run are those of the run over the entries without the
/// null ones. A null value sends no event and takes no column index.
pub proof fn law_nulls_send_nothing(entries: Seq<(Seq<char>, JsonModel)>, start: PropertyRun)
    ensures
        property_run(entries, start) == property_run(without_nulls(entries), start),
    decreases entries.len(),
{
    if entries.len() > 0 {
        law_nulls_send_nothing(entries.drop_last(), start);
        if !(entries.last().1 is Null) {
            let kept = without_nulls(entries.drop_last()).push(entries.last());
            assert(kept.drop_last() =~= without_nulls(entries.drop_last()));
        }
    }
}

/// Some name of the table has this index.
pub open spec fn holds_index(table: Map<Seq<char>, usize>, index: int) -> bool {
    exists|name: Seq<char>| #[trigger] table.contains_key(name) && table[name] == index
}

/// The indices of the table are the numbers from 0 up to the number of its
/// names, none left out.
pub open spec fn dense(table: Map<Seq<char>, usize>) -> bool {
    &&& table.dom().finite()
    &&& forall|name: Seq<char>| #[trigger]
        table.contains_key(name) ==> table[name] < table.dom().len()
    &&& forall|index: int| 0 <= index < table.dom().len() ==> #[trigger] holds_index(table, index)
}

/// The table with which a dataset starts is dense.
pub proof fn law_empty_table_is_dense()
    ensures
        dense(no_columns()),
{
}

/// A name that a dense table does not hold gets the index after the largest
/// one: the number of names in the table. Every index given before is smaller,
/// the one just below it was given unless the table was empty, and the table
/// stays dense.
pub proof fn law_new_name_gets_next_index(table: Map<Seq<char>, usize>, name: Seq<char>)
    requires
        dense(table),
        table.dom().len() <= usize::MAX,
        !table.contains_key(name),
    ensures
        column_index(table, name) == table.dom().len(),
        with_column(table, name) == table.insert(name, column_index(table, name)),
        forall|other: Seq<char>| #[trigger]
            table.contains_key(other) ==> table[other] < column_index(table, name),
        table.dom().len() > 0 ==> holds_index(table, column_index(table, name) - 1),
        dense(with_column(table, name)),
{
    let next = with_column(table, name);
    assert(next.dom() =~= table.dom().insert(name));
    assert forall|index: int| 0 <= index < next.dom().len() implies #[trigger] holds_index(
        next,
        index,
    ) by {
        if index < table.dom().len() {
            assert(holds_index(table, index));
            let witness = choose|other: Seq<char>| #[trigger]
                table.contains_key(other) && table[other] == index;
            assert(next.contains_key(witness) && next[witness] == index);
        } else {
            assert(next.contains_key(name) && next[name] == index);
        }
    }
}

/// A name that the table holds keeps its index, and the table stays as it is.
pub proof fn law_known_name_keeps_index(table: Map<Seq<char>, usize>, name: Seq<char>)
    requires
        table.contains_key(name),
    ensures
        column_index(table, name) == table[name],
        with_column(table, name) == table,
{
}

/// The event is that of a property whose index is the one that the table has
/// for its name.
pub open spec fn indexed_by(event: EventModel, table: Map<Seq<char>, usize>) -> bool {
    event matches EventModel::Property { index, name, .. } && table.contains_key(name)
        && table[name] == index
}

/// Every entry is null or has a name that the table holds.
pub open spec fn names_known(entries: Seq<(Seq<char>, JsonModel)>, table: Map<Seq<char>, usize>) -> bool {
    forall|i: int|
        0 <= i < entries.len() ==> (#[trigger] entries[i]).1 is Null || table.contains_key(
            entries[i].0,
        )
}

/// Properties that bring no new name leave the column table as it is, and each
/// of them is sent under the index that the table had for its name. The events
/// that were there before stay in front.
pub proof fn law_known_names_reuse_indices(entries: Seq<(Seq<char>, JsonModel)>, start: PropertyRun)
    requires
        names_known(entries, start.table),
    ensures
        property_run(entries, start).table == start.table,
        start.events.len() <= property_run(entries, start).events.len(),
        property_run(entries, start).events.take(start.events.len() as int) == start.events,
        forall|j: int|
            start.events.len() <= j < property_run(entries, start).events.len() ==> indexed_by(
                #[trigger] property_run(entries, start).events[j],
                start.table,
            ),
    decreases entries.len(),
{
    if entries.len() == 0 {
        assert(start.events.take(start.events.len() as int) =~= start.events);
    } else {
        let front = entries.drop_last();
        assert forall|i: int| 0 <= i < front.len() implies (#[trigger] front[i]).1 is Null
            || start.table.contains_key(front[i].0) by {
            assert(front[i] == entries[i]);
        }
        law_known_names_reuse_indices(front, start);
        let before = property_run(front, start);
        let after = property_run(entries, start);
        assert(after == property_step(before, entries.last().0, entries.last().1));
        assert(entries[entries.len() - 1] == entries.last());
        assert(after.events.take(start.events.len() as int) =~= start.events);
    }
}

/// A later feature that brings no new name reuses the indices that the
/// features before it were given: the column table after it is the table
/// before it, and each of its properties is sent under the table's index.
pub proof fn law_feature_reuses_indices(
    fid: u64,
    entries: Seq<(Seq<char>, JsonModel)>,
    start: PropertyRun,
)
    requires
        names_known(entries, start.table),
    ensures
        feature_run(fid, entries, start).table == start.table,
        forall|j: int|
            start.events.len() <= j < feature_run(fid, entries, start).events.len() ==> {
                let event = #[trigger] feature_run(fid, entries, start).events[j];
                event is Property ==> indexed_by(event, start.table)
            },
{
    if start.fault is None {
        let opened = start_run(start.events + feature_opening(fid), start.table);
        law_known_names_reuse_indices(entries, opened);
        let sent = property_run(entries, opened);
        assert forall|j: int|
            start.events.len() <= j < feature_run(fid, entries, start).events.len() implies {
            let event = #[trigger] feature_run(fid, entries, start).events[j];
            event is Property ==> indexed_by(event, start.table)
        } by {
            if j < opened.events.len() {
                assert(sent.events.take(opened.events.len() as int)[j] == sent.events[j]);
            } else if j < sent.events.len() {
                assert(indexed_by(sent.events[j], opened.table));
            }
        }
    }
}

/// The column table only grows: a name that it holds is still there after any
/// run of properties, under the same index.
pub proof fn law_indices_never_change(
    entries: Seq<(Seq<char>, JsonModel)>,
    start: PropertyRun,
    name: Seq<char>,
)
    requires
        start.table.contains_key(name),
    ensures
        property_run(entries, start).table.contains_key(name),
        property_run(entries, start).table[name] == start.table[name],
    decreases entries.len(),
{
    if entries.len() > 0 {
        law_indices_never_change(entries.drop_last(), start, name);
    }
}

/// Over a whole dataset the column table only grows: a name that it holds is
/// still there after any number of features, under the same index.
pub proof fn law_dataset_indices_never_change(
    orders: Seq<Seq<(Seq<char>, JsonModel)>>,
    start: PropertyRun,
    name: Seq<char>,
)
    requires
        start.table.contains_key(name),
    ensures
        features_run(orders, start).table.contains_key(name),
        features_run(orders, start).table[name] == start.table[name],
    decreases orders.len(),
{
    if orders.len() > 0 {
        law_dataset_indices_never_change(orders.drop_last(), start, name);
        let before = features_run(orders.drop_last(), start);
        if before.fault is None {
            let fid = (orders.len() - 1) as u64;
            let opened = start_run(before.events + feature_opening(fid), before.table);
            law_indices_never_change(orders.last(), opened, name);
        }
    }
}

/// A run of properties keeps a dense table dense, and adds at most one name
/// for each entry.
pub proof fn law_run_keeps_table_dense(entries: Seq<(Seq<char>, JsonModel)>, start: PropertyRun)
    requires
        dense(start.table),
        start.table.dom().len() + entries.len() <= usize::MAX,
    ensures
        dense(property_run(entries, start).table),
        property_run(entries, start).table.dom().len() <= start.table.dom().len() + entries.len(),
    decreases entries.len(),
{
    if entries.len() > 0 {
        law_run_keeps_table_dense(entries.drop_last(), start);
        let before = property_run(entries.drop_last(), start);
        let name = entries.last().0;
        if !before.table.contains_key(name) {
            law_new_name_gets_next_index(before.table, name);
        }
    }
}

/// A run of properties only appends: the events that were there stay in front,
/// in their order.
pub proof fn law_properties_only_append(entries: Seq<(Seq<char>, JsonModel)>, start: PropertyRun)
    ensures
        start.events.len() <= property_run(entries, start).events.len(),
        property_run(entries, start).events.take(start.events.len() as int) == start.events,
    decreases entries.len(),
{
    if entries.len() == 0 {
        assert(start.events.take(start.events.len() as int) =~= start.events);
    } else {
        law_properties_only_append(entries.drop_last(), start);
        let before = property_run(entries.drop_last(), start);
        let after = property_run(entries, start);
        assert(after.events.take(start.events.len() as int) =~= before.events.take(
            start.events.len() as int,
        ));
    }
}

/// A run of features only appends: the events that were there stay in front,
/// in their order.
pub proof fn law_features_only_append(orders: Seq<Seq<(Seq<char>, JsonModel)>>, start: PropertyRun)
    ensures
        start.events.len() <= features_run(orders, start).events.len(),
        features_run(orders, start).events.take(start.events.len() as int) == start.events,
    decreases orders.len(),
{
    if orders.len() == 0 {
        assert(start.events.take(start.events.len() as int) =~= start.events);
    } else {
        law_features_only_append(orders.drop_last(), start);
        let before = features_run(orders.drop_last(), start);
        let after = features_run(orders, start);
        if before.fault is None {
            let fid = (orders.len() - 1) as u64;
            let opened = start_run(before.events + feature_opening(fid), before.table);
            law_properties_only_append(orders.last(), opened);
            let sent = property_run(orders.last(), opened);
            assert(sent.events.take(before.events.len() as int) =~= before.events) by {
                assert(sent.events.take(opened.events.len() as int).take(
                    before.events.len() as int,
                ) =~= sent.events.take(before.events.len() as int));
                assert(opened.events.take(before.events.len() as int) =~= before.events);
            }
            assert(after.events.take(before.events.len() as int) =~= before.events);
        }
        assert(after.events.take(start.events.len() as int) =~= before.events.take(
            start.events.len() as int,
        )) by {
            assert(after.events.take(before.events.len() as int).take(start.events.len() as int)
                =~= after.events.take(start.events.len() as int));
        }
    }
}

/// A dataset that is sent without a fault stands between its beginning and its
/// end: after the events that the log held, the first event is the dataset's
/// beginning and the last is its end.
pub proof fn law_dataset_is_framed(orders: Seq<Seq<(Seq<char>, JsonModel)>>, events: Seq<EventModel>)
    requires
        dataset_run(orders, events).fault is None,
    ensures
        dataset_run(orders, events).events.len() >= events.len() + 2,
        dataset_run(orders, events).events.take(events.len() as int) == events,
        dataset_run(orders, events).events[events.len() as int] == EventModel::DatasetBegin,
        dataset_run(orders, events).events.last() == EventModel::DatasetEnd,
{
    let begun = start_run(events.push(EventModel::DatasetBegin), no_columns());
    law_features_only_append(orders, begun);
    let sent = features_run(orders, begun);
    let done = dataset_run(orders, events);
    assert(sent.events.take(begun.events.len() as int)[events.len() as int] == sent.events[events.len() as int]);
    assert(done.events.take(events.len() as int) =~= begun.events.take(events.len() as int)) by {
        assert(sent.events.take(begun.events.len() as int).take(events.len() as int)
            =~= sent.events.take(events.len() as int));
    }
    assert(begun.events.take(events.len() as int) =~= events);
}

/// The number of entries in all the orders together.
pub open spec fn entry_count(orders: Seq<Seq<(Seq<char>, JsonModel)>>) -> nat
    decreases orders.len(),
{
    if orders.len() == 0 {
        0
    } else {
        entry_count(orders.drop_last()) + orders.last().len()
    }
}

/// A run of features keeps a dense table dense, and adds at most one name for
/// each entry. So the column table of a dataset, which starts empty, is dense
/// after every feature: its indices are the numbers from 0 up to the number of
/// names seen.
pub proof fn law_dataset_keeps_table_dense(orders: Seq<Seq<(Seq<char>, JsonModel)>>, start: PropertyRun)
    requires
        dense(start.table),
        start.table.dom().len() + entry_count(orders) <= usize::MAX,
    ensures
        dense(features_run(orders, start).table),
        features_run(orders, start).table.dom().len() <= start.table.dom().len() + entry_count(
            orders,
        ),
    decreases orders.len(),
{
    if orders.len() > 0 {
        law_dataset_keeps_table_dense(orders.drop_last(), start);
        let before = features_run(orders.drop_last(), start);
        if before.fault is None {
            let fid = (orders.len() - 1) as u64;
            let opened = start_run(before.events + feature_opening(fid), before.table);
            law_run_keeps_table_dense(orders.last(), opened);
        }
    }
}

/// The field that the cursor stands at, and the names that it has not reached,
/// after a number of moves.
pub open spec fn cursor_after(current: Option<Seq<char>>, keys: Seq<Seq<char>>, moves: nat) -> (
    Option<Seq<char>>,
    Seq<Seq<char>>,
)
    decreases moves,
{
    if moves == 0 {
        (current, keys)
    } else {
        let before = cursor_after(current, keys, (moves - 1) as nat);
        next_field(before.0, before.1)
    }
}

/// The field that a fresh cursor reaches with a given move. The first move
/// reaches the geometry; each move after it reaches one name, from the last of
/// the names to the first; the move after those reaches no field.
pub open spec fn field_reached(keys: Seq<Seq<char>>, moves: nat) -> Option<Seq<char>> {
    if moves == 1 {
        Some(geometry_column())
    } else if 2 <= moves <= keys.len() + 1 {
        Some(keys[keys.len() + 1 - moves])
    } else {
        None
    }
}

/// A fresh cursor reaches the geometry first, then each of the names once, then
/// the end of the fields.
pub proof fn law_fields_in_order(keys: Seq<Seq<char>>, moves: nat)
    requires
        1 <= moves <= keys.len() + 2,
    ensures
        cursor_after(None, keys, moves).0 == field_reached(keys, moves),
        moves <= keys.len() + 1 ==> cursor_after(None, keys, moves).1 == keys.take(
            keys.len() + 1 - moves,
        ),
    decreases moves,
{
    if moves == 1 {
        assert(cursor_after(None, keys, 0) == (None::<Seq<char>>, keys));
        assert(keys.take(keys.len() as int) =~= keys);
    } else {
        law_fields_in_order(keys, (moves - 1) as nat);
        let before = cursor_after(None, keys, (moves - 1) as nat);
        assert(before.1 == keys.take(keys.len() + 2 - moves));
        if moves <= keys.len() + 1 {
            assert(before.1.drop_last() =~= keys.take(keys.len() + 1 - moves));
        }
    }
}

/// Every property of a feature is a field of it, once: a fresh cursor over the
/// names of the properties reaches each property's name with exactly one move,
/// after the move that reaches the geometry.
pub proof fn law_every_property_is_a_field<V>(
    properties: Map<Seq<char>, V>,
    keys: Seq<Seq<char>>,
    name: Seq<char>,
)
    requires
        lists_names(keys, properties),
        properties.contains_key(name),
    ensures
        exists|moves: nat|
            2 <= moves <= keys.len() + 1 && #[trigger] field_reached(keys, moves) == Some(name),
        forall|first: nat, second: nat|
            2 <= first <= keys.len() + 1 && 2 <= second <= keys.len() + 1 && #[trigger] field_reached(
                keys,
                first,
            ) == #[trigger] field_reached(keys, second) ==> first == second,
{
    keys.unique_seq_to_set();
    assert(keys.to_set().subset_of(properties.dom())) by {
        assert forall|key: Seq<char>| keys.to_set().contains(key) implies properties.dom().contains(
            key,
        ) by {
            let i = choose|i: int| 0 <= i < keys.len() && keys[i] == key;
            assert(properties.dom().contains(keys[i]));
        }
    }
    vstd::set_lib::lemma_set_subset_finite(properties.dom(), keys.to_set());
    vstd::set_lib::lemma_subset_equality(keys.to_set(), properties.dom());
    assert(keys.to_set().contains(name));
    let i = choose|i: int| 0 <= i < keys.len() && keys[i] == name;
    let moves = (keys.len() + 1 - i) as nat;
    assert(field_reached(keys, moves) == Some(name));
}

/// At the field of a property the value found is the one stored under the
/// property's name, unchanged. This holds of every name but the reserved one of
/// the geometry.
pub proof fn law_property_field_gives_stored_value(
    feature: Feature,
    name: Seq<char>,
    r: Result<FieldValue<'_>, Error>,
)
    requires
        name_of(feature.current_col) == Some(name),
        name != geometry_column(),
        feature.properties@.contains_key(name),
        feature.value_found(r),
    ensures
        r matches Ok(FieldValue::Property(value)) && value@ == feature.properties@[name],
{
}

/// At the field of the geometry the value found is the generic form of the
/// feature's geometry, wherever the geometry has one.
pub proof fn law_geometry_field_gives_geometry(feature: Feature, r: Result<FieldValue<'_>, Error>)
    requires
        name_of(feature.current_col) == Some(geometry_column()),
        geometry_value(feature.geometry) is Some,
        feature.value_found(r),
    ensures
        r matches Ok(FieldValue::Geometry(value)) && geometry_value(feature.geometry) == Some(value),
{
}

/// Where a name is reported twice, the later value stands for it: what was
/// stored first is overwritten.
pub proof fn law_last_property_wins(
    properties: Map<Seq<char>, JsonModel>,
    name: Seq<char>,
    first: JsonModel,
    second: JsonModel,
)
    requires
        !(second is Null),
    ensures
        with_property(with_property(properties, name, first), name, second) == with_property(
            properties,
            name,
            second,
        ),
        with_property(properties, name, second)[name] == second,
{
    assert(with_property(with_property(properties, name, first), name, second) =~= with_property(
        properties,
        name,
        second,
    ));
}

} // verus!
