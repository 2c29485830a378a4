//! The two hash maps of the library: the properties of a feature, and the
//! column indices of a dataset.
//!
//! Both are `hashbrown` maps keyed by the property's name. Verus sees neither
//! from inside: what they hold is named by [`property_entries`] and
//! [`column_indices`], and each method that the library calls has a contract
//! over those names.
use crate::value::{JsonModel, JsonValue};
use vstd::prelude::*;

verus! {

/// The properties of one feature, by name.
#[verifier::external_body]
#[derive(Debug)]
pub struct PropertyMap(pub hashbrown::HashMap<String, JsonValue>);

/// The column index of each property name seen in one dataset.
#[verifier::external_body]
#[derive(Debug)]
pub struct ColumnTable(pub hashbrown::HashMap<String, usize>);

/// What a property map holds.
pub uninterp spec fn property_entries(map: PropertyMap) -> Map<Seq<char>, JsonModel>;

/// What a column table holds.
pub uninterp spec fn column_indices(table: ColumnTable) -> Map<Seq<char>, usize>;

impl View for PropertyMap {
    type V = Map<Seq<char>, JsonModel>;

    open spec fn view(&self) -> Map<Seq<char>, JsonModel> {
        property_entries(*self)
    }
}

impl View for ColumnTable {
    type V = Map<Seq<char>, usize>;

    open spec fn view(&self) -> Map<Seq<char>, usize> {
        column_indices(*self)
    }
}

/// The map without a property.
pub open spec fn no_properties() -> Map<Seq<char>, JsonModel> {
    Map::empty()
}

/// The table without a column.
pub open spec fn no_columns() -> Map<Seq<char>, usize> {
    Map::empty()
}

/// The names are those of the map, each once.
pub open spec fn lists_names<V>(names: Seq<Seq<char>>, map: Map<Seq<char>, V>) -> bool {
    &&& map.dom().finite()
    &&& names.len() == map.dom().len()
    &&& names.no_duplicates()
    &&& forall|i: int| 0 <= i < names.len() ==> map.dom().contains(#[trigger] names[i])
}

/// The number is that of the map's names, of which there are finitely many.
pub open spec fn counts_names<V>(n: usize, map: Map<Seq<char>, V>) -> bool {
    map.dom().finite() && n == map.dom().len()
}

/// The names of a list of keys.
pub open spec fn names_of(keys: Seq<String>) -> Seq<Seq<char>> {
    Seq::new(keys.len(), |i: int| keys[i]@)
}

/// The entries of a list of pairs, each as name and value.
pub open spec fn entries_of(pairs: Seq<(&String, &JsonValue)>) -> Seq<(Seq<char>, JsonModel)> {
    Seq::new(pairs.len(), |i: int| (pairs[i].0@, pairs[i].1@))
}

/// The names of a list of entries.
pub open spec fn entry_names(entries: Seq<(Seq<char>, JsonModel)>) -> Seq<Seq<char>> {
    Seq::new(entries.len(), |i: int| entries[i].0)
}

/// The entries are those of the map, each once, in some order.
pub open spec fn lists_entries(
    entries: Seq<(Seq<char>, JsonModel)>,
    map: Map<Seq<char>, JsonModel>,
) -> bool {
    &&& lists_names(entry_names(entries), map)
    &&& forall|i: int| 0 <= i < entries.len() ==> map[entries[i].0] == (#[trigger] entries[i]).1
}

impl PropertyMap {
    /// Calls `hashbrown::HashMap::new`: the new map holds nothing.
    #[verifier::external_body]
    pub(crate) fn empty() -> (map: PropertyMap)
        ensures
            property_entries(map) == no_properties(),
    {
        PropertyMap(hashbrown::HashMap::new())
    }

    /// Calls `hashbrown::HashMap::insert`: the name then stands for the value,
    /// whether or not it stood for one before, and no other name is touched.
    #[verifier::external_body]
    pub(crate) fn put(&mut self, name: String, value: JsonValue)
        ensures
            property_entries(*final(self)) == property_entries(*old(self)).insert(name@, value@),
    {
        self.0.insert(name, value);
    }

    /// Calls `hashbrown::HashMap::get`: the value that the name stands for,
    /// none where it stands for none.
    #[verifier::external_body]
    pub(crate) fn lookup<'a>(&'a self, name: &String) -> (r: Option<&'a JsonValue>)
        ensures
            r matches Some(value) ==> property_entries(*self).contains_key(name@)
                && property_entries(*self)[name@] == value@,
            r is None ==> !property_entries(*self).contains_key(name@),
    {
        self.0.get(name)
    }

    /// Calls `hashbrown::HashMap::keys` and copies what it yields: every name of
    /// the map once. The order is the map's own and nothing is claimed of it.
    #[verifier::external_body]
    pub(crate) fn key_list(&self) -> (keys: Vec<String>)
        ensures
            lists_names(names_of(keys@), property_entries(*self)),
    {
        self.0.keys().cloned().collect()
    }

    /// Calls `hashbrown::HashMap::iter` and collects what it yields: every entry
    /// of the map once. The order is the map's own and nothing is claimed of it.
    #[verifier::external_body]
    pub(crate) fn entry_list<'a>(&'a self) -> (pairs: Vec<(&'a String, &'a JsonValue)>)
        ensures
            lists_entries(entries_of(pairs@), property_entries(*self)),
    {
        self.0.iter().collect()
    }
}

impl ColumnTable {
    /// Calls `hashbrown::HashMap::new`: the new table holds nothing.
    #[verifier::external_body]
    pub(crate) fn empty() -> (table: ColumnTable)
        ensures
            column_indices(table) == no_columns(),
    {
        ColumnTable(hashbrown::HashMap::new())
    }

    /// Calls `hashbrown::HashMap::get`: the index that the name stands for, none
    /// where it stands for none.
    #[verifier::external_body]
    pub(crate) fn index_of(&self, name: &String) -> (r: Option<usize>)
        ensures
            r matches Some(index) ==> column_indices(*self).contains_key(name@)
                && column_indices(*self)[name@] == index,
            r is None ==> !column_indices(*self).contains_key(name@),
    {
        self.0.get(name).copied()
    }

    /// Calls `hashbrown::HashMap::len`: the number of names in the table, which
    /// is finite.
    #[verifier::external_body]
    pub(crate) fn count(&self) -> (n: usize)
        ensures
            counts_names(n, column_indices(*self)),
    {
        self.0.len()
    }

    /// Calls `hashbrown::HashMap::insert`: the name then stands for the index,
    /// whether or not it stood for one before, and no other name is touched.
    #[verifier::external_body]
    pub(crate) fn put(&mut self, name: String, index: usize)
        ensures
            column_indices(*final(self)) == column_indices(*old(self)).insert(name@, index),
    {
        self.0.insert(name, index);
    }
}

} // verus!
