//! Bridges a push-based visitor protocol for geospatial features and a generic,
//! field-by-field model of structured values.
//!
//! Decoding collects the visitor's events into assembled features
//! ([`de::DataSourceDeserializer`], [`collector::GeozeroCollector`]) and exposes
//! each as an ordered sequence of named fields ([`de::Feature`]): the geometry
//! first, under its reserved name, then each property.
//!
//! Encoding turns features back into the sequence of visitor events
//! ([`ser::to_geozero_datasource`]), giving every property name a column index
//! that stays fixed for the whole dataset.
//!
//! Property values cross the library in two shapes, [`value::ColumnValue`] on
//! the visitor's side and [`value::JsonValue`] between the components;
//! [`ser::ColumnValueSerializer`] goes from the first to the second and
//! [`ser::infer_column`] back. What holds of these together is proved in
//! [`laws`].

pub mod collector;
pub mod de;
pub mod error;
pub mod geometry;
pub mod laws;
pub mod map;
pub mod ser;
pub mod value;

pub use ser::to_geozero_datasource;
