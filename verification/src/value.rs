//! The generic value model and the typed column values.
//!
//! A property travels in two shapes. On the side of the visitor protocol it is a
//! [`ColumnValue`]: a scalar tagged with its column type. Between the components
//! it is a [`JsonValue`]: a JSON-like value whose scalars are held as plain
//! values, and whose arrays and objects hold `serde_json` values that are carried
//! through unread.
//!
//! Floating-point numbers are held as the bit pattern of an IEEE-754 double.
use vstd::prelude::*;

verus! {

/// `serde_json::Value`, of which nothing is read: it is carried inside arrays
/// and objects, and equal values are known only to be equal.
#[verifier::external_type_specification]
#[verifier::external_body]
pub struct ExSerdeValue(serde_json::Value);

/// `serde_json::Map`, of which nothing is read: it is what an object holds.
#[verifier::external_type_specification]
#[verifier::external_body]
#[verifier::reject_recursive_types(K)]
#[verifier::reject_recursive_types(V)]
pub struct ExSerdeMap<K, V>(serde_json::Map<K, V>);

/// The `serde_json` value that stands for an unsigned integer.
pub uninterp spec fn json_of_unsigned(n: u64) -> serde_json::Value;

/// The compact JSON text of an array, `None` where `serde_json` cannot write it.
pub uninterp spec fn array_text(items: Seq<serde_json::Value>) -> Option<Seq<char>>;

/// The compact JSON text of an object, `None` where `serde_json` cannot write it.
pub uninterp spec fn object_text(fields: serde_json::Map<String, serde_json::Value>) -> Option<
    Seq<char>,
>;

/// Calls `serde_json::Value::from` on a `u64`. The result is a function of the
/// number alone; the contract gives it its name and claims nothing more.
#[verifier::external_body]
pub(crate) fn unsigned_value(n: u64) -> (v: serde_json::Value)
    ensures
        v == json_of_unsigned(n),
{
    serde_json::Value::from(n)
}

/// Calls `serde_json::to_string` on an array of values and drops the error's
/// detail. The text is a function of the array alone; the contract names it and
/// leaves open whether the call succeeds.
#[verifier::external_body]
pub(crate) fn array_to_string(items: &Vec<serde_json::Value>) -> (r: Option<String>)
    ensures
        r matches Some(text) ==> array_text(items@) == Some(text@),
        r is None ==> array_text(items@) is None,
{
    serde_json::to_string(items).ok()
}

/// Calls `serde_json::to_string` on an object and drops the error's detail. The
/// text is a function of the object alone; the contract names it and leaves open
/// whether the call succeeds.
#[verifier::external_body]
pub(crate) fn object_to_string(fields: &serde_json::Map<String, serde_json::Value>) -> (r: Option<
    String,
>)
    ensures
        r matches Some(text) ==> object_text(*fields) == Some(text@),
        r is None ==> object_text(*fields) is None,
{
    serde_json::to_string(fields).ok()
}

/// A JSON number: a non-negative integer, a negative integer, or a finite
/// double held as its bits.
#[derive(Clone, Copy, Debug, PartialEq, Eq, Structural)]
pub enum JsonNumber {
    PosInt(u64),
    NegInt(i64),
    Float(u64),
}

/// Whether the bits are those of a finite double: the exponent field is not all
/// ones.
pub open spec fn is_finite_double(bits: u64) -> bool {
    (bits >> 52) & 0x7ff != 0x7ff
}

/// Tests whether the bits are those of a finite double.
pub fn finite_double(bits: u64) -> (r: bool)
    ensures
        r == is_finite_double(bits),
{
    (bits >> 52) & 0x7ff != 0x7ff
}

/// The number that stands for a signed integer: negative integers and the
/// others are kept apart.
pub open spec fn signed_number(v: i64) -> JsonNumber {
    if v < 0 {
        JsonNumber::NegInt(v)
    } else {
        JsonNumber::PosInt(v as u64)
    }
}

impl JsonNumber {
    /// A number is well formed when a `NegInt` is negative and a `Float` is
    /// finite.
    pub open spec fn wf(self) -> bool {
        match self {
            JsonNumber::PosInt(_) => true,
            JsonNumber::NegInt(v) => v < 0,
            JsonNumber::Float(bits) => is_finite_double(bits),
        }
    }

    /// The number of a signed integer.
    pub fn from_i64(v: i64) -> (r: JsonNumber)
        ensures
            r == signed_number(v),
            r.wf(),
    {
        if v < 0 {
            JsonNumber::NegInt(v)
        } else {
            JsonNumber::PosInt(v as u64)
        }
    }

    /// The number of an unsigned integer.
    pub fn from_u64(v: u64) -> (r: JsonNumber)
        ensures
            r == JsonNumber::PosInt(v),
            r.wf(),
    {
        JsonNumber::PosInt(v)
    }

    /// The number of a double given by its bits; none where it is not finite.
    pub fn from_double_bits(bits: u64) -> (r: Option<JsonNumber>)
        ensures
            r == if is_finite_double(bits) {
                Some(JsonNumber::Float(bits))
            } else {
                None
            },
            r matches Some(n) ==> n.wf(),
    {
        if finite_double(bits) {
            Some(JsonNumber::Float(bits))
        } else {
            None
        }
    }
}

/// A generic value: null, a boolean, a number, a string, an array or an object.
#[derive(Debug, PartialEq)]
pub enum JsonValue {
    Null,
    Bool(bool),
    Number(JsonNumber),
    String(String),
    Array(Vec<serde_json::Value>),
    Object(serde_json::Map<String, serde_json::Value>),
}

/// What a [`JsonValue`] holds, as a mathematical value.
pub ghost enum JsonModel {
    Null,
    Bool(bool),
    Number(JsonNumber),
    String(Seq<char>),
    Array(Seq<serde_json::Value>),
    Object(serde_json::Map<String, serde_json::Value>),
}

impl View for JsonValue {
    type V = JsonModel;

    open spec fn view(&self) -> JsonModel {
        match self {
            JsonValue::Null => JsonModel::Null,
            JsonValue::Bool(b) => JsonModel::Bool(*b),
            JsonValue::Number(n) => JsonModel::Number(*n),
            JsonValue::String(s) => JsonModel::String(s@),
            JsonValue::Array(items) => JsonModel::Array(items@),
            JsonValue::Object(fields) => JsonModel::Object(*fields),
        }
    }
}

impl JsonValue {
    /// Tells whether the value is null.
    pub fn is_null(&self) -> (r: bool)
        ensures
            r == (self@ is Null),
    {
        match self {
            JsonValue::Null => true,
            _ => false,
        }
    }
}

/// A property value as the visitor protocol carries it: a scalar tagged with
/// its column type. `Float` holds a single-precision number as the bits of the
/// double that equals it, `Double` the bits of a double.
#[derive(Clone, Debug, PartialEq, Eq)]
pub enum ColumnValue {
    Byte(i8),
    UByte(u8),
    Bool(bool),
    Short(i16),
    UShort(u16),
    Int(i32),
    UInt(u32),
    Long(i64),
    ULong(u64),
    Float(u64),
    Double(u64),
    String(String),
    Json(String),
    DateTime(String),
    Binary(Vec<u8>),
}

/// What a [`ColumnValue`] holds, as a mathematical value.
pub ghost enum ColumnModel {
    Byte(i8),
    UByte(u8),
    Bool(bool),
    Short(i16),
    UShort(u16),
    Int(i32),
    UInt(u32),
    Long(i64),
    ULong(u64),
    Float(u64),
    Double(u64),
    String(Seq<char>),
    Json(Seq<char>),
    DateTime(Seq<char>),
    Binary(Seq<u8>),
}

impl View for ColumnValue {
    type V = ColumnModel;

    open spec fn view(&self) -> ColumnModel {
        match self {
            ColumnValue::Byte(v) => ColumnModel::Byte(*v),
            ColumnValue::UByte(v) => ColumnModel::UByte(*v),
            ColumnValue::Bool(v) => ColumnModel::Bool(*v),
            ColumnValue::Short(v) => ColumnModel::Short(*v),
            ColumnValue::UShort(v) => ColumnModel::UShort(*v),
            ColumnValue::Int(v) => ColumnModel::Int(*v),
            ColumnValue::UInt(v) => ColumnModel::UInt(*v),
            ColumnValue::Long(v) => ColumnModel::Long(*v),
            ColumnValue::ULong(v) => ColumnModel::ULong(*v),
            ColumnValue::Float(bits) => ColumnModel::Float(*bits),
            ColumnValue::Double(bits) => ColumnModel::Double(*bits),
            ColumnValue::String(s) => ColumnModel::String(s@),
            ColumnValue::Json(s) => ColumnModel::Json(s@),
            ColumnValue::DateTime(s) => ColumnModel::DateTime(s@),
            ColumnValue::Binary(bytes) => ColumnModel::Binary(bytes@),
        }
    }
}

} // verus!
