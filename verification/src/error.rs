//! The faults that decoding and encoding can raise.
use vstd::prelude::*;

verus! {

/// A fault of the visitor protocol, with the text that describes it.
#[derive(Clone, Debug, PartialEq, Eq)]
pub enum GeozeroFault {
    /// No geometry could be had where one is owed.
    Geometry(String),
    /// A property could not be converted; the text names the property.
    Property(String),
    /// A feature could not be bound to its target.
    Feature(String),
}

/// Every fault of this library.
#[derive(Clone, Debug, PartialEq, Eq)]
pub enum Error {
    /// The visitor protocol was violated or could not go on.
    GeozeroError(GeozeroFault),
    /// A generic value could not be produced or was not found.
    SerdeError(String),
    /// A fault described by a free text.
    Message(String),
    /// A fault of which nothing is known.
    Unknown,
}

/// The text of the fault raised when a feature ends before a geometry was built.
pub open spec fn missing_geometry_text() -> Seq<char> {
    "Could not fetch geometry for feature"@
}

/// The text of the fault raised when a field's value is asked for and none is stored.
pub open spec fn no_value_text() -> Seq<char> {
    "no value found"@
}

impl Error {
    /// The fault is that of a missing geometry.
    pub open spec fn is_missing_geometry(self) -> bool {
        self matches Error::GeozeroError(GeozeroFault::Geometry(text)) && text@
            == missing_geometry_text()
    }

    /// The fault is that of a property that could not be converted, and names it.
    pub open spec fn is_property_fault(self, name: Seq<char>) -> bool {
        self matches Error::GeozeroError(GeozeroFault::Property(text)) && text@ == name
    }

    /// The fault is that of a field without a stored value.
    pub open spec fn is_no_value(self) -> bool {
        self matches Error::SerdeError(text) && text@ == no_value_text()
    }

    /// The fault of a missing geometry.
    pub fn missing_geometry() -> (e: Error)
        ensures
            e.is_missing_geometry(),
    {
        Error::GeozeroError(GeozeroFault::Geometry("Could not fetch geometry for feature".to_owned()))
    }

    /// The fault of a property that could not be converted.
    pub fn property_fault(name: &String) -> (e: Error)
        ensures
            e.is_property_fault(name@),
    {
        Error::GeozeroError(GeozeroFault::Property(name.clone()))
    }

    /// The fault of a field without a stored value.
    pub fn no_value() -> (e: Error)
        ensures
            e.is_no_value(),
    {
        Error::SerdeError("no value found".to_owned())
    }

    /// A fault described by a free text.
    pub fn custom(msg: &str) -> (e: Error)
        ensures
            e matches Error::Message(text) && text@ == msg@,
    {
        Error::Message(msg.to_owned())
    }

    /// The text that describes the fault's kind.
    pub fn message(&self) -> (text: String)
        ensures
            text@ == match *self {
                Error::GeozeroError(_) => "Error while processing the geozero source."@,
                Error::SerdeError(_) => "Serde error."@,
                Error::Message(_) => "An error happend."@,
                Error::Unknown => "Unknown error"@,
            },
    {
        match self {
            Error::GeozeroError(_) => "Error while processing the geozero source.".to_owned(),
            Error::SerdeError(_) => "Serde error.".to_owned(),
            Error::Message(_) => "An error happend.".to_owned(),
            Error::Unknown => "Unknown error".to_owned(),
        }
    }
}

} // verus!
