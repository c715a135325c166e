//! Capabilities implemented by caller-defined entity types: reading
//! needs a column selection, writing needs a reference and a
//! serialization to text.

use vstd::prelude::*;

use crate::error::DataverseError;
use crate::reference::Reference;
use crate::select::Select;

verus! {

/// An entity type that can be retrieved: it declares which columns it
/// reads. Turning the service's response into a value of the type is
/// the caller's concern, outside this library.
pub trait ReadEntity: Select {

}

/// An entity type that can be written: it yields a reference to its own
/// record and serializes itself to the request-body text.
pub trait WriteEntity: Reference {
    /// This entity as the request-body text, or a serialization failure.
    fn to_json(&self) -> Result<String, DataverseError>;
}

} // verus!
