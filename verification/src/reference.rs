//! References to one entity record: an entity-set name paired with an
//! identifier.

use vstd::prelude::*;

use crate::guid::Guid;
use crate::text::append_str;

verus! {

/// A capability for obtaining a reference to the entity record a value
/// stands for.
pub trait Reference {
    /// The reference to this value's record.
    fn get_reference(&self) -> ReferenceStruct;
}

/// A plain reference: the entity-set name and the record's identifier.
#[derive(Clone, Copy, Debug, PartialEq, Eq)]
pub struct ReferenceStruct {
    /// The logical name of the entity set the record belongs to.
    pub entity_name: &'static str,
    /// The record's identifier.
    pub entity_id: Guid,
}

impl ReferenceStruct {
    /// The display rendering: the entity-set name, then the identifier's
    /// simple form in parentheses after a colon.
    pub open spec fn text(self) -> Seq<char> {
        self.entity_name@ + ":("@ + self.entity_id.simple_text() + ")"@
    }

    /// A new reference from its two parts.
    pub fn new(entity_name: &'static str, entity_id: Guid) -> (r: Self)
        ensures
            r.entity_name == entity_name,
            r.entity_id == entity_id,
    {
        Self { entity_name, entity_id }
    }

    /// The display rendering as a string.
    pub fn to_string(&self) -> (r: String)
        ensures
            r@ == self.text(),
    {
        let mut out = String::new();
        append_str(&mut out, self.entity_name);
        append_str(&mut out, ":(");
        self.entity_id.append_simple(&mut out);
        append_str(&mut out, ")");
        assert(out@ =~= self.text());
        out
    }
}

impl Reference for ReferenceStruct {
    fn get_reference(&self) -> (r: ReferenceStruct)
        ensures
            r == *self,
    {
        *self
    }
}

} // verus!
