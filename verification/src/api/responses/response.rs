//! The answer to a request for the registered mappings.

use vstd::prelude::*;
use crate::api::responses::mapping::Mapping;
use crate::api::responses::object::MappingObject;

verus! {

/// The registered mappings, with their summary.
pub struct MappingResponse {
    pub mappings: Vec<Mapping>,
    pub meta: MappingObject,
}

impl MappingResponse {
    /// The mappings of the answer, in the order the server listed them.
    pub fn into_mappings(self) -> (m: Vec<Mapping>)
        ensures
            m == self.mappings,
    {
        self.mappings
    }
}

} // verus!
