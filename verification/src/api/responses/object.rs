//! The summary that accompanies a list of mappings.

use vstd::prelude::*;

verus! {

/// The summary of a list of mappings: how many the server holds.
pub struct MappingObject {
    pub total: i64,
}

} // verus!
