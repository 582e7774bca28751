//! The body that moves a scenario to a given state.

use vstd::prelude::*;

verus! {

/// The state a scenario is to be set to.
pub struct State {
    pub state: String,
}

} // verus!
