//! Scenarios: named state machines of the server, and the answer that lists them.

use vstd::prelude::*;

verus! {

/// The configured scenarios.
pub struct ScenarioResponse {
    pub scenarios: Vec<Scenario>,
}

impl ScenarioResponse {
    /// The scenarios of the answer, in the order the server listed them.
    pub fn into_scenarios(self) -> (s: Vec<Scenario>)
        ensures
            s == self.scenarios,
    {
        self.scenarios
    }
}

/// A scenario: its id, its name, its current state and the states it can take.
pub struct Scenario {
    pub(crate) id: Option<String>,
    pub(crate) name: Option<String>,
    pub(crate) state: Option<String>,
    pub(crate) possible_states: Option<Vec<String>>,
}

impl Scenario {
    /// The scenario's id.
    pub closed spec fn spec_id(&self) -> Option<String> {
        self.id
    }

    /// The scenario's name.
    pub closed spec fn spec_name(&self) -> Option<String> {
        self.name
    }

    /// The scenario's current state.
    pub closed spec fn spec_state(&self) -> Option<String> {
        self.state
    }

    /// The states the scenario can take.
    pub closed spec fn spec_possible_states(&self) -> Option<Vec<String>> {
        self.possible_states
    }

    /// A scenario with the given parts.
    pub fn new(
        id: Option<String>,
        name: Option<String>,
        state: Option<String>,
        possible_states: Option<Vec<String>>,
    ) -> (s: Self)
        ensures
            s.spec_id() == id,
            s.spec_name() == name,
            s.spec_state() == state,
            s.spec_possible_states() == possible_states,
    {
        Scenario { id, name, state, possible_states }
    }

    /// The scenario's id.
    pub fn id(&self) -> (r: &Option<String>)
        ensures
            *r == self.spec_id(),
    {
        &self.id
    }

    /// The scenario's name.
    pub fn name(&self) -> (r: &Option<String>)
        ensures
            *r == self.spec_name(),
    {
        &self.name
    }

    /// The scenario's current state.
    pub fn state(&self) -> (r: &Option<String>)
        ensures
            *r == self.spec_state(),
    {
        &self.state
    }

    /// The states the scenario can take.
    pub fn possible_states(&self) -> (r: &Option<Vec<String>>)
        ensures
            *r == self.spec_possible_states(),
    {
        &self.possible_states
    }
}

} // verus!
