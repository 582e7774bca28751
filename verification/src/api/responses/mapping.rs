//! A stub mapping: how the server answers a kind of request.

use vstd::prelude::*;
use crate::api::responses::request::MappingRequest;
use crate::api::responses::response::MappingResponse;

verus! {

/// A stub mapping, as the admin API lists it. Its `metadata` is not read from
/// the server: it starts empty.
pub struct Mapping {
    id: Option<String>,
    uuid: Option<String>,
    name: Option<String>,
    requests: Option<MappingRequest>,
    responses: Option<MappingResponse>,
    persistent: Option<bool>,
    priority: Option<i32>,
    scenario_name: Option<String>,
    required_scenario_state: Option<String>,
    new_scenario_state: Option<String>,
    post_serve_actions: Option<String>,
    metadata: String,
}

impl Mapping {
    /// The spec view of the mapping's id.
    pub closed spec fn spec_id(&self) -> Option<String> {
        self.id
    }

    /// The spec view of the mapping's uuid.
    pub closed spec fn spec_uuid(&self) -> Option<String> {
        self.uuid
    }

    /// The spec view of the mapping's name.
    pub closed spec fn spec_name(&self) -> Option<String> {
        self.name
    }

    /// The spec view of what a request must look like for the mapping to answer it.
    pub closed spec fn spec_requests(&self) -> Option<MappingRequest> {
        self.requests
    }

    /// The spec view of what the mapping answers with.
    pub closed spec fn spec_responses(&self) -> Option<MappingResponse> {
        self.responses
    }

    /// The spec view of whether the mapping is kept when the server stops.
    pub closed spec fn spec_persistent(&self) -> Option<bool> {
        self.persistent
    }

    /// The spec view of the mapping's priority.
    pub closed spec fn spec_priority(&self) -> Option<i32> {
        self.priority
    }

    /// The spec view of the scenario the mapping belongs to.
    pub closed spec fn spec_scenario_name(&self) -> Option<String> {
        self.scenario_name
    }

    /// The spec view of the state the scenario must be in for the mapping to answer.
    pub closed spec fn spec_required_scenario_state(&self) -> Option<String> {
        self.required_scenario_state
    }

    /// The spec view of the state the scenario moves to once the mapping answered.
    pub closed spec fn spec_new_scenario_state(&self) -> Option<String> {
        self.new_scenario_state
    }

    /// The spec view of what the server does after the mapping answered.
    pub closed spec fn spec_post_serve_actions(&self) -> Option<String> {
        self.post_serve_actions
    }

    /// The spec view of the metadata.
    pub closed spec fn spec_metadata(&self) -> Seq<char> {
        self.metadata@
    }

    /// A mapping with the given parts and empty metadata.
    pub fn new(
        id: Option<String>,
        uuid: Option<String>,
        name: Option<String>,
        requests: Option<MappingRequest>,
        responses: Option<MappingResponse>,
        persistent: Option<bool>,
        priority: Option<i32>,
        scenario_name: Option<String>,
        required_scenario_state: Option<String>,
        new_scenario_state: Option<String>,
        post_serve_actions: Option<String>,
    ) -> (m: Self)
        ensures
            m.spec_id() == id,
            m.spec_uuid() == uuid,
            m.spec_name() == name,
            m.spec_requests() == requests,
            m.spec_responses() == responses,
            m.spec_persistent() == persistent,
            m.spec_priority() == priority,
            m.spec_scenario_name() == scenario_name,
            m.spec_required_scenario_state() == required_scenario_state,
            m.spec_new_scenario_state() == new_scenario_state,
            m.spec_post_serve_actions() == post_serve_actions,
            m.spec_metadata() == Seq::<char>::empty(),
    {
        Mapping {
            id,
            uuid,
            name,
            requests,
            responses,
            persistent,
            priority,
            scenario_name,
            required_scenario_state,
            new_scenario_state,
            post_serve_actions,
            metadata: String::new(),
        }
    }

    /// The mapping's id.
    pub fn id(&self) -> (r: &Option<String>)
        ensures
            *r == self.spec_id(),
    {
        &self.id
    }

    /// The mapping's uuid.
    pub fn uuid(&self) -> (r: &Option<String>)
        ensures
            *r == self.spec_uuid(),
    {
        &self.uuid
    }

    /// The mapping's name.
    pub fn name(&self) -> (r: &Option<String>)
        ensures
            *r == self.spec_name(),
    {
        &self.name
    }

    /// What a request must look like for the mapping to answer it.
    pub fn requests(&self) -> (r: &Option<MappingRequest>)
        ensures
            *r == self.spec_requests(),
    {
        &self.requests
    }

    /// What the mapping answers with.
    pub fn responses(&self) -> (r: &Option<MappingResponse>)
        ensures
            *r == self.spec_responses(),
    {
        &self.responses
    }

    /// Whether the mapping is kept when the server stops.
    pub fn persistent(&self) -> (r: &Option<bool>)
        ensures
            *r == self.spec_persistent(),
    {
        &self.persistent
    }

    /// The mapping's priority.
    pub fn priority(&self) -> (r: &Option<i32>)
        ensures
            *r == self.spec_priority(),
    {
        &self.priority
    }

    /// The scenario the mapping belongs to.
    pub fn scenario_name(&self) -> (r: &Option<String>)
        ensures
            *r == self.spec_scenario_name(),
    {
        &self.scenario_name
    }

    /// The state the scenario must be in for the mapping to answer.
    pub fn required_scenario_state(&self) -> (r: &Option<String>)
        ensures
            *r == self.spec_required_scenario_state(),
    {
        &self.required_scenario_state
    }

    /// The state the scenario moves to once the mapping answered.
    pub fn new_scenario_state(&self) -> (r: &Option<String>)
        ensures
            *r == self.spec_new_scenario_state(),
    {
        &self.new_scenario_state
    }

    /// What the server does after the mapping answered.
    pub fn post_serve_actions(&self) -> (r: &Option<String>)
        ensures
            *r == self.spec_post_serve_actions(),
    {
        &self.post_serve_actions
    }

    /// The mapping's metadata.
    pub fn metadata(&self) -> (r: &String)
        ensures
            r@ == self.spec_metadata(),
    {
        &self.metadata
    }
}

} // verus!
