use wiremock_ui::api::requests::request::MappingRequest as PageRequest;
use wiremock_ui::api::responses::mapping::Mapping;
use wiremock_ui::api::responses::object::MappingObject;
use wiremock_ui::api::responses::request::MappingRequest;
use wiremock_ui::api::responses::response::MappingResponse;
use wiremock_ui::api::responses::scenario::{Scenario, ScenarioResponse};
use wiremock_ui::api::{HttpMethod, API};

const BASE: &str = "http://127.0.0.1:8080";

fn api() -> API {
    API::new(BASE.to_string())
}

#[test]
fn new_keeps_base_url() {
    assert_eq!(api().base_url(), BASE);
}

#[test]
fn get_mappings_request_targets_mappings() {
    let r = api().get_mappings_request();
    assert_eq!(r.method, HttpMethod::Get);
    assert_eq!(r.url, "http://127.0.0.1:8080/__admin/mappings");
    assert!(r.body.is_none());
}

#[test]
fn reset_request_targets_reset() {
    let r = api().reset_request();
    assert_eq!(r.method, HttpMethod::Post);
    assert_eq!(r.url, "http://127.0.0.1:8080/__admin/reset");
    assert!(r.body.is_none());
}

#[test]
fn shutdown_request_targets_shutdown() {
    let r = api().shutdown_request();
    assert_eq!(r.method, HttpMethod::Post);
    assert_eq!(r.url, "http://127.0.0.1:8080/__admin/shutdown");
    assert!(r.body.is_none());
}

#[test]
fn get_scenarios_request_targets_scenarios() {
    let r = api().get_scenarios_request();
    assert_eq!(r.method, HttpMethod::Get);
    assert_eq!(r.url, "http://127.0.0.1:8080/__admin/scenarios");
    assert!(r.body.is_none());
}

#[test]
fn reset_scenarios_request_targets_scenarios_reset() {
    let r = api().reset_scenarios_request();
    assert_eq!(r.method, HttpMethod::Post);
    assert_eq!(r.url, "http://127.0.0.1:8080/__admin/scenarios/reset");
    assert!(r.body.is_none());
}

#[test]
fn reset_scenario_request_targets_scenario_state() {
    let r = api().reset_scenario_request(&"1".to_string());
    assert_eq!(r.method, HttpMethod::Post);
    assert_eq!(r.url, "http://127.0.0.1:8080/__admin/scenarios/1/state");
    assert!(r.body.is_none());
}

#[test]
fn set_scenario_state_request_carries_state() {
    let r = api().set_scenario_state_request(&"my_scenario".to_string(), "state_2".to_string());
    assert_eq!(r.method, HttpMethod::Post);
    assert_eq!(r.url, "http://127.0.0.1:8080/__admin/scenarios/my_scenario/state");
    assert_eq!(r.body.unwrap().state, "state_2");
}

#[test]
fn distinct_scenarios_have_distinct_addresses() {
    let a = api();
    assert_ne!(
        a.reset_scenario_request(&"a".to_string()).url,
        a.reset_scenario_request(&"b".to_string()).url
    );
}

#[test]
fn empty_base_url_gives_root_relative_addresses() {
    let r = API::new(String::new()).get_mappings_request();
    assert_eq!(r.url, "/__admin/mappings");
}

fn get_request() -> MappingRequest {
    MappingRequest {
        method: Some("GET".to_string()),
        url: Some("/search?q=things".to_string()),
        url_path: None,
        url_path_pattern: None,
        query_parameters: None,
    }
}

fn mapping(id: Option<&str>) -> Mapping {
    Mapping::new(
        id.map(|s| s.to_string()),
        id.map(|s| s.to_string()),
        None,
        Some(get_request()),
        None,
        None,
        None,
        None,
        None,
        None,
        None,
    )
}

#[test]
fn mapping_keeps_its_parts_and_starts_without_metadata() {
    let m = mapping(Some("76ada7b0-49ae-4229-91c4-396a36f18e09"));
    assert_eq!(m.id().as_deref(), Some("76ada7b0-49ae-4229-91c4-396a36f18e09"));
    assert_eq!(m.uuid().as_deref(), Some("76ada7b0-49ae-4229-91c4-396a36f18e09"));
    assert!(m.name().is_none());
    assert_eq!(m.requests().as_ref().unwrap().url.as_deref(), Some("/search?q=things"));
    assert!(m.responses().is_none());
    assert!(m.persistent().is_none());
    assert!(m.priority().is_none());
    assert_eq!(m.metadata(), "");
}

#[test]
fn mapping_response_yields_its_mappings_in_order() {
    let response = MappingResponse {
        mappings: vec![mapping(Some("first")), mapping(None)],
        meta: MappingObject { total: 2 },
    };
    let mappings = response.into_mappings();
    assert_eq!(mappings.len(), 2);
    assert_eq!(mappings[0].id().as_deref(), Some("first"));
    assert!(mappings[1].id().is_none());
}

#[test]
fn scenario_response_yields_its_scenarios() {
    let scenario = Scenario::new(
        Some("c8d249ec-d86d-48b1-88a8-a660e6848042".to_string()),
        Some("my_scenario".to_string()),
        Some("state_2".to_string()),
        Some(vec!["Started".to_string(), "state_1".to_string(), "state_2".to_string()]),
    );
    let scenarios = ScenarioResponse { scenarios: vec![scenario] }.into_scenarios();
    assert_eq!(scenarios.len(), 1);
    assert_eq!(scenarios[0].name().as_deref(), Some("my_scenario"));
    assert_eq!(scenarios[0].state().as_deref(), Some("state_2"));
    assert_eq!(scenarios[0].possible_states().as_ref().unwrap().len(), 3);
    assert_eq!(scenarios[0].id().as_deref(), Some("c8d249ec-d86d-48b1-88a8-a660e6848042"));
}

#[test]
fn page_request_keeps_limit_and_offset() {
    let p = PageRequest::new(10, 20);
    assert_eq!(p.limit(), 10);
    assert_eq!(p.offset(), 20);
}
