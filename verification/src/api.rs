//! The admin API of a WireMock server: which request each operation sends.
//!
//! Each operation of [`API`] is planned here as an [`AdminRequest`]: the
//! method, the address under the server's base URL, and the body. Sending it
//! and decoding the answer is the caller's part.

pub mod requests;
pub mod responses;

use vstd::prelude::*;
use reqwest::Client;
use crate::api::requests::state::State;

verus! {

#[verifier::external_type_specification]
#[verifier::external_body]
pub struct ExClient(Client);

/// `reqwest::Client::new`: a client with the default configuration. Nothing
/// is stated of the client; reqwest documents that the call panics where no
/// TLS backend or resolver configuration can be loaded.
#[verifier::external_body]
fn new_client() -> Client {
    Client::new()
}

/// The HTTP method of an admin request.
#[derive(PartialEq, Eq, Debug, Clone, Copy)]
pub enum HttpMethod {
    Get,
    Post,
}

/// One request to the admin API.
pub struct AdminRequest {
    pub method: HttpMethod,
    pub url: String,
    pub body: Option<State>,
}

/// The root of the admin API under a server's base URL.
pub open spec fn admin_root() -> Seq<char> {
    "/__admin/"@
}

/// The address of `path` in the admin API of the server at `base`.
pub open spec fn admin_url(base: Seq<char>, path: Seq<char>) -> Seq<char> {
    base + admin_root() + path
}

/// The admin path of the state of the scenario named `name`.
pub open spec fn scenario_state_path(name: Seq<char>) -> Seq<char> {
    "scenarios/"@ + name + "/state"@
}

/// A sequence that stands between a fixed prefix and a fixed suffix is
/// determined by the whole.
proof fn lemma_infix_determined(pre: Seq<char>, a: Seq<char>, b: Seq<char>, post: Seq<char>)
    requires
        pre + a + post == pre + b + post,
    ensures
        a == b,
{
    let whole = pre + a + post;
    assert((pre + a + post).len() == pre.len() + a.len() + post.len());
    assert((pre + b + post).len() == pre.len() + b.len() + post.len());
    assert(a.len() == b.len());
    assert(a =~= whole.subrange(pre.len() as int, (pre.len() + a.len()) as int));
    assert(b =~= (pre + b + post).subrange(pre.len() as int, (pre.len() + b.len()) as int));
}

/// On one server, two admin addresses are equal only when their paths are:
/// distinct operations never share an address.
pub proof fn lemma_admin_url_injective(base: Seq<char>, p: Seq<char>, q: Seq<char>)
    ensures
        admin_url(base, p) == admin_url(base, q) ==> p == q,
{
    if admin_url(base, p) == admin_url(base, q) {
        assert(base + admin_root() + p =~= (base + admin_root()) + p + Seq::<char>::empty());
        assert(base + admin_root() + q =~= (base + admin_root()) + q + Seq::<char>::empty());
        lemma_infix_determined(base + admin_root(), p, q, Seq::<char>::empty());
    }
}

/// On one server, the address of a scenario's state determines the scenario:
/// two requests that reset or set scenario states go to the same address only
/// when they name the same scenario.
pub proof fn lemma_scenario_address_names_scenario(base: Seq<char>, a: Seq<char>, b: Seq<char>)
    ensures
        admin_url(base, scenario_state_path(a)) == admin_url(base, scenario_state_path(b)) ==> a == b,
{
    if admin_url(base, scenario_state_path(a)) == admin_url(base, scenario_state_path(b)) {
        lemma_admin_url_injective(base, scenario_state_path(a), scenario_state_path(b));
        lemma_infix_determined("scenarios/"@, a, b, "/state"@);
    }
}

/// A client of the admin API of the server at one base URL.
pub struct API {
    base_url: String,
    client: Client,
}

impl API {
    /// The base URL of the server.
    pub closed spec fn base(&self) -> Seq<char> {
        self.base_url@
    }

    /// The HTTP client that sends the requests.
    pub closed spec fn spec_client(&self) -> Client {
        self.client
    }

    /// A client of the server at `base_url`.
    pub fn new(base_url: String) -> (api: Self)
        ensures
            api.base() == base_url@,
    {
        API { base_url, client: new_client() }
    }

    /// The base URL of the server.
    pub fn base_url(&self) -> (r: &String)
        ensures
            r@ == self.base(),
    {
        &self.base_url
    }

    /// The HTTP client that sends the requests.
    pub fn client(&self) -> (r: &Client)
        ensures
            *r == self.spec_client(),
    {
        &self.client
    }

    /// The address of `path` in the admin API.
    fn url_of(&self, path: &str) -> (url: String)
        ensures
            url@ == admin_url(self.base(), path@),
    {
        let mut url = self.base_url.clone();
        url.append("/__admin/");
        url.append(path);
        url
    }

    /// A request without a body.
    fn bare(&self, method: HttpMethod, path: &str) -> (r: AdminRequest)
        ensures
            r.method == method,
            r.url@ == admin_url(self.base(), path@),
            r.body is None,
    {
        AdminRequest { method, url: self.url_of(path), body: None }
    }

    /// The request for all registered mappings: `GET {base}/__admin/mappings`.
    pub fn get_mappings_request(&self) -> (r: AdminRequest)
        ensures
            r.method == HttpMethod::Get,
            r.url@ == admin_url(self.base(), "mappings"@),
            r.url@ == self.base() + "/__admin/mappings"@,
            r.body is None,
    {
        let r = self.bare(HttpMethod::Get, "mappings");
        proof {
            reveal_strlit("/__admin/");
            reveal_strlit("mappings");
            reveal_strlit("/__admin/mappings");
            assert(r.url@ =~= self.base() + "/__admin/mappings"@);
        }
        r
    }

    /// The request that resets the mappings to their default state and clears
    /// the request journal: `POST {base}/__admin/reset`.
    pub fn reset_request(&self) -> (r: AdminRequest)
        ensures
            r.method == HttpMethod::Post,
            r.url@ == admin_url(self.base(), "reset"@),
            r.url@ == self.base() + "/__admin/reset"@,
            r.body is None,
    {
        let r = self.bare(HttpMethod::Post, "reset");
        proof {
            reveal_strlit("/__admin/");
            reveal_strlit("reset");
            reveal_strlit("/__admin/reset");
            assert(r.url@ =~= self.base() + "/__admin/reset"@);
        }
        r
    }

    /// The request that shuts the server down: `POST {base}/__admin/shutdown`.
    pub fn shutdown_request(&self) -> (r: AdminRequest)
        ensures
            r.method == HttpMethod::Post,
            r.url@ == admin_url(self.base(), "shutdown"@),
            r.url@ == self.base() + "/__admin/shutdown"@,
            r.body is None,
    {
        let r = self.bare(HttpMethod::Post, "shutdown");
        proof {
            reveal_strlit("/__admin/");
            reveal_strlit("shutdown");
            reveal_strlit("/__admin/shutdown");
            assert(r.url@ =~= self.base() + "/__admin/shutdown"@);
        }
        r
    }

    /// The request for all configured scenarios: `GET {base}/__admin/scenarios`.
    pub fn get_scenarios_request(&self) -> (r: AdminRequest)
        ensures
            r.method == HttpMethod::Get,
            r.url@ == admin_url(self.base(), "scenarios"@),
            r.url@ == self.base() + "/__admin/scenarios"@,
            r.body is None,
    {
        let r = self.bare(HttpMethod::Get, "scenarios");
        proof {
            reveal_strlit("/__admin/");
            reveal_strlit("scenarios");
            reveal_strlit("/__admin/scenarios");
            assert(r.url@ =~= self.base() + "/__admin/scenarios"@);
        }
        r
    }

    /// The request that moves every scenario back to its start state:
    /// `POST {base}/__admin/scenarios/reset`.
    pub fn reset_scenarios_request(&self) -> (r: AdminRequest)
        ensures
            r.method == HttpMethod::Post,
            r.url@ == admin_url(self.base(), "scenarios/reset"@),
            r.url@ == self.base() + "/__admin/scenarios/reset"@,
            r.body is None,
    {
        let r = self.bare(HttpMethod::Post, "scenarios/reset");
        proof {
            reveal_strlit("/__admin/");
            reveal_strlit("scenarios/reset");
            reveal_strlit("/__admin/scenarios/reset");
            assert(r.url@ =~= self.base() + "/__admin/scenarios/reset"@);
        }
        r
    }

    /// The address of the state of the scenario named `scenario_name`.
    fn scenario_state_url(&self, scenario_name: &String) -> (url: String)
        ensures
            url@ == admin_url(self.base(), scenario_state_path(scenario_name@)),
            url@ == self.base() + "/__admin/scenarios/"@ + scenario_name@ + "/state"@,
    {
        let mut url = self.url_of("scenarios/");
        url.append(scenario_name.as_str());
        url.append("/state");
        proof {
            assert(url@ =~= admin_url(self.base(), scenario_state_path(scenario_name@)));
            reveal_strlit("/__admin/");
            reveal_strlit("scenarios/");
            reveal_strlit("/__admin/scenarios/");
            assert(url@ =~= self.base() + "/__admin/scenarios/"@ + scenario_name@ + "/state"@);
        }
        url
    }

    /// The request that moves one scenario back to its start state:
    /// `POST {base}/__admin/scenarios/{scenario_name}/state`, without a body.
    pub fn reset_scenario_request(&self, scenario_name: &String) -> (r: AdminRequest)
        ensures
            r.method == HttpMethod::Post,
            r.url@ == admin_url(self.base(), scenario_state_path(scenario_name@)),
            r.url@ == self.base() + "/__admin/scenarios/"@ + scenario_name@ + "/state"@,
            r.body is None,
    {
        AdminRequest {
            method: HttpMethod::Post,
            url: self.scenario_state_url(scenario_name),
            body: None,
        }
    }

    /// The request that sets one scenario to `scenario_state`:
    /// `POST {base}/__admin/scenarios/{scenario_name}/state`, with the state as its body.
    pub fn set_scenario_state_request(&self, scenario_name: &String, scenario_state: String) -> (r: AdminRequest)
        ensures
            r.method == HttpMethod::Post,
            r.url@ == admin_url(self.base(), scenario_state_path(scenario_name@)),
            r.url@ == self.base() + "/__admin/scenarios/"@ + scenario_name@ + "/state"@,
            r.body matches Some(b) && b.state@ == scenario_state@,
    {
        AdminRequest {
            method: HttpMethod::Post,
            url: self.scenario_state_url(scenario_name),
            body: Some(State { state: scenario_state }),
        }
    }
}

} // verus!
