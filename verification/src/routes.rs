//! The HTTP routes of the web service.

use vstd::prelude::*;

use crate::environment::Environment;

use axum::http::header::InvalidHeaderValue;
use axum::http::HeaderValue;

verus! {

/// Declares `http::HeaderValue`; its values are opaque.
#[verifier::external_type_specification]
#[verifier::external_body]
pub struct ExHeaderValue(HeaderValue);

/// Declares `http::header::InvalidHeaderValue`; its values are opaque.
#[verifier::external_type_specification]
#[verifier::external_body]
pub struct ExInvalidHeaderValue(InvalidHeaderValue);

/// A character that may stand in a header value: a tab, or any character
/// from the space on other than DEL. Every byte of a non-ASCII character
/// is at least 128, so such characters are allowed.
pub open spec fn header_value_char(c: char) -> bool {
    let u = c as u32;
    (u >= 32 && u != 127) || u == 9
}

/// Every character of `s` may stand in a header value.
pub open spec fn header_value_text(s: Seq<char>) -> bool {
    forall|i: int| 0 <= i < s.len() ==> header_value_char(#[trigger] s[i])
}

/// The header value `HeaderValue::from_str` makes of a text: a function of
/// the text alone.
pub uninterp spec fn header_value_of(s: Seq<char>) -> HeaderValue;

/// Calls `HeaderValue::from_str`, which accepts a text exactly when each of
/// its bytes is a tab, or at least 32 and not 127, and then holds the text's
/// bytes.
#[verifier::external_body]
fn header_value(s: &str) -> (r: Result<HeaderValue, InvalidHeaderValue>)
    ensures
        r is Ok <==> header_value_text(s@),
        r matches Ok(h) ==> h == header_value_of(s@),
{
    HeaderValue::from_str(s)
}

/// What answers a route.
#[derive(PartialEq, Eq, Structural, Debug, Clone, Copy)]
pub enum Endpoint {
    /// The profile, as JSON.
    Profile,
    /// A static welcome page.
    Home,
    /// A health check that always answers 200.
    HealthCheck,
    /// The interactive API documentation, with its OpenAPI document at
    /// `/docs.json`.
    Docs,
}

/// A route: a path and what answers it.
#[derive(Debug, Clone, PartialEq, Eq)]
pub struct Route {
    pub path: String,
    pub endpoint: Endpoint,
}

/// The API documentation is served in local runs only.
pub open spec fn docs_enabled_spec(env: Environment) -> bool {
    env == Environment::Local
}

/// The routes of the service in `env`: the profile, the welcome page and
/// the health check, and the documentation in local runs. Any other path
/// gets the fallback answer.
pub open spec fn routes_spec(env: Environment) -> Seq<(Seq<char>, Endpoint)> {
    let common = seq![
        ("/profile"@, Endpoint::Profile),
        ("/"@, Endpoint::Home),
        ("/health_check"@, Endpoint::HealthCheck),
    ];
    if docs_enabled_spec(env) {
        common.push(("/docs"@, Endpoint::Docs))
    } else {
        common
    }
}

/// Whether the API documentation is served in `env`.
pub fn docs_enabled(env: &Environment) -> (r: bool)
    ensures
        r == docs_enabled_spec(*env),
{
    match env {
        Environment::Local => true,
        Environment::Production => false,
    }
}

/// The routes of the service in `env`.
pub fn app_routes(env: &Environment) -> (r: Vec<Route>)
    ensures
        r@.map_values(|x: Route| (x.path@, x.endpoint)) == routes_spec(*env),
{
    let mut r: Vec<Route> = Vec::new();
    r.push(Route { path: "/profile".to_string(), endpoint: Endpoint::Profile });
    r.push(Route { path: "/".to_string(), endpoint: Endpoint::Home });
    r.push(Route { path: "/health_check".to_string(), endpoint: Endpoint::HealthCheck });
    if docs_enabled(env) {
        r.push(Route { path: "/docs".to_string(), endpoint: Endpoint::Docs });
    }
    assert(r@.map_values(|x: Route| (x.path@, x.endpoint)) =~= routes_spec(*env));
    r
}

/// The origins allowed to call the API with credentials, as header values,
/// in order; refused with the position of the first origin that cannot be a
/// header value.
pub fn cors_origins(origins: &Vec<String>) -> (r: Result<Vec<HeaderValue>, usize>)
    ensures
        r matches Ok(v) ==> v.len() == origins.len() && forall|i: int|
            0 <= i < origins.len() ==> header_value_text(#[trigger] origins[i]@) && v[i]
                == header_value_of(origins[i]@),
        r matches Err(k) ==> k < origins.len() && !header_value_text(origins[k as int]@) && forall|
            i: int,
        | 0 <= i < k ==> header_value_text(#[trigger] origins[i]@),
{
    let mut v: Vec<HeaderValue> = Vec::new();
    let mut i: usize = 0;
    while i < origins.len()
        invariant
            i <= origins.len(),
            v.len() == i,
            forall|j: int|
                0 <= j < i ==> header_value_text(#[trigger] origins[j]@) && v[j] == header_value_of(
                    origins[j]@,
                ),
        decreases origins.len() - i,
    {
        match header_value(origins[i].as_str()) {
            Ok(h) => v.push(h),
            Err(_) => return Err(i),
        }
        i += 1;
    }
    Ok(v)
}

/// The page the welcome route serves.
pub fn home_page() -> (r: &'static str)
    ensures
        r@ == "<h1>Hello World!</h1>"@,
{
    "<h1>Hello World!</h1>"
}

/// The answer to a path that no route serves: 404 with a short message.
pub fn fallback_response() -> (r: (u16, &'static str))
    ensures
        r.0 == 404,
        r.1@ == "invalid api"@,
{
    (404, "invalid api")
}

/// The path of the OpenAPI document that the documentation reads.
pub fn docs_document_path() -> (r: &'static str)
    ensures
        r@ == "/docs.json"@,
{
    "/docs.json"
}

} // verus!
