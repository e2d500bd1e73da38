//! The route table of the key usage namespace, from which the HTTP router is
//! built, and how a service answer becomes a response.

use vstd::prelude::*;
use crate::keys::AdminError;
use crate::account_operations::operation_routes;

verus! {

/// Methods a route answers.
#[derive(Clone, Copy, Debug, PartialEq, Eq, Structural)]
pub enum MethodFilter {
    Get,
    Post,
    Any,
}

/// How a route's path is matched.
#[derive(Clone, Copy, Debug, PartialEq, Eq, Structural)]
pub enum RoutePattern {
    /// The request path equals the route's path.
    Exact,
    /// The request path continues the route's path (a catch-all segment).
    Prefix,
}

/// What answers a request.
#[derive(Clone, Copy, Debug, PartialEq, Eq, Structural)]
pub enum Endpoint {
    Version,
    Config,
    Overview,
    Records,
    Accounts,
    AccountDetail,
    PersonalInfo,
    ProfileAvatar,
    QuotaForecast,
    RefreshQuota,
    ResetCredits,
    ConsumeResetCredit,
    NotFound,
}

/// One route of the namespace.
#[derive(Clone, Debug, PartialEq, Eq)]
pub struct Route {
    pub pattern: RoutePattern,
    pub path: String,
    pub method: MethodFilter,
    pub endpoint: Endpoint,
}

/// A route as (path, methods, endpoint).
pub open spec fn route_view(r: Route) -> (Seq<char>, MethodFilter, Endpoint) {
    (r.path@, r.method, r.endpoint)
}

/// Root of the namespace.
pub open spec fn namespace() -> Seq<char> {
    "/api/key-usage"@
}

/// Root of the namespace followed by the path separator.
pub open spec fn namespace_dir() -> Seq<char> {
    "/api/key-usage/"@
}

/// The routes of the namespace's own pages, as (path, method, endpoint).
pub open spec fn page_routes() -> Seq<(Seq<char>, MethodFilter, Endpoint)> {
    seq![
        ("/api/key-usage/version"@, MethodFilter::Get, Endpoint::Version),
        ("/api/key-usage/config"@, MethodFilter::Get, Endpoint::Config),
        ("/api/key-usage/overview"@, MethodFilter::Get, Endpoint::Overview),
        ("/api/key-usage/records"@, MethodFilter::Get, Endpoint::Records),
        ("/api/key-usage/accounts"@, MethodFilter::Get, Endpoint::Accounts),
        ("/api/key-usage/accounts/detail"@, MethodFilter::Get, Endpoint::AccountDetail),
    ]
}

/// A route in full: pattern, path, methods and endpoint.
pub open spec fn full_route_view(r: Route) -> (RoutePattern, Seq<char>, MethodFilter, Endpoint) {
    (r.pattern, r.path@, r.method, r.endpoint)
}

/// The exact routes of the namespace: its pages, the account operations, and
/// the namespace root, which any method finds missing.
pub open spec fn exact_routes() -> Seq<(Seq<char>, MethodFilter, Endpoint)> {
    page_routes() + operation_routes() + seq![(namespace(), MethodFilter::Any, Endpoint::NotFound)]
}

/// The routes of the namespace: the exact ones, then a catch-all under the
/// namespace root that any method finds missing.
pub open spec fn namespace_routes() -> Seq<(RoutePattern, Seq<char>, MethodFilter, Endpoint)> {
    exact_routes().map_values(|e: (Seq<char>, MethodFilter, Endpoint)| (RoutePattern::Exact, e.0, e.1, e.2))
        + seq![(RoutePattern::Prefix, namespace_dir(), MethodFilter::Any, Endpoint::NotFound)]
}

fn exact_route_to(path: &'static str, method: MethodFilter, endpoint: Endpoint) -> (r: Route)
    ensures
        full_route_view(r) == (RoutePattern::Exact, path@, method, endpoint),
{
    Route { pattern: RoutePattern::Exact, path: String::from_str(path), method, endpoint }
}

/// The routes of the key usage namespace.
pub fn router() -> (routes: Vec<Route>)
    ensures
        routes@.map_values(|r: Route| full_route_view(r)) == namespace_routes(),
{
    let mut routes: Vec<Route> = Vec::new();
    routes.push(exact_route_to("/api/key-usage/version", MethodFilter::Get, Endpoint::Version));
    routes.push(exact_route_to("/api/key-usage/config", MethodFilter::Get, Endpoint::Config));
    routes.push(exact_route_to("/api/key-usage/overview", MethodFilter::Get, Endpoint::Overview));
    routes.push(exact_route_to("/api/key-usage/records", MethodFilter::Get, Endpoint::Records));
    routes.push(exact_route_to("/api/key-usage/accounts", MethodFilter::Get, Endpoint::Accounts));
    routes.push(exact_route_to("/api/key-usage/accounts/detail", MethodFilter::Get, Endpoint::AccountDetail));
    let operations = crate::account_operations::router();
    let ghost before = routes@;
    let mut i: usize = 0;
    while i < operations.len()
        invariant
            i <= operations.len(),
            operations@.len() == operation_routes().len(),
            forall|j: int| 0 <= j < operations@.len() ==> operations@[j].pattern == RoutePattern::Exact
                && route_view(#[trigger] operations@[j]) == operation_routes()[j],
            routes@.len() == before.len() + i,
            forall|j: int| 0 <= j < before.len() ==> routes@[j] == before[j],
            forall|j: int| 0 <= j < i ==> #[trigger] routes@[before.len() + j] == operations@[j],
        decreases operations.len() - i,
    {
        let op = &operations[i];
        routes.push(Route { pattern: op.pattern, path: op.path.clone(), method: op.method, endpoint: op.endpoint });
        i = i + 1;
    }
    routes.push(exact_route_to("/api/key-usage", MethodFilter::Any, Endpoint::NotFound));
    routes.push(Route { pattern: RoutePattern::Prefix, path: String::from_str("/api/key-usage/"), method: MethodFilter::Any, endpoint: Endpoint::NotFound });
    let ghost views = routes@.map_values(|r: Route| full_route_view(r));
    assert forall|j: int| 0 <= j < views.len() implies views[j] == #[trigger] namespace_routes()[j] by {
        if j < 6 {
            assert(routes@[j] == before[j]);
        } else if j < 12 {
            assert(before.len() == 6);
            assert(routes@[before.len() + (j - 6)] == operations@[j - 6]);
            assert(exact_routes()[j] == operation_routes()[j - 6]);
        }
    }
    assert(views =~= namespace_routes());
    routes
}

/// The route table keeps every request to the namespace inside it: its root
/// is an exact route, and every path below it a catch-all route, that any
/// method finds missing.
pub proof fn lemma_namespace_always_answers(routes: Seq<Route>)
    requires
        routes.map_values(|r: Route| full_route_view(r)) == namespace_routes(),
    ensures
        exists|i: int| 0 <= i < routes.len() && #[trigger] full_route_view(routes[i]) == (RoutePattern::Exact, namespace(), MethodFilter::Any, Endpoint::NotFound),
        exists|j: int| 0 <= j < routes.len() && #[trigger] full_route_view(routes[j]) == (RoutePattern::Prefix, namespace_dir(), MethodFilter::Any, Endpoint::NotFound),
{
    assert(routes.len() == 14) by {
        assert(namespace_routes().len() == 14);
    }
    assert(full_route_view(routes[12]) == namespace_routes()[12]);
    assert(full_route_view(routes[13]) == namespace_routes()[13]);
}

/// Each page's path is in the route table exactly once, as an exact route
/// that takes `GET` alone and answers with the page's own endpoint; no other
/// route of the table has that path.
pub proof fn lemma_pages_answer_only_get(routes: Seq<Route>, k: int)
    requires
        routes.map_values(|r: Route| full_route_view(r)) == namespace_routes(),
        0 <= k < page_routes().len(),
    ensures
        full_route_view(routes[k]) == (RoutePattern::Exact, page_routes()[k].0, MethodFilter::Get, page_routes()[k].2),
        forall|j: int| 0 <= j < routes.len() && #[trigger] routes[j].path@ == page_routes()[k].0 ==> j == k,
{
    reveal_strlit("/api/key-usage/version");
    reveal_strlit("/api/key-usage/config");
    reveal_strlit("/api/key-usage/overview");
    reveal_strlit("/api/key-usage/records");
    reveal_strlit("/api/key-usage/accounts");
    reveal_strlit("/api/key-usage/accounts/detail");
    reveal_strlit("/api/key-usage/accounts/personal-info");
    reveal_strlit("/api/key-usage/accounts/profile-avatar");
    reveal_strlit("/api/key-usage/accounts/quota-forecast");
    reveal_strlit("/api/key-usage/accounts/quota/refresh");
    reveal_strlit("/api/key-usage/accounts/reset-credits");
    reveal_strlit("/api/key-usage");
    reveal_strlit("/api/key-usage/");
    assert(routes.len() == 14) by {
        assert(namespace_routes().len() == 14);
    }
    let path = page_routes()[k].0;
    assert forall|j: int| 0 <= j < routes.len() && #[trigger] routes[j].path@ == path implies j == k by {
        assert(full_route_view(routes[j]) == namespace_routes()[j]);
        if j < 13 && j != k {
            assert(namespace_routes()[j].1 == exact_routes()[j].0);
            let other = exact_routes()[j].0;
            if other.len() == path.len() {
                assert(other[15] != path[15] || other[24] != path[24]);
            }
        } else if j == 13 {
            assert(namespace_routes()[13].1 == namespace_dir());
        }
    }
    assert(full_route_view(routes[k]) == namespace_routes()[k]);
    assert(exact_routes()[k] == page_routes()[k]);
}

/// An error answer of the HTTP layer.
#[derive(Clone, Debug, PartialEq, Eq)]
pub enum ApiError {
    /// The request is malformed.
    BadRequest(String),
    /// The resource does not exist.
    NotFound(String),
    /// No valid session.
    SessionRequired,
    /// The path does not take this method.
    MethodNotAllowed,
    /// The service refused or failed.
    Service(AdminError),
}

/// A service answer as a response: the value; no session when the service
/// found none; the service's error otherwise.
pub fn session_result<T>(result: Result<Option<T>, AdminError>) -> (r: Result<T, ApiError>)
    ensures
        match result {
            Ok(Some(v)) => r == Ok::<T, ApiError>(v),
            Ok(None) => r == Err::<T, ApiError>(ApiError::SessionRequired),
            Err(e) => r == Err::<T, ApiError>(ApiError::Service(e)),
        },
{
    match result {
        Ok(Some(v)) => Ok(v),
        Ok(None) => Err(ApiError::SessionRequired),
        Err(e) => Err(ApiError::Service(e)),
    }
}

} // verus!
