//! Account operations that a key holder may ask for on accounts it holds a
//! grant on: their routes and how their failures are reported.

use vstd::prelude::*;
use crate::routes::{Route, RoutePattern, MethodFilter, Endpoint, ApiError, route_view};

verus! {

/// The routes of the account operations, as (path, method, endpoint).
pub open spec fn operation_routes() -> Seq<(Seq<char>, MethodFilter, Endpoint)> {
    seq![
        ("/api/key-usage/accounts/personal-info"@, MethodFilter::Get, Endpoint::PersonalInfo),
        ("/api/key-usage/accounts/profile-avatar"@, MethodFilter::Get, Endpoint::ProfileAvatar),
        ("/api/key-usage/accounts/quota-forecast"@, MethodFilter::Get, Endpoint::QuotaForecast),
        ("/api/key-usage/accounts/quota/refresh"@, MethodFilter::Post, Endpoint::RefreshQuota),
        ("/api/key-usage/accounts/reset-credits"@, MethodFilter::Get, Endpoint::ResetCredits),
        ("/api/key-usage/accounts/reset-credits"@, MethodFilter::Post, Endpoint::ConsumeResetCredit),
    ]
}

fn exact(path: &'static str, method: MethodFilter, endpoint: Endpoint) -> (r: Route)
    ensures
        r.pattern == RoutePattern::Exact,
        r.path@ == path@,
        r.method == method,
        r.endpoint == endpoint,
{
    Route { pattern: RoutePattern::Exact, path: String::from_str(path), method, endpoint }
}

/// The account operation routes.
pub fn router() -> (routes: Vec<Route>)
    ensures
        routes@.len() == operation_routes().len(),
        forall|i: int| 0 <= i < routes@.len() ==> routes@[i].pattern == RoutePattern::Exact
            && route_view(#[trigger] routes@[i]) == operation_routes()[i],
{
    let mut routes: Vec<Route> = Vec::new();
    routes.push(exact("/api/key-usage/accounts/personal-info", MethodFilter::Get, Endpoint::PersonalInfo));
    routes.push(exact("/api/key-usage/accounts/profile-avatar", MethodFilter::Get, Endpoint::ProfileAvatar));
    routes.push(exact("/api/key-usage/accounts/quota-forecast", MethodFilter::Get, Endpoint::QuotaForecast));
    routes.push(exact("/api/key-usage/accounts/quota/refresh", MethodFilter::Post, Endpoint::RefreshQuota));
    routes.push(exact("/api/key-usage/accounts/reset-credits", MethodFilter::Get, Endpoint::ResetCredits));
    routes.push(exact("/api/key-usage/accounts/reset-credits", MethodFilter::Post, Endpoint::ConsumeResetCredit));
    routes
}

/// A request of an account operation that did not parse.
#[derive(Clone, Copy, Debug, PartialEq, Eq, Structural)]
pub struct WireValidationError;

/// Message of a refused account operation request.
pub open spec fn invalid_operation_message() -> Seq<char> {
    "账号操作参数不合法"@
}

/// Any malformed account operation request is a bad request with one
/// fixed message that reveals nothing of the parse failure.
pub fn wire_error(_error: WireValidationError) -> (e: ApiError)
    ensures
        e matches ApiError::BadRequest(m) && m@ == invalid_operation_message(),
{
    ApiError::BadRequest(String::from_str("账号操作参数不合法"))
}

/// Message shown in place of any failure to read personal information.
pub open spec fn profile_unavailable_message() -> Seq<char> {
    "个人信息暂不可用"@
}

/// A failure to read an account's personal information is shown only as a
/// fixed message; its detail is dropped.
pub fn mask_profile_error(profile_error: Option<String>) -> (r: Option<String>)
    ensures
        profile_error is None ==> r is None,
        profile_error is Some ==> (r matches Some(m) && m@ == profile_unavailable_message()),
{
    match profile_error {
        Some(_) => Some(String::from_str("个人信息暂不可用")),
        None => None,
    }
}

} // verus!
