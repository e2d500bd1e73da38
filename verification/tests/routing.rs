use key_usage::account_operations::{mask_profile_error, router as operation_router, wire_error, WireValidationError};
use key_usage::keys::{AdminError, AdminErrorKind};
use key_usage::routes::{router, session_result, ApiError, Endpoint, MethodFilter, Route, RoutePattern};

fn routes_with_path(routes: &[Route], path: &str) -> Vec<(RoutePattern, MethodFilter, Endpoint)> {
    routes.iter().filter(|r| r.path == path).map(|r| (r.pattern, r.method, r.endpoint)).collect()
}

#[test]
fn pages_answer_get() {
    let routes = router();
    for (path, endpoint) in [
        ("/api/key-usage/version", Endpoint::Version),
        ("/api/key-usage/config", Endpoint::Config),
        ("/api/key-usage/overview", Endpoint::Overview),
        ("/api/key-usage/records", Endpoint::Records),
        ("/api/key-usage/accounts", Endpoint::Accounts),
        ("/api/key-usage/accounts/detail", Endpoint::AccountDetail),
        ("/api/key-usage/accounts/personal-info", Endpoint::PersonalInfo),
        ("/api/key-usage/accounts/profile-avatar", Endpoint::ProfileAvatar),
        ("/api/key-usage/accounts/quota-forecast", Endpoint::QuotaForecast),
    ] {
        assert_eq!(routes_with_path(&routes, path), vec![(RoutePattern::Exact, MethodFilter::Get, endpoint)], "{path}");
    }
    assert_eq!(
        routes_with_path(&routes, "/api/key-usage/accounts/reset-credits"),
        vec![
            (RoutePattern::Exact, MethodFilter::Get, Endpoint::ResetCredits),
            (RoutePattern::Exact, MethodFilter::Post, Endpoint::ConsumeResetCredit),
        ]
    );
    assert_eq!(
        routes_with_path(&routes, "/api/key-usage/accounts/quota/refresh"),
        vec![(RoutePattern::Exact, MethodFilter::Post, Endpoint::RefreshQuota)]
    );
}

#[test]
fn namespace_errors_remain_in_the_namespace() {
    let routes = router();
    assert_eq!(routes.len(), 14);
    assert_eq!(
        routes_with_path(&routes, "/api/key-usage"),
        vec![(RoutePattern::Exact, MethodFilter::Any, Endpoint::NotFound)]
    );
    assert_eq!(
        routes_with_path(&routes, "/api/key-usage/"),
        vec![(RoutePattern::Prefix, MethodFilter::Any, Endpoint::NotFound)]
    );
    assert!(routes.iter().all(|r| r.path.starts_with("/api/key-usage")));
    assert!(routes_with_path(&routes, "/api/key-usage/missing").is_empty());
}

#[test]
fn operation_routes_are_part_of_the_namespace() {
    let ops = operation_router();
    assert_eq!(ops.len(), 6);
    assert!(ops.iter().all(|r| r.path.starts_with("/api/key-usage/accounts/")));
}

#[test]
fn malformed_operations_are_bad_requests() {
    assert_eq!(wire_error(WireValidationError), ApiError::BadRequest("账号操作参数不合法".to_owned()));
}

#[test]
fn profile_errors_are_not_detailed() {
    assert_eq!(mask_profile_error(Some("upstream said private-sentinel".to_owned())).as_deref(), Some("个人信息暂不可用"));
    assert_eq!(mask_profile_error(None), None);
}

#[test]
fn service_answers_become_responses() {
    assert_eq!(session_result::<u32>(Ok(Some(7))), Ok(7));
    assert_eq!(session_result::<u32>(Ok(None)), Err(ApiError::SessionRequired));
    let e = AdminError { kind: AdminErrorKind::Forbidden, message: "no".to_owned() };
    assert_eq!(session_result::<u32>(Err(e.clone())), Err(ApiError::Service(e)));
}
