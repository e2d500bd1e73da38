use key_usage::accounts::{
    Account, AccountModelUsage, AccountPageItem, AccountRequestBucket, AccountUsage,
    AccountUsagePeriod, ProviderQuota, UsageWindowRef,
};
use key_usage::keys::{ClientBudgetStatus, ClientKeyLimits, ClientKeyRecord, ClientKeySecret};
use key_usage::model::{
    KeyUsageAccountQuota, KeyUsageAccountScopeState, KeyUsageAccountSnapshot,
    KeyUsageQuotaAvailability, KeyUsageRecords,
};
use key_usage::observability::{
    BillingDetails, CostCoverage, CurrencyCost, Granularity, OpsError, OpsErrorPage,
    RequestMetricPoint, RequestMetrics, TokenDetails, UsageListRecord, UsagePage,
};
use key_usage::presenter::{
    account_identity, account_summary, bucket_seconds, capabilities, config, display_tokens,
    error_record, key_view, local_usage_view, mask_identity, metrics, quota_availability,
    recent_model, records, scope_state, success_record, trend_point, usage_label, version,
    window_label_display, SystemVersion,
};
use key_usage::time::Timestamp;

fn ts(secs: i64) -> Timestamp {
    Timestamp { secs, nanos: 0 }
}

fn request_metrics(requests: u64) -> RequestMetrics {
    RequestMetrics {
        request_count: requests,
        input_tokens: 700,
        output_tokens: 400,
        cached_tokens: 100,
        cache_write_tokens: 5,
        reasoning_tokens: 40,
        total_tokens: 1100,
    }
}

fn cost(currency: &str, amount: &str) -> CurrencyCost {
    CurrencyCost { currency: currency.to_owned(), amount: amount.to_owned() }
}

fn account(email: Option<&str>, name: &str, provider: &str, auth: &str) -> Account {
    Account {
        id: "acct_group_ready".to_owned(),
        name: name.to_owned(),
        email: email.map(str::to_owned),
        provider_kind: provider.to_owned(),
        authentication_kind: auth.to_owned(),
        plan_type: Some("plus".to_owned()),
        created_at: ts(0),
        notes: Some("private-sentinel".to_owned()),
        credential_ref: Some("private-sentinel".to_owned()),
    }
}

fn snapshot(account: Account, authorized: bool, value: Option<ProviderQuota>) -> KeyUsageAccountSnapshot {
    KeyUsageAccountSnapshot {
        item: AccountPageItem { account, status: "active".to_owned() },
        plan_type_display: None,
        quota: KeyUsageAccountQuota { availability: KeyUsageQuotaAvailability::Available, value },
        usage: None,
        authorized,
    }
}

fn usage_record() -> UsageListRecord {
    UsageListRecord {
        id: "req_1".to_owned(),
        started_at: ts(1_788_230_000),
        requested_model_id: Some("coding".to_owned()),
        endpoint: "/v1/responses".to_owned(),
        reasoning_effort: Some("xhigh".to_owned()),
        client_transport: "http_sse".to_owned(),
        upstream_transport: Some("websocket".to_owned()),
        tokens: TokenDetails { input_tokens: 700, output_tokens: 400, cached_tokens: 100, cache_write_tokens: 5, reasoning_tokens: 40, total_tokens: 1100 },
        billing: Some(BillingDetails { currency: "USD".to_owned(), total_amount: "0.123456".to_owned() }),
        latency_ms: Some(900),
        first_token_ms: Some(210),
        first_event_ms: Some(100),
        first_reasoning_ms: Some(150),
        first_text_ms: Some(210),
        client_ip: Some("192.0.2.42".to_owned()),
        user_agent: Some("key-usage-test/1.0".to_owned()),
        provider_account_ref: Some("private-sentinel".to_owned()),
        upstream_request_id: Some("private-sentinel".to_owned()),
    }
}

fn ops_error() -> OpsError {
    OpsError {
        event_id: "err_1".to_owned(),
        occurred_at: ts(1_788_230_001),
        requested_model_id: Some("coding".to_owned()),
        endpoint: Some("/v1/responses".to_owned()),
        reasoning_effort: Some("xhigh".to_owned()),
        client_transport: Some("http_sse".to_owned()),
        upstream_transport: Some("websocket".to_owned()),
        latency_ms: Some(30),
        client_ip: Some("192.0.2.42".to_owned()),
        user_agent: Some("key-usage-test/1.0".to_owned()),
        client_status_code: Some(502),
        upstream_status_code: Some(500),
        error_message: Some("private-sentinel".to_owned()),
        provider_account_ref: Some("private-sentinel".to_owned()),
    }
}

#[test]
fn version_exposes_only_build_identifiers() {
    let v = version(SystemVersion {
        version: "3.7.0".to_owned(),
        git_sha: "internal-revision".to_owned(),
        environment: "private-sentinel".to_owned(),
        update_available: true,
        diagnostics: vec!["private-sentinel".to_owned()],
    });
    assert_eq!(v.version, "3.7.0");
    assert_eq!(v.git_sha, "internal-revision");
    assert!(!format!("{v:?}").contains("private-sentinel"));
}

#[test]
fn config_reveals_only_the_keys_name_and_plaintext() {
    let record = ClientKeyRecord {
        id: "key-42".to_owned(),
        name: "Development".to_owned(),
        prefix: "sk_aaaa".to_owned(),
        enabled: true,
        groups: vec![],
        limits: ClientKeyLimits { max_concurrency: 0, requests_per_minute: 0 },
        budget: ClientBudgetStatus {
            daily_limit_usd: "10".to_owned(),
            daily_used_usd: "0.640001".to_owned(),
            daily_resets_at: None,
            weekly_limit_usd: "50".to_owned(),
            weekly_used_usd: "1".to_owned(),
            weekly_resets_at: Some(ts(5)),
        },
    };
    let view = key_view(&record);
    assert_eq!(view.daily_used_usd, "0.640001");
    assert_eq!(view.max_concurrency, 0);
    assert_eq!(view.weekly_resets_at, Some(ts(5)));
    let c = config(ClientKeySecret { record, plaintext: format!("sk_{}", "a".repeat(43)) });
    assert_eq!(c.name, "Development");
    assert_eq!(c.plaintext_key, format!("sk_{}", "a".repeat(43)));
}

#[test]
fn metrics_show_the_dollar_cost_and_coverage() {
    let m = metrics(
        &request_metrics(3),
        &vec![cost("EUR", "9.99"), cost("usd", "0.123456"), cost("USD", "1")],
        &CostCoverage { partial_count: 1, unavailable_count: 0 },
    );
    assert_eq!(m.cost_usd.as_deref(), Some("0.123456"));
    assert!(m.cost_incomplete);
    assert_eq!(m.total_tokens, 1100);
    assert_eq!(m.reasoning_tokens, 40);
    assert_eq!(m.requests, 3);
}

#[test]
fn empty_usage_has_zero_cost_but_unknown_pricing_stays_unknown() {
    for requests in [0u64, 2] {
        let m = metrics(
            &RequestMetrics { request_count: requests, input_tokens: 0, output_tokens: 0, cached_tokens: 0, cache_write_tokens: 0, reasoning_tokens: 0, total_tokens: 0 },
            &vec![],
            &CostCoverage { partial_count: 0, unavailable_count: requests },
        );
        assert_eq!(m.cost_usd.as_deref(), if requests == 0 { Some("0") } else { None });
        assert_eq!(m.cost_incomplete, requests > 0);
    }
}

#[test]
fn trend_points_carry_their_bucket_width() {
    assert_eq!(bucket_seconds(Granularity::FifteenMinutes), 900);
    assert_eq!(bucket_seconds(Granularity::Hour), 3600);
    assert_eq!(bucket_seconds(Granularity::Day), 86400);
    let p = trend_point(&RequestMetricPoint {
        bucket_start: ts(1_788_220_800),
        granularity: Granularity::FifteenMinutes,
        metrics: request_metrics(1),
        costs: vec![cost("USD", "0.5")],
        cost_coverage: CostCoverage { partial_count: 0, unavailable_count: 0 },
    });
    assert_eq!(p.bucket_seconds, 900);
    assert_eq!(p.metrics.reasoning_tokens, 40);
    assert_eq!(p.metrics.cost_usd.as_deref(), Some("0.5"));
    assert!(!p.metrics.cost_incomplete);
}

#[test]
fn records_keep_pagination_and_hide_admin_and_upstream_data() {
    let ok = success_record(usage_record());
    assert_eq!(ok.status, "success");
    assert!(ok.status_code.is_none());
    assert_eq!(ok.first_token_latency_ms, Some(210));
    assert_eq!(ok.latency_details.first_event_ms, Some(100));
    assert_eq!(ok.token_details.unwrap().total_tokens, 1100);
    assert_eq!(ok.route.as_deref(), Some("/v1/responses"));
    let err = error_record(ops_error());
    assert_eq!(err.status, "error");
    assert_eq!(err.status_code, Some(502));
    assert!(err.billing.is_none() && err.token_details.is_none());
    assert!(err.latency_details.first_event_ms.is_none() && err.first_token_latency_ms.is_none());
    for shown in [format!("{ok:?}"), format!("{err:?}")] {
        assert!(!shown.contains("private-sentinel"));
    }
    let page = records(KeyUsageRecords::Success(UsagePage { items: vec![usage_record()], current_page: 3, page_size: 10, total: 1 }));
    assert_eq!((page.current_page, page.page_size, page.total, page.items.len()), (3, 10, 1, 1));
    let page = records(KeyUsageRecords::Error(OpsErrorPage { items: vec![ops_error(), ops_error()], current_page: 1, page_size: 20, total: 2 }));
    assert_eq!(page.items[1].status, "error");
    assert_eq!(page.total, 2);
}

#[test]
fn wire_names() {
    assert_eq!(scope_state(KeyUsageAccountScopeState::Unbound), "unbound");
    assert_eq!(scope_state(KeyUsageAccountScopeState::NoEnabledGroups), "no_enabled_groups");
    assert_eq!(scope_state(KeyUsageAccountScopeState::Available), "available");
    assert_eq!(quota_availability(KeyUsageQuotaAvailability::Available), "available");
    assert_eq!(quota_availability(KeyUsageQuotaAvailability::Unsupported), "unsupported");
    assert_eq!(quota_availability(KeyUsageQuotaAvailability::Unobserved), "unobserved");
    assert_eq!(quota_availability(KeyUsageQuotaAvailability::Unavailable), "unavailable");
}

#[test]
fn usage_labels() {
    let q = |period: Option<AccountUsagePeriod>, index: usize| ProviderQuota {
        observed_at: None,
        limit_reached: false,
        windows: vec![],
        usage_window: period.map(|period| UsageWindowRef { index, period }),
    };
    let oauth = || account(None, "n", "openai", "oauth");
    assert_eq!(usage_label(&snapshot(account(None, "n", "openai", "api_key"), false, None)), "通用额度");
    assert_eq!(usage_label(&snapshot(oauth(), false, None)), "周月额度窗口");
    assert_eq!(usage_label(&snapshot(oauth(), false, Some(q(None, 0)))), "周月额度窗口");
    // a usage window that names no window reads as none
    assert_eq!(usage_label(&snapshot(oauth(), false, Some(q(Some(AccountUsagePeriod::Weekly), 0)))), "周月额度窗口");
    let mut weekly = q(Some(AccountUsagePeriod::Weekly), 0);
    weekly.windows.push(key_usage::accounts::ProviderQuotaWindow {
        key: "weekly".to_owned(),
        group: "g".to_owned(),
        label: "7d".to_owned(),
        limit_id: None,
        limit_name: None,
        role: None,
        window_seconds: Some(604_800),
        used_percent_bits: None,
        reset_at: None,
        limit_reached: false,
        local_usage: None,
        local_usage_attribution: key_usage::accounts::QuotaLocalUsageAttribution::AccountWide,
    });
    let mut monthly = weekly.clone();
    monthly.usage_window = Some(UsageWindowRef { index: 0, period: AccountUsagePeriod::Monthly });
    assert_eq!(usage_label(&snapshot(oauth(), false, Some(weekly))), "周额度窗口");
    assert_eq!(usage_label(&snapshot(oauth(), false, Some(monthly))), "月额度窗口");
}

#[test]
fn identities_are_masked() {
    assert_eq!(mask_identity(None), None);
    assert_eq!(mask_identity(Some("   ")), None);
    assert_eq!(mask_identity(Some("visible@example.com")), Some("vi***com".to_owned()));
    assert_eq!(mask_identity(Some("  visible@example.com\t")), Some("vi***com".to_owned()));
    assert_eq!(mask_identity(Some("abcde")), Some("a***".to_owned()));
    assert_eq!(mask_identity(Some("abcdef")), Some("ab***def".to_owned()));
    assert_eq!(mask_identity(Some("黑风雷")), Some("黑***".to_owned()));
    assert_eq!(mask_identity(Some("\u{3000}用户名字很长的\u{3000}")), Some("用户***很长的".to_owned()));
}

#[test]
fn identity_prefers_email_then_name() {
    assert_eq!(account_identity(&account(Some(" visible@example.com "), "Name", "openai", "oauth")).as_deref(), Some("visible@example.com"));
    assert_eq!(account_identity(&account(Some("  "), " Full name ", "openai", "oauth")).as_deref(), Some("Full name"));
    assert_eq!(account_identity(&account(None, "  ", "openai", "oauth")), None);
}

#[test]
fn capabilities_need_a_grant() {
    let none = capabilities(false, "openai", "oauth");
    assert!(!none.full_identity && !none.personal_info && !none.reset_credits && !none.refresh_quota && !none.quota_forecast);
    let full = capabilities(true, "openai", "oauth");
    assert!(full.full_identity && full.personal_info && full.reset_credits && full.refresh_quota && full.quota_forecast);
    let api_key = capabilities(true, "openai", "api_key");
    assert!(api_key.full_identity && !api_key.personal_info && !api_key.refresh_quota && !api_key.quota_forecast);
    let other = capabilities(true, "anthropic", "oauth");
    assert!(!other.personal_info && !other.reset_credits && other.refresh_quota);
}

#[test]
fn accounts_project_only_read_only_fields_and_mask_identity() {
    let masked = account_summary(&snapshot(account(Some("visible@example.com"), "Full account name", "openai", "oauth"), false, None));
    assert_eq!(masked.identity.as_deref(), Some("vi***com"));
    assert_eq!(masked.name, None);
    assert_eq!(masked.email, None);
    assert!(!masked.capabilities.full_identity);
    assert_eq!(masked.plan_type_display, "未知套餐");
    assert!(!format!("{masked:?}").contains("private-sentinel"));
    let mut granted = snapshot(account(Some("visible@example.com"), "Full account name", "openai", "oauth"), true, None);
    granted.plan_type_display = Some("Plus".to_owned());
    let shown = account_summary(&granted);
    assert_eq!(shown.identity.as_deref(), Some("visible@example.com"));
    assert_eq!(shown.name.as_deref(), Some("Full account name"));
    assert_eq!(shown.email.as_deref(), Some("visible@example.com"));
    assert!(shown.capabilities.reset_credits);
    assert_eq!(shown.plan_type_display, "Plus");
    assert_eq!(shown.status, "active");
}

#[test]
fn recent_model_takes_the_last_of_the_latest() {
    let m = |name: &str, at: i64| AccountModelUsage {
        model: name.to_owned(),
        request_count: 1,
        success_count: 1,
        input_tokens: None,
        output_tokens: None,
        cached_tokens: None,
        reasoning_tokens: None,
        total_tokens: None,
        last_used_at: ts(at),
    };
    assert!(recent_model(&vec![]).is_none());
    let r = recent_model(&vec![m("old", 1), m("latest-model", 5), m("older", 2)]).unwrap();
    assert_eq!((r.model.as_str(), r.last_used_at), ("latest-model", ts(5)));
    let tie = recent_model(&vec![m("a", 5), m("b", 5), m("c", 4)]).unwrap();
    assert_eq!(tie.model, "b");
}

#[test]
fn token_displays() {
    let compact = |v: u64| format!("{v}c");
    assert_eq!(display_tokens(None, compact), "—");
    assert_eq!(display_tokens(Some(1500), compact), "1500c");
    assert_eq!(window_label_display(&Some("GPT-5".to_owned()), &"7d".to_owned()), "GPT-5 · 7d");
    assert_eq!(window_label_display(&None, &"7d".to_owned()), "7d");
}

#[test]
fn local_usage_keeps_only_counts_and_buckets() {
    let usage = AccountUsage {
        request_count: 4,
        success_count: 3,
        input_tokens: Some(10),
        output_tokens: Some(20),
        cached_tokens: None,
        cache_write_tokens: Some(1),
        reasoning_tokens: Some(2),
        total_tokens: Some(30),
        last_used_at: None,
        models: vec![],
        request_buckets: vec![AccountRequestBucket { bucket_start: ts(60), request_count: 4 }],
    };
    let view = local_usage_view(&usage, &|v: u64| format!("n{v}"), &|v: u64| format!("c{v}"));
    assert_eq!(view.request_count, 4);
    assert_eq!(view.request_count_display, "n4");
    assert_eq!(view.cached_tokens, None);
    assert_eq!(view.cached_tokens_display, "—");
    assert_eq!(view.total_tokens_display, "c30");
    assert_eq!(view.request_buckets[0].request_count, 4);
}
