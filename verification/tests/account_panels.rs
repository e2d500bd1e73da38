use key_usage::account_pages::{
    account_detail, account_list_item, account_usage_view, accounts, model_usage_view,
    quota_view, quota_window_view, usage_summary, DisplayFormats,
};
use key_usage::accounts::{
    Account, AccountModelUsage, AccountPageItem, AccountRequestBucket, AccountUsage,
    AccountUsagePeriod, ProviderQuota, ProviderQuotaWindow, QuotaLocalUsageAttribution,
    UsageWindowRef,
};
use key_usage::keys::{ClientBudgetStatus, ClientKeyLimits, ClientKeyRecord};
use key_usage::model::{
    KeyUsageAccountList, KeyUsageAccountQuota, KeyUsageAccountScopeState,
    KeyUsageAccountSnapshot, KeyUsageOverview, KeyUsageQuotaAvailability,
};
use key_usage::observability::{
    AttemptCosts, CostCoverage, CurrencyCost, Granularity, RequestMetricPoint, RequestMetrics,
    UsageOverview,
};
use key_usage::presenter::overview;
use key_usage::time::{TimeRange, Timestamp};

fn ts(secs: i64) -> Timestamp {
    Timestamp { secs, nanos: 0 }
}

type Formats = DisplayFormats<
    fn(u64) -> String,
    fn(u64) -> String,
    fn(Option<Timestamp>) -> String,
    fn(Timestamp) -> String,
>;

fn number(v: u64) -> String {
    format!("n{v}")
}

fn compact(v: u64) -> String {
    format!("c{v}")
}

fn relative(t: Option<Timestamp>) -> String {
    match t {
        Some(t) => format!("r{}", t.secs),
        None => "never".to_owned(),
    }
}

fn datetime(t: Timestamp) -> String {
    format!("d{}", t.secs)
}

fn formats() -> Formats {
    DisplayFormats { number, compact, relative, datetime }
}

fn account(email: Option<&str>, name: &str, provider: &str, auth: &str) -> Account {
    Account {
        id: "acct_group_ready".to_owned(),
        name: name.to_owned(),
        email: email.map(str::to_owned),
        provider_kind: provider.to_owned(),
        authentication_kind: auth.to_owned(),
        plan_type: Some("plus".to_owned()),
        created_at: ts(0),
        notes: Some("private-sentinel".to_owned()),
        credential_ref: Some("private-sentinel".to_owned()),
    }
}

fn model(name: &str, requests: u64, last: i64) -> AccountModelUsage {
    AccountModelUsage {
        model: name.to_owned(),
        request_count: requests,
        success_count: requests - 1,
        input_tokens: Some(100),
        output_tokens: None,
        cached_tokens: Some(7),
        reasoning_tokens: None,
        total_tokens: Some(150),
        last_used_at: ts(last),
    }
}

fn usage() -> AccountUsage {
    AccountUsage {
        request_count: 4,
        success_count: 3,
        input_tokens: Some(300),
        output_tokens: Some(200),
        cached_tokens: None,
        cache_write_tokens: Some(11),
        reasoning_tokens: Some(9),
        total_tokens: Some(500),
        last_used_at: Some(ts(90)),
        models: vec![model("older-model", 2, 10), model("latest-model", 2, 80)],
        request_buckets: vec![AccountRequestBucket { bucket_start: ts(60), request_count: 4 }],
    }
}

fn window(limit_name: Option<&str>, reset_at: Option<Timestamp>, local: Option<AccountUsage>) -> ProviderQuotaWindow {
    ProviderQuotaWindow {
        key: "weekly".to_owned(),
        group: "codex".to_owned(),
        label: "7d".to_owned(),
        limit_id: Some("limit-1".to_owned()),
        limit_name: limit_name.map(str::to_owned),
        role: Some("primary".to_owned()),
        window_seconds: Some(604_800),
        used_percent_bits: Some(42.5f64.to_bits()),
        reset_at,
        limit_reached: true,
        local_usage: local,
        local_usage_attribution: QuotaLocalUsageAttribution::AccountWide,
    }
}

fn snapshot(account: Account, authorized: bool, quota: KeyUsageAccountQuota, usage: Option<AccountUsage>) -> KeyUsageAccountSnapshot {
    KeyUsageAccountSnapshot {
        item: AccountPageItem { account, status: "active".to_owned() },
        plan_type_display: Some("Plus".to_owned()),
        quota,
        usage,
        authorized,
    }
}

fn weekly_quota() -> KeyUsageAccountQuota {
    KeyUsageAccountQuota {
        availability: KeyUsageQuotaAvailability::Available,
        value: Some(ProviderQuota {
            observed_at: Some(ts(70)),
            limit_reached: false,
            windows: vec![window(Some("Codex"), Some(ts(1_000)), Some(usage()))],
            usage_window: Some(UsageWindowRef { index: 0, period: AccountUsagePeriod::Weekly }),
        }),
    }
}

#[test]
fn quota_windows_show_label_reset_and_local_usage() {
    let v = quota_window_view(window(Some("Codex"), Some(ts(1_000)), Some(usage())), &formats());
    assert_eq!(v.label_display, "Codex · 7d");
    assert_eq!(v.window_label_display, "7d");
    assert_eq!(v.reset_at_display, "d1000");
    assert_eq!(v.used_percent_bits, Some(42.5f64.to_bits()));
    assert!(v.limit_reached);
    let local = v.local_usage.unwrap();
    assert_eq!(local.request_count, 4);
    assert_eq!(local.request_count_display, "n4");
    assert_eq!(local.cached_tokens, None);
    assert_eq!(local.cached_tokens_display, "—");
    assert_eq!(local.total_tokens_display, "c500");
    assert_eq!(local.request_buckets[0].request_count, 4);

    let bare = quota_window_view(window(None, None, None), &formats());
    assert_eq!(bare.label_display, "7d");
    assert_eq!(bare.reset_at_display, "—");
    assert!(bare.local_usage.is_none());
}

#[test]
fn quota_without_snapshot_shows_dashes() {
    let v = quota_view(
        KeyUsageAccountQuota { availability: KeyUsageQuotaAvailability::Unsupported, value: None },
        &formats(),
    );
    assert_eq!(v.availability, "unsupported");
    assert_eq!(v.refreshed_at_display, "—");
    assert!(!v.limit_reached);
    assert!(v.windows.is_empty());

    let read = quota_view(weekly_quota(), &formats());
    assert_eq!(read.availability, "available");
    assert_eq!(read.refreshed_at_display, "r70");
    assert_eq!(read.windows.len(), 1);
    assert_eq!(read.windows[0].key, "weekly");
}

#[test]
fn usage_summary_names_the_latest_model() {
    let v = usage_summary(&Some(usage()), "周额度窗口", &formats());
    let recent = v.recent_model.unwrap();
    assert_eq!(recent.model, "latest-model");
    assert_eq!(recent.last_used_at, ts(80));
    assert_eq!(v.window_label_display, "周额度窗口");
    assert_eq!(v.request_count, Some(4));
    assert_eq!(v.request_count_display, "n4");
    assert_eq!(v.success_count, Some(3));
    assert_eq!(v.total_tokens_display, "c500");
    assert_eq!(v.last_used_at_display, "r90");

    let empty = usage_summary(&None, "通用额度", &formats());
    assert!(empty.recent_model.is_none());
    assert_eq!(empty.request_count, None);
    assert_eq!(empty.request_count_display, "—");
    assert_eq!(empty.total_tokens_display, "—");
    assert_eq!(empty.last_used_at_display, "—");
}

#[test]
fn model_usage_shows_counts_and_last_use() {
    let v = model_usage_view(&model("latest-model", 2, 80), &formats());
    assert_eq!(v.model, "latest-model");
    assert_eq!(v.request_count_display, "n2");
    assert_eq!(v.success_count, 1);
    assert_eq!(v.input_tokens_display, "c100");
    assert_eq!(v.output_tokens_display, "—");
    assert_eq!(v.reasoning_tokens, None);
    assert_eq!(v.last_used_at_display, "r80");
}

#[test]
fn detail_usage_maps_cache_writes_and_reads() {
    let s = snapshot(account(None, "ops", "openai", "oauth"), true, weekly_quota(), Some(usage()));
    let v = account_usage_view(&s, &formats());
    assert_eq!(v.summary.window_label_display, "周额度窗口");
    assert_eq!(v.created_tokens, Some(11));
    assert_eq!(v.created_tokens_display, "c11");
    assert_eq!(v.read_tokens, None);
    assert_eq!(v.read_tokens_display, "—");
    assert_eq!(v.reasoning_tokens_display, "c9");
    assert_eq!(v.models.len(), 2);

    let none = snapshot(account(None, "ops", "openai", "api_key"), true, weekly_quota(), None);
    let v = account_usage_view(&none, &formats());
    assert_eq!(v.summary.window_label_display, "通用额度");
    assert!(v.models.is_empty());
    assert_eq!(v.input_tokens_display, "—");
    assert_eq!(v.created_tokens_display, "—");
}

#[test]
fn listed_accounts_mask_identity_without_a_grant() {
    let s = snapshot(
        account(Some(" visible.user@example.com "), "Visible", "openai", "oauth"),
        false,
        KeyUsageAccountQuota { availability: KeyUsageQuotaAvailability::Unsupported, value: None },
        None,
    );
    let v = account_list_item(s, &formats());
    assert_eq!(v.account.identity.as_deref(), Some("vi***com"));
    assert_eq!(v.account.name, None);
    assert_eq!(v.account.email, None);
    assert!(!v.account.capabilities.full_identity);
    assert_eq!(v.quota.availability, "unsupported");
    assert_eq!(v.usage.total_tokens_display, "—");
    assert!(!format!("{v:?}").contains("private-sentinel"));
}

#[test]
fn account_detail_shows_quota_windows_and_models() {
    let s = snapshot(account(Some("a@b.co"), "ops", "openai", "oauth"), true, weekly_quota(), Some(usage()));
    let v = account_detail(s, &formats());
    assert_eq!(v.account.identity.as_deref(), Some("a@b.co"));
    assert!(v.account.capabilities.reset_credits);
    assert_eq!(v.account.plan_type_display, "Plus");
    assert_eq!(v.usage.models.len(), 2);
    let local = v.quota.windows[0].local_usage.as_ref().unwrap();
    assert_eq!(local.request_count, 4);
    assert_eq!(local.cached_tokens, None);
    assert!(!format!("{v:?}").contains("private-sentinel"));
}

#[test]
fn account_list_keeps_paging_and_scope() {
    let list = KeyUsageAccountList {
        scope_state: KeyUsageAccountScopeState::Available,
        items: vec![
            snapshot(account(None, "first", "openai", "api_key"), false, weekly_quota(), None),
            snapshot(account(None, "second", "openai", "oauth"), true, weekly_quota(), Some(usage())),
        ],
        current_page: 2,
        page_size: 20,
        total: 22,
    };
    let v = accounts(list, &formats());
    assert_eq!(v.scope_state, "available");
    assert_eq!(v.items.len(), 2);
    assert_eq!(v.items[0].account.identity.as_deref(), Some("f***"));
    assert_eq!(v.items[1].account.identity.as_deref(), Some("second"));
    assert_eq!(v.items[1].usage.request_count, Some(4));
    assert_eq!((v.current_page, v.page_size, v.total), (2, 20, 22));

    let unbound = KeyUsageAccountList {
        scope_state: KeyUsageAccountScopeState::Unbound,
        items: vec![],
        current_page: 1,
        page_size: 20,
        total: 0,
    };
    let v = accounts(unbound, &formats());
    assert_eq!(v.scope_state, "unbound");
    assert!(v.items.is_empty());
}

fn key() -> ClientKeyRecord {
    ClientKeyRecord {
        id: "key-42".to_owned(),
        name: "Coding key".to_owned(),
        prefix: "sk-ab".to_owned(),
        enabled: true,
        groups: vec![],
        limits: ClientKeyLimits { max_concurrency: 0, requests_per_minute: 60 },
        budget: ClientBudgetStatus {
            daily_limit_usd: "5".to_owned(),
            daily_used_usd: "0.640001".to_owned(),
            daily_resets_at: Some(ts(86_400)),
            weekly_limit_usd: "20".to_owned(),
            weekly_used_usd: "1".to_owned(),
            weekly_resets_at: None,
        },
    }
}

fn metrics(requests: u64) -> RequestMetrics {
    RequestMetrics {
        request_count: requests,
        input_tokens: 700,
        output_tokens: 400,
        cached_tokens: 100,
        cache_write_tokens: 5,
        reasoning_tokens: 40,
        total_tokens: 1100,
    }
}

#[test]
fn overview_shows_key_summary_trend_and_health() {
    let value = KeyUsageOverview {
        key: key(),
        overview: UsageOverview {
            range: TimeRange { start: ts(100), end: ts(200) },
            requests: metrics(3),
            attempts: AttemptCosts {
                costs: vec![CurrencyCost { currency: "usd".to_owned(), amount: "0.123456".to_owned() }],
                cost_coverage: CostCoverage { partial_count: 1, unavailable_count: 0 },
            },
        },
        trend: vec![RequestMetricPoint {
            bucket_start: ts(100),
            granularity: Granularity::FifteenMinutes,
            metrics: metrics(3),
            costs: vec![],
            cost_coverage: CostCoverage { partial_count: 0, unavailable_count: 0 },
        }],
        health_timeline: "today",
    };
    let v = overview(value, ts(250));
    assert_eq!(v.as_of, ts(250));
    assert_eq!((v.start_time, v.end_time), (ts(100), ts(200)));
    assert_eq!(v.key.daily_used_usd, "0.640001");
    assert_eq!(v.key.max_concurrency, 0);
    assert_eq!(v.summary.total_tokens, 1100);
    assert_eq!(v.summary.cost_usd.as_deref(), Some("0.123456"));
    assert!(v.summary.cost_incomplete);
    assert_eq!(v.trend.len(), 1);
    assert_eq!(v.trend[0].bucket_seconds, 900);
    assert_eq!(v.trend[0].metrics.reasoning_tokens, 40);
    assert_eq!(v.trend[0].metrics.cost_usd, None);
    assert_eq!(v.health_timeline, "today");
}
