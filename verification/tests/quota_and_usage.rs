use key_usage::accounts::{
    account_loads, assemble_snapshots, attach_usage, is_api_key, loaded_items, usage_loads, lookup_usage, quota_from_snapshot, quota_plan,
    quota_usage_window, usage_of_quota, usage_windows, Account, AccountPageItem, AccountUsage,
    AccountUsagePeriod, AccountUsageWindowQuery, AccountUsageWindowResult, ProviderAdminErrorKind,
    ProviderQuota, ProviderQuotaWindow, QuotaLocalUsageAttribution, QuotaPlan, UsageWindowRef,
};
use key_usage::keys::{AdminError, AdminErrorKind};
use key_usage::model::{KeyUsageAccountQuota, KeyUsageAccountSnapshot, KeyUsageQuotaAvailability};
use key_usage::scope::{scope_from_members, AccountGroupMember};
use key_usage::time::{sub_seconds, TimeRange, Timestamp, MAX_DELTA_SECS, SAFE_INSTANT_SECS};

fn ts(secs: i64) -> Timestamp {
    Timestamp { secs, nanos: 0 }
}

fn account(id: &str, auth: &str) -> Account {
    Account {
        id: id.to_owned(),
        name: "Name".to_owned(),
        email: Some("visible@example.com".to_owned()),
        provider_kind: "openai".to_owned(),
        authentication_kind: auth.to_owned(),
        plan_type: Some("plus".to_owned()),
        created_at: ts(1_700_000_000),
        notes: Some("private-sentinel".to_owned()),
        credential_ref: Some("private-sentinel".to_owned()),
    }
}

fn usage(requests: u64) -> AccountUsage {
    AccountUsage {
        request_count: requests,
        success_count: requests,
        input_tokens: Some(10),
        output_tokens: Some(20),
        cached_tokens: None,
        cache_write_tokens: None,
        reasoning_tokens: None,
        total_tokens: Some(30),
        last_used_at: Some(ts(1_788_000_000)),
        models: vec![],
        request_buckets: vec![],
    }
}

fn window(key: &str, attribution: QuotaLocalUsageAttribution, reset: Option<Timestamp>, seconds: Option<u64>) -> ProviderQuotaWindow {
    ProviderQuotaWindow {
        key: key.to_owned(),
        group: "codex".to_owned(),
        label: "7d".to_owned(),
        limit_id: None,
        limit_name: None,
        role: None,
        window_seconds: seconds,
        used_percent_bits: Some(12.5f64.to_bits()),
        reset_at: reset,
        limit_reached: false,
        local_usage: None,
        local_usage_attribution: attribution,
    }
}

fn quota(windows: Vec<ProviderQuotaWindow>, usage_window: Option<UsageWindowRef>) -> ProviderQuota {
    ProviderQuota { observed_at: Some(ts(1_788_000_000)), limit_reached: false, windows, usage_window }
}

fn snapshot(account: Account, value: Option<ProviderQuota>) -> KeyUsageAccountSnapshot {
    KeyUsageAccountSnapshot {
        item: AccountPageItem { account, status: "active".to_owned() },
        plan_type_display: None,
        quota: KeyUsageAccountQuota {
            availability: if value.is_some() { KeyUsageQuotaAvailability::Available } else { KeyUsageQuotaAvailability::Unavailable },
            value,
        },
        usage: None,
        authorized: false,
    }
}

#[test]
fn api_key_detection_is_exact() {
    assert!(is_api_key("api_key"));
    assert!(!is_api_key("API_KEY"));
    assert!(!is_api_key("oauth"));
}

#[test]
fn quota_plans() {
    let unsupported = KeyUsageAccountQuota { availability: KeyUsageQuotaAvailability::Unsupported, value: None };
    let unavailable = KeyUsageAccountQuota { availability: KeyUsageQuotaAvailability::Unavailable, value: None };
    assert_eq!(quota_plan(&account("a", "api_key"), true, true), QuotaPlan::Settled(unsupported));
    assert_eq!(quota_plan(&account("a", "oauth"), false, true), QuotaPlan::Settled(unavailable.clone()));
    assert_eq!(quota_plan(&account("a", "oauth"), true, false), QuotaPlan::Settled(unavailable));
    assert_eq!(quota_plan(&account("a", "oauth"), true, true), QuotaPlan::Probe);
}

#[test]
fn quota_answers_are_classified() {
    let observed = quota_from_snapshot(Ok(quota(vec![], None)));
    assert_eq!(observed.availability, KeyUsageQuotaAvailability::Available);
    assert!(observed.value.is_some());
    let with_window = ProviderQuota { observed_at: None, ..quota(vec![window("w", QuotaLocalUsageAttribution::AccountWide, None, None)], None) };
    assert_eq!(quota_from_snapshot(Ok(with_window)).availability, KeyUsageQuotaAvailability::Available);
    let empty = ProviderQuota { observed_at: None, ..quota(vec![], None) };
    let unobserved = quota_from_snapshot(Ok(empty));
    assert_eq!(unobserved.availability, KeyUsageQuotaAvailability::Unobserved);
    assert!(unobserved.value.is_some());
    assert_eq!(
        quota_from_snapshot(Err(ProviderAdminErrorKind::Unsupported)),
        KeyUsageAccountQuota { availability: KeyUsageQuotaAvailability::Unsupported, value: None }
    );
    assert_eq!(
        quota_from_snapshot(Err(ProviderAdminErrorKind::Upstream)),
        KeyUsageAccountQuota { availability: KeyUsageQuotaAvailability::Unavailable, value: None }
    );
}

#[test]
fn quota_windows_end_at_their_reset() {
    let reset = Timestamp { secs: 1_788_300_000, nanos: 250 };
    let q = quota_usage_window(&"acct".to_owned(), &window("weekly", QuotaLocalUsageAttribution::AccountWide, Some(reset), Some(604_800))).unwrap();
    assert_eq!(q.account_id, "acct");
    assert_eq!(q.key, "weekly");
    assert_eq!(q.range.end, reset);
    assert_eq!(q.range.start, Timestamp { secs: 1_788_300_000 - 604_800, nanos: 250 });
}

#[test]
fn quota_windows_need_account_wide_reset_and_length() {
    let reset = Some(ts(1_788_300_000));
    let acct = "acct".to_owned();
    assert!(quota_usage_window(&acct, &window("w", QuotaLocalUsageAttribution::Credential, reset, Some(60))).is_none());
    assert!(quota_usage_window(&acct, &window("w", QuotaLocalUsageAttribution::AccountWide, None, Some(60))).is_none());
    assert!(quota_usage_window(&acct, &window("w", QuotaLocalUsageAttribution::AccountWide, reset, None)).is_none());
    // an empty window is not a range
    assert!(quota_usage_window(&acct, &window("w", QuotaLocalUsageAttribution::AccountWide, reset, Some(0))).is_none());
    // lengths chrono cannot hold
    assert!(quota_usage_window(&acct, &window("w", QuotaLocalUsageAttribution::AccountWide, reset, Some(u64::MAX))).is_none());
    assert!(quota_usage_window(&acct, &window("w", QuotaLocalUsageAttribution::AccountWide, reset, Some(MAX_DELTA_SECS as u64 + 1))).is_none());
    // a start before chrono's first date
    assert!(quota_usage_window(&acct, &window("w", QuotaLocalUsageAttribution::AccountWide, reset, Some(MAX_DELTA_SECS as u64))).is_none());
}

#[test]
fn usage_windows_cover_api_keys_and_quota_windows() {
    let now = ts(1_788_400_000);
    let reset = Some(ts(1_788_300_000));
    let snapshots = vec![
        snapshot(account("acct_key", "api_key"), None),
        snapshot(
            account("acct_oauth", "oauth"),
            Some(quota(
                vec![
                    window("weekly", QuotaLocalUsageAttribution::AccountWide, reset, Some(604_800)),
                    window("five_hour", QuotaLocalUsageAttribution::Credential, reset, Some(18_000)),
                    window("monthly", QuotaLocalUsageAttribution::AccountWide, reset, Some(2_592_000)),
                ],
                None,
            )),
        ),
        snapshot(account("acct_none", "oauth"), None),
    ];
    let windows = usage_windows(&snapshots, now);
    let keys: Vec<_> = windows.iter().map(|w| (w.account_id.as_str(), w.key.as_str())).collect();
    assert_eq!(keys, vec![("acct_key", "account-lifetime"), ("acct_oauth", "weekly"), ("acct_oauth", "monthly")]);
    assert_eq!(windows[0].range, TimeRange { start: ts(1_700_000_000), end: now });
}

#[test]
fn later_usage_results_win() {
    let results = vec![
        AccountUsageWindowResult { account_id: "a".to_owned(), key: "w".to_owned(), usage: usage(1) },
        AccountUsageWindowResult { account_id: "a".to_owned(), key: "v".to_owned(), usage: usage(2) },
        AccountUsageWindowResult { account_id: "a".to_owned(), key: "w".to_owned(), usage: usage(3) },
    ];
    assert_eq!(lookup_usage(&results, "a", "w").unwrap().request_count, 3);
    assert_eq!(lookup_usage(&results, "a", "v").unwrap().request_count, 2);
    assert!(lookup_usage(&results, "b", "w").is_none());
}

#[test]
fn usage_is_attached_to_its_own_account_and_window() {
    let reset = Some(ts(1_788_300_000));
    let snapshots = vec![
        snapshot(account("acct_key", "api_key"), None),
        snapshot(
            account("acct_oauth", "oauth"),
            Some(quota(
                vec![
                    window("weekly", QuotaLocalUsageAttribution::AccountWide, reset, Some(604_800)),
                    window("monthly", QuotaLocalUsageAttribution::AccountWide, reset, Some(2_592_000)),
                ],
                Some(UsageWindowRef { index: 1, period: AccountUsagePeriod::Monthly }),
            )),
        ),
    ];
    let windows = usage_windows(&snapshots, ts(1_788_400_000));
    let results = vec![
        AccountUsageWindowResult { account_id: "acct_key".to_owned(), key: "account-lifetime".to_owned(), usage: usage(9) },
        AccountUsageWindowResult { account_id: "acct_oauth".to_owned(), key: "weekly".to_owned(), usage: usage(4) },
        AccountUsageWindowResult { account_id: "acct_oauth".to_owned(), key: "monthly".to_owned(), usage: usage(7) },
        AccountUsageWindowResult { account_id: "acct_key".to_owned(), key: "weekly".to_owned(), usage: usage(100) },
    ];
    let out = attach_usage(snapshots, &windows, &results);
    assert_eq!(out[0].usage.as_ref().unwrap().request_count, 9);
    let q = out[1].quota.value.as_ref().unwrap();
    assert_eq!(q.windows[0].local_usage.as_ref().unwrap().request_count, 4);
    assert_eq!(q.windows[1].local_usage.as_ref().unwrap().request_count, 7);
    assert_eq!(out[1].usage.as_ref().unwrap().request_count, 7);
    assert_eq!(usage_of_quota(q).unwrap().request_count, 7);
}

#[test]
fn no_windows_leave_snapshots_as_they_are() {
    let snapshots = vec![snapshot(account("acct_oauth", "oauth"), None)];
    let out = attach_usage(snapshots.clone(), &Vec::<AccountUsageWindowQuery>::new(), &vec![]);
    assert_eq!(out, snapshots);
}

#[test]
fn loaded_accounts_keep_order_and_stop_at_failure() {
    let item = |id: &str| AccountPageItem { account: account(id, "oauth"), status: "active".to_owned() };
    let ok = loaded_items(vec![Ok(Some(item("a"))), Ok(None), Ok(Some(item("c")))]).unwrap();
    assert_eq!(ok.iter().map(|i| i.account.id.as_str()).collect::<Vec<_>>(), vec!["a", "c"]);
    let failure = AdminError { kind: AdminErrorKind::Unavailable, message: "store down".to_owned() };
    let second = AdminError { kind: AdminErrorKind::Internal, message: "later".to_owned() };
    assert_eq!(
        loaded_items(vec![Ok(Some(item("a"))), Err(failure.clone()), Err(second)]).unwrap_err(),
        failure
    );
}

#[test]
fn another_accounts_usage_is_never_attached() {
    let reset = Some(ts(1_788_300_000));
    let snapshots = vec![
        snapshot(account("acct_key", "api_key"), None),
        snapshot(
            account("acct_oauth", "oauth"),
            Some(quota(
                vec![window("weekly", QuotaLocalUsageAttribution::AccountWide, reset, Some(604_800))],
                Some(UsageWindowRef { index: 0, period: AccountUsagePeriod::Weekly }),
            )),
        ),
    ];
    let windows = usage_windows(&snapshots, ts(1_788_400_000));
    let results = vec![
        AccountUsageWindowResult { account_id: "acct_other".to_owned(), key: "account-lifetime".to_owned(), usage: usage(9) },
        AccountUsageWindowResult { account_id: "acct_other".to_owned(), key: "weekly".to_owned(), usage: usage(4) },
    ];
    let out = attach_usage(snapshots, &windows, &results);
    assert!(out[0].usage.is_none());
    assert!(out[1].usage.is_none());
    assert!(out[1].quota.value.as_ref().unwrap().windows[0].local_usage.is_none());
}

#[test]
fn empty_pages_and_windowless_accounts_read_nothing() {
    assert_eq!(account_loads(vec![]), None);
    assert_eq!(account_loads(vec!["a".to_owned()]), Some(vec!["a".to_owned()]));
    assert_eq!(usage_loads(&vec![]), None);
    let windows = vec![AccountUsageWindowQuery {
        account_id: "a".to_owned(),
        key: "weekly".to_owned(),
        range: TimeRange { start: ts(1), end: ts(2) },
    }];
    assert_eq!(usage_loads(&windows), Some(windows.clone()));
}

#[test]
fn assembled_accounts_are_authorized_by_grants() {
    let scope = scope_from_members(
        vec![
            AccountGroupMember { group_id: "grp_granted".to_owned(), account_id: "acct_granted".to_owned() },
            AccountGroupMember { group_id: "grp_route".to_owned(), account_id: "acct_route".to_owned() },
        ],
        &vec!["grp_granted".to_owned()],
    );
    let unsupported = KeyUsageAccountQuota { availability: KeyUsageQuotaAvailability::Unsupported, value: None };
    let out = assemble_snapshots(
        vec![
            AccountPageItem { account: account("acct_granted", "oauth"), status: "active".to_owned() },
            AccountPageItem { account: account("acct_route", "oauth"), status: "active".to_owned() },
        ],
        vec![unsupported.clone(), unsupported.clone()],
        vec![None, Some("Plus".to_owned())],
        &scope,
    );
    assert_eq!(out.len(), 2);
    assert!(out[0].authorized);
    assert!(!out[1].authorized);
    assert_eq!(out[1].plan_type_display.as_deref(), Some("Plus"));
    assert!(out.iter().all(|s| s.usage.is_none() && s.quota == unsupported));
}

#[test]
fn ordinary_instants_move_back_exactly() {
    let t = Timestamp { secs: 1_788_300_000, nanos: 7 };
    assert_eq!(sub_seconds(t, 604_800), Some(Timestamp { secs: 1_788_300_000 - 604_800, nanos: 7 }));
    let edge = Timestamp { secs: SAFE_INSTANT_SECS, nanos: 0 };
    assert_eq!(sub_seconds(edge, 2 * SAFE_INSTANT_SECS), Some(Timestamp { secs: -SAFE_INSTANT_SECS, nanos: 0 }));
    assert_eq!(sub_seconds(t, MAX_DELTA_SECS + 1), None);
}

#[test]
fn snapshot_quotas_stay_classified_through_the_pipeline() {
    let scope = scope_from_members(vec![], &vec![]);
    let observed = ProviderQuota {
        observed_at: Some(ts(5)),
        limit_reached: false,
        windows: vec![window("weekly", QuotaLocalUsageAttribution::AccountWide, Some(ts(1_788_300_000)), Some(604_800))],
        usage_window: None,
    };
    let empty = ProviderQuota { observed_at: None, limit_reached: false, windows: vec![], usage_window: None };
    let quotas = vec![
        quota_from_snapshot(Ok(observed)),
        quota_from_snapshot(Ok(empty)),
        quota_from_snapshot(Err(ProviderAdminErrorKind::Unsupported)),
        quota_from_snapshot(Err(ProviderAdminErrorKind::Upstream)),
    ];
    let items = (0..4)
        .map(|i| AccountPageItem { account: account(&format!("acct_{i}"), "oauth"), status: "active".to_owned() })
        .collect();
    let snapshots = assemble_snapshots(items, quotas, vec![None; 4], &scope);
    let windows = usage_windows(&snapshots, ts(1_788_400_000));
    let results = vec![AccountUsageWindowResult { account_id: "acct_0".to_owned(), key: "weekly".to_owned(), usage: usage(3) }];
    let out = attach_usage(snapshots, &windows, &results);
    let kinds: Vec<_> = out.iter().map(|s| (s.quota.availability, s.quota.value.is_some())).collect();
    assert_eq!(
        kinds,
        vec![
            (KeyUsageQuotaAvailability::Available, true),
            (KeyUsageQuotaAvailability::Unobserved, true),
            (KeyUsageQuotaAvailability::Unsupported, false),
            (KeyUsageQuotaAvailability::Unavailable, false),
        ]
    );
    assert_eq!(out[0].quota.value.as_ref().unwrap().windows[0].local_usage.as_ref().unwrap().request_count, 3);
}
