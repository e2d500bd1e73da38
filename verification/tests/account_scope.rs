use key_usage::keys::{AdminErrorKind, ClientBudgetStatus, ClientKeyGroup, ClientKeyLimits, ClientKeyRecord};
use key_usage::model::{
    KeyUsageAccountDetailQuery, KeyUsageAccountListQuery, KeyUsageAccountQuota,
    KeyUsageAccountScopeState, KeyUsageAccountSnapshot, KeyUsageQuotaAvailability, PageSize,
};
use key_usage::accounts::{Account, AccountPageItem};
use key_usage::scope::{
    account_list, account_page, account_scope, collect_account_ids, contains_account,
    detail_target, first_snapshot, scope_from_members, AccountGroupMember, ScopePlan,
};
use key_usage::time::Timestamp;

fn key_with(groups: Vec<(&str, bool)>) -> ClientKeyRecord {
    ClientKeyRecord {
        id: "key-42".to_owned(),
        name: "Development".to_owned(),
        prefix: "sk_aaaa".to_owned(),
        enabled: true,
        groups: groups
            .into_iter()
            .map(|(id, enabled)| ClientKeyGroup { id: id.to_owned(), enabled })
            .collect(),
        limits: ClientKeyLimits { max_concurrency: 0, requests_per_minute: 0 },
        budget: ClientBudgetStatus {
            daily_limit_usd: "0".to_owned(),
            daily_used_usd: "0".to_owned(),
            daily_resets_at: None,
            weekly_limit_usd: "0".to_owned(),
            weekly_used_usd: "0".to_owned(),
            weekly_resets_at: None,
        },
    }
}

fn member(group: &str, account: &str) -> AccountGroupMember {
    AccountGroupMember { group_id: group.to_owned(), account_id: account.to_owned() }
}

fn snapshot(id: &str) -> KeyUsageAccountSnapshot {
    KeyUsageAccountSnapshot {
        item: AccountPageItem {
            account: Account {
                id: id.to_owned(),
                name: "Name".to_owned(),
                email: None,
                provider_kind: "openai".to_owned(),
                authentication_kind: "oauth".to_owned(),
                plan_type: None,
                created_at: Timestamp { secs: 0, nanos: 0 },
                notes: None,
                credential_ref: None,
            },
            status: "active".to_owned(),
        },
        plan_type_display: None,
        quota: KeyUsageAccountQuota { availability: KeyUsageQuotaAvailability::Unavailable, value: None },
        usage: None,
        authorized: false,
    }
}

fn list_query(page: u32, size: u16) -> KeyUsageAccountListQuery {
    KeyUsageAccountListQuery { current_page: page, page_size: PageSize::new(size).unwrap() }
}

#[test]
fn accounts_report_unbound_scope_without_reading_account_data() {
    match account_scope(&key_with(vec![]), &vec![]) {
        ScopePlan::Settled(scope) => {
            assert_eq!(scope.state(), KeyUsageAccountScopeState::Unbound);
            let plan = account_page(&scope, list_query(1, 20));
            assert_eq!(plan.total, 0);
            assert!(plan.page_ids.is_empty());
            assert_eq!(plan.current_page, 1);
            assert_eq!(plan.page_size, 20);
        }
        ScopePlan::LoadMembers(_) => panic!("an unbound key reads no members"),
    }
}

#[test]
fn disabled_groups_give_no_enabled_groups_scope() {
    match account_scope(&key_with(vec![("grp_a", false), ("grp_b", false)]), &vec![]) {
        ScopePlan::Settled(scope) => {
            assert_eq!(scope.state(), KeyUsageAccountScopeState::NoEnabledGroups);
            assert!(scope.ids().is_empty());
        }
        ScopePlan::LoadMembers(_) => panic!("no enabled group to load"),
    }
}

#[test]
fn only_enabled_groups_are_loaded_in_order() {
    match account_scope(&key_with(vec![("grp_a", true), ("grp_b", false), ("grp_c", true)]), &vec![]) {
        ScopePlan::LoadMembers(ids) => assert_eq!(ids, vec!["grp_a".to_owned(), "grp_c".to_owned()]),
        ScopePlan::Settled(_) => panic!("enabled groups must be loaded"),
    }
}

#[test]
fn scope_ids_are_sorted_and_unique() {
    let ids = collect_account_ids(vec![
        member("g1", "acct_b"),
        member("g2", "acct_a"),
        member("g1", "acct_c"),
        member("g2", "acct_b"),
        member("g3", "acct_a"),
        member("g3", "Z"),
        member("g3", "é"),
    ]);
    assert_eq!(ids, vec!["Z", "acct_a", "acct_b", "acct_c", "é"]);
    let mut expected = ids.clone();
    expected.sort();
    expected.dedup();
    assert_eq!(ids, expected);
}

#[test]
fn binary_search_finds_exactly_the_members() {
    let ids = collect_account_ids(vec![member("g", "b"), member("g", "d"), member("g", "a")]);
    for id in ["a", "b", "d"] {
        assert!(contains_account(&ids, id));
    }
    for id in ["", "c", "e", "aa", "A"] {
        assert!(!contains_account(&ids, id));
    }
}

#[test]
fn account_details_recheck_scope_on_every_request() {
    let scope = scope_from_members(vec![member("g", "acct_group_ready"), member("g", "acct_other_ready")], &vec![]);
    assert_eq!(scope.state(), KeyUsageAccountScopeState::Available);
    let query = |id: &str| KeyUsageAccountDetailQuery { account_id: id.to_owned() };
    assert!(detail_target(&scope, &query("acct_group_ready")).is_ok());
    let e = detail_target(&scope, &query("unknown")).unwrap_err();
    assert_eq!(e.kind, AdminErrorKind::NotFound);
    assert_eq!(e.message, "资源不存在");
    match account_scope(&key_with(vec![("grp_a", false)]), &vec![]) {
        ScopePlan::Settled(empty) => assert!(detail_target(&empty, &query("acct_group_ready")).is_err()),
        ScopePlan::LoadMembers(_) => panic!("disabled group"),
    }
}

#[test]
fn first_snapshot_or_not_found() {
    assert_eq!(first_snapshot(vec![snapshot("a"), snapshot("b")]).unwrap().item.account.id, "a");
    assert_eq!(first_snapshot(vec![]).unwrap_err().kind, AdminErrorKind::NotFound);
}

#[test]
fn pages_cover_the_scope_once() {
    let members: Vec<_> = (0..23).map(|i| member("g", &format!("acct_{i:02}"))).collect();
    let scope = scope_from_members(members, &vec![]);
    let mut seen = Vec::new();
    for page in 1..=4 {
        let plan = account_page(&scope, list_query(page, 7));
        assert_eq!(plan.total, 23);
        seen.extend(plan.page_ids);
    }
    assert_eq!(&seen, scope.ids());
    assert_eq!(account_page(&scope, list_query(3, 7)).page_ids.first().map(String::as_str), Some("acct_14"));
    assert!(account_page(&scope, list_query(5, 7)).page_ids.is_empty());
    assert!(account_page(&scope, list_query(u32::MAX, 100)).page_ids.is_empty());
    // page 0 reads as the first page
    assert_eq!(account_page(&scope, list_query(0, 7)).page_ids, account_page(&scope, list_query(1, 7)).page_ids);
}

#[test]
fn account_list_keeps_the_page_position() {
    let scope = scope_from_members(vec![member("g", "a"), member("g", "b")], &vec![]);
    let plan = account_page(&scope, list_query(1, 20));
    let list = account_list(plan, vec![snapshot("a"), snapshot("b")]);
    assert_eq!(list.scope_state, KeyUsageAccountScopeState::Available);
    assert_eq!(list.total, 2);
    assert_eq!(list.current_page, 1);
    assert_eq!(list.page_size, 20);
    assert_eq!(list.items.len(), 2);
}

#[test]
fn group_grants_are_admin_only_and_independent_from_routing() {
    let granted = vec!["grp_11111111111111111111111111111111".to_owned()];
    let ids = match account_scope(&key_with(vec![]), &granted) {
        ScopePlan::LoadMembers(ids) => ids,
        ScopePlan::Settled(_) => panic!("granted groups must be loaded"),
    };
    assert_eq!(ids, granted);
    let scope = scope_from_members(vec![member("grp_11111111111111111111111111111111", "acct_group_ready")], &granted);
    assert_eq!(scope.state(), KeyUsageAccountScopeState::Available);
    assert!(scope.is_granted("acct_group_ready"));
    let query = KeyUsageAccountDetailQuery { account_id: "acct_group_ready".to_owned() };
    assert!(detail_target(&scope, &query).is_ok());
    match account_scope(&key_with(vec![]), &vec![]) {
        ScopePlan::Settled(revoked) => {
            assert_eq!(revoked.state(), KeyUsageAccountScopeState::Unbound);
            assert!(detail_target(&revoked, &query).is_err());
        }
        ScopePlan::LoadMembers(_) => panic!("nothing left to load"),
    }
}

#[test]
fn routing_members_hold_no_grant() {
    let granted = vec!["grp_granted".to_owned()];
    let ids = match account_scope(&key_with(vec![("grp_route", true), ("grp_off", false)]), &granted) {
        ScopePlan::LoadMembers(ids) => ids,
        ScopePlan::Settled(_) => panic!("groups must be loaded"),
    };
    assert_eq!(ids, vec!["grp_route".to_owned(), "grp_granted".to_owned()]);
    let scope = scope_from_members(
        vec![member("grp_route", "acct_b"), member("grp_granted", "acct_a"), member("grp_route", "acct_a")],
        &granted,
    );
    assert_eq!(scope.ids(), &vec!["acct_a".to_owned(), "acct_b".to_owned()]);
    assert!(scope.is_granted("acct_a"));
    assert!(!scope.is_granted("acct_b"));
    match account_scope(&key_with(vec![("grp_off", false)]), &granted) {
        ScopePlan::LoadMembers(ids) => assert_eq!(ids, granted),
        ScopePlan::Settled(_) => panic!("a grant makes the scope available"),
    }
}
