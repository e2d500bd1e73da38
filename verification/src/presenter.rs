//! What a key holder is shown: build identifiers, its own key, its metrics
//! and records, and its accounts, stripped of what only administrators see.

use vstd::prelude::*;
use crate::text::{chars_of, string_of_range, trim, trimmed, same_text, equals_ignore_ascii_case, eq_ignoring_ascii_case};
use crate::time::{Timestamp, not_later};
use crate::keys::{ClientKeySecret, ClientKeyRecord};
use crate::observability::{RequestMetrics, CurrencyCost, CostCoverage, Granularity, RequestMetricPoint, TokenDetails, BillingDetails, UsageListRecord, OpsError};
use crate::model::{KeyUsageOverview, KeyUsageRecords, KeyUsageAccountScopeState, KeyUsageQuotaAvailability, KeyUsageAccountSnapshot};
use crate::accounts::{Account, AccountModelUsage, AccountUsage, AccountRequestBucket, AccountUsagePeriod, api_key_kind};

verus! {

/// The build and deployment state of the gateway.
#[derive(Clone, Debug, PartialEq, Eq)]
pub struct SystemVersion {
    pub version: String,
    pub git_sha: String,
    pub environment: String,
    pub update_available: bool,
    pub diagnostics: Vec<String>,
}

/// Build identifiers, the only part of the system version a key holder sees.
#[derive(Clone, Debug, PartialEq, Eq)]
pub struct VersionView {
    pub version: String,
    pub git_sha: String,
}

/// Only the build identifiers, never the environment, update state or diagnostics.
pub fn version(value: SystemVersion) -> (v: VersionView)
    ensures
        v.version == value.version,
        v.git_sha == value.git_sha,
{
    VersionView { version: value.version, git_sha: value.git_sha }
}

/// The name and plaintext of the session's own key.
#[derive(Clone, Debug, PartialEq, Eq)]
pub struct ConfigView {
    pub name: String,
    pub plaintext_key: String,
}

/// The key's name and plaintext, and nothing else of the stored key.
pub fn config(secret: ClientKeySecret) -> (v: ConfigView)
    ensures
        v.name == secret.record.name,
        v.plaintext_key@ == secret.plaintext@,
{
    let plaintext_key = secret.expose_for_response().clone();
    ConfigView { name: secret.record.name, plaintext_key }
}

/// The first amount billed in US dollars, the currency matched ignoring ASCII case.
pub open spec fn usd_amount(costs: Seq<CurrencyCost>) -> Option<Seq<char>>
    decreases costs.len(),
{
    if costs.len() == 0 {
        None
    } else if eq_ignoring_ascii_case(costs[0].currency@, "USD"@) {
        Some(costs[0].amount@)
    } else {
        usd_amount(costs.drop_first())
    }
}

/// The cost shown: the dollar amount; without one, zero when nothing was
/// requested, and unknown otherwise.
pub open spec fn shown_cost(costs: Seq<CurrencyCost>, request_count: u64) -> Option<Seq<char>> {
    match usd_amount(costs) {
        Some(a) => Some(a),
        None => if request_count == 0 { Some("0"@) } else { None },
    }
}

/// View of an optional string as characters.
pub open spec fn text_opt(o: Option<String>) -> Option<Seq<char>> {
    match o {
        Some(s) => Some(s@),
        None => None,
    }
}

/// Request counts and the dollar cost of a span.
#[derive(Clone, Debug, PartialEq, Eq)]
pub struct MetricsView {
    pub requests: u64,
    pub input_tokens: u64,
    pub output_tokens: u64,
    pub cached_tokens: u64,
    pub cache_write_tokens: u64,
    pub reasoning_tokens: u64,
    pub total_tokens: u64,
    pub cost_usd: Option<String>,
    pub cost_incomplete: bool,
}

/// `m` shows the counts of `value` and the cost of `costs`; the cost is
/// incomplete when some attempt could be priced only in part or not at all.
pub open spec fn shows_metrics(value: RequestMetrics, costs: Seq<CurrencyCost>, coverage: CostCoverage, m: MetricsView) -> bool {
    &&& m.requests == value.request_count
    &&& m.input_tokens == value.input_tokens
    &&& m.output_tokens == value.output_tokens
    &&& m.cached_tokens == value.cached_tokens
    &&& m.cache_write_tokens == value.cache_write_tokens
    &&& m.reasoning_tokens == value.reasoning_tokens
    &&& m.total_tokens == value.total_tokens
    &&& text_opt(m.cost_usd) == shown_cost(costs, value.request_count)
    &&& m.cost_incomplete == (coverage.partial_count > 0 || coverage.unavailable_count > 0)
}

/// The metrics shown for a span; the cost is incomplete when some attempt
/// could be priced only in part or not at all.
pub fn metrics(value: &RequestMetrics, costs: &Vec<CurrencyCost>, coverage: &CostCoverage) -> (m: MetricsView)
    ensures
        shows_metrics(*value, costs@, *coverage, m),
{
    let mut i: usize = 0;
    proof {
        reveal_strlit("USD");
    }
    assert(costs@.skip(0) =~= costs@);
    while i < costs.len() && !equals_ignore_ascii_case(costs[i].currency.as_str(), "USD")
        invariant
            i <= costs.len(),
            usd_amount(costs@) == usd_amount(costs@.skip(i as int)),
        decreases costs.len() - i,
    {
        assert(costs@.skip(i as int).drop_first() =~= costs@.skip(i + 1));
        assert(costs@.skip(i as int)[0] == costs@[i as int]);
        i = i + 1;
    }
    let mut cost_usd: Option<String> = if i < costs.len() {
        assert(costs@.skip(i as int)[0] == costs@[i as int]);
        Some(costs[i].amount.clone())
    } else {
        None
    };
    if cost_usd.is_none() && value.request_count == 0 {
        proof {
            reveal_strlit("0");
        }
        cost_usd = Some(String::from_str("0"));
    }
    MetricsView {
        requests: value.request_count,
        input_tokens: value.input_tokens,
        output_tokens: value.output_tokens,
        cached_tokens: value.cached_tokens,
        cache_write_tokens: value.cache_write_tokens,
        reasoning_tokens: value.reasoning_tokens,
        total_tokens: value.total_tokens,
        cost_usd,
        cost_incomplete: coverage.partial_count > 0 || coverage.unavailable_count > 0,
    }
}

/// Width in seconds of a trend bucket.
pub open spec fn spec_bucket_seconds(g: Granularity) -> u32 {
    match g {
        Granularity::FifteenMinutes => 900,
        Granularity::Hour => 3600,
        Granularity::Day => 86400,
    }
}

/// Width in seconds of a trend bucket.
pub fn bucket_seconds(g: Granularity) -> (s: u32)
    ensures
        s == spec_bucket_seconds(g),
{
    match g {
        Granularity::FifteenMinutes => 900,
        Granularity::Hour => 3600,
        Granularity::Day => 86400,
    }
}

/// One trend bucket as shown.
#[derive(Clone, Debug, PartialEq, Eq)]
pub struct TrendPointView {
    pub time: Timestamp,
    pub bucket_seconds: u32,
    pub metrics: MetricsView,
}

/// `v` shows the trend bucket `point`: its start, its width and its metrics.
pub open spec fn shows_trend_point(point: RequestMetricPoint, v: TrendPointView) -> bool {
    &&& v.time == point.bucket_start
    &&& v.bucket_seconds == spec_bucket_seconds(point.granularity)
    &&& shows_metrics(point.metrics, point.costs@, point.cost_coverage, v.metrics)
}

/// One trend bucket: its start, its width and its metrics.
pub fn trend_point(point: &RequestMetricPoint) -> (v: TrendPointView)
    ensures
        shows_trend_point(*point, v),
{
    TrendPointView {
        time: point.bucket_start,
        bucket_seconds: bucket_seconds(point.granularity),
        metrics: metrics(&point.metrics, &point.costs, &point.cost_coverage),
    }
}

/// The session's key as shown: name, prefix, limits and budget, no secret.
#[derive(Clone, Debug, PartialEq, Eq)]
pub struct KeyView {
    pub name: String,
    pub prefix: String,
    pub max_concurrency: u64,
    pub requests_per_minute: u64,
    pub daily_limit_usd: String,
    pub daily_used_usd: String,
    pub daily_resets_at: Option<Timestamp>,
    pub weekly_limit_usd: String,
    pub weekly_used_usd: String,
    pub weekly_resets_at: Option<Timestamp>,
}

/// The visible fields of the session's key.
pub open spec fn spec_key_view(key: ClientKeyRecord) -> KeyView {
    KeyView {
        name: key.name,
        prefix: key.prefix,
        max_concurrency: key.limits.max_concurrency,
        requests_per_minute: key.limits.requests_per_minute,
        daily_limit_usd: key.budget.daily_limit_usd,
        daily_used_usd: key.budget.daily_used_usd,
        daily_resets_at: key.budget.daily_resets_at,
        weekly_limit_usd: key.budget.weekly_limit_usd,
        weekly_used_usd: key.budget.weekly_used_usd,
        weekly_resets_at: key.budget.weekly_resets_at,
    }
}

/// The visible fields of the session's key.
pub fn key_view(key: &ClientKeyRecord) -> (v: KeyView)
    ensures
        v == spec_key_view(*key),
{
    KeyView {
        name: key.name.clone(),
        prefix: key.prefix.clone(),
        max_concurrency: key.limits.max_concurrency,
        requests_per_minute: key.limits.requests_per_minute,
        daily_limit_usd: key.budget.daily_limit_usd.clone(),
        daily_used_usd: key.budget.daily_used_usd.clone(),
        daily_resets_at: key.budget.daily_resets_at,
        weekly_limit_usd: key.budget.weekly_limit_usd.clone(),
        weekly_used_usd: key.budget.weekly_used_usd.clone(),
        weekly_resets_at: key.budget.weekly_resets_at,
    }
}

/// The overview page: when it was taken, the range it covers, the session's
/// key, the summary, the trend, and today's health timeline `H`.
#[derive(Clone, Debug, PartialEq, Eq)]
pub struct OverviewView<H> {
    pub as_of: Timestamp,
    pub start_time: Timestamp,
    pub end_time: Timestamp,
    pub key: KeyView,
    pub summary: MetricsView,
    pub trend: Vec<TrendPointView>,
    pub health_timeline: H,
}

/// The overview of the session's key as shown at the instant `now`.
pub fn overview<H>(value: KeyUsageOverview<H>, now: Timestamp) -> (v: OverviewView<H>)
    ensures
        v.as_of == now,
        v.start_time == value.overview.range.start,
        v.end_time == value.overview.range.end,
        v.key == spec_key_view(value.key),
        shows_metrics(value.overview.requests, value.overview.attempts.costs@, value.overview.attempts.cost_coverage, v.summary),
        v.trend@.len() == value.trend@.len(),
        forall|i: int| 0 <= i < value.trend@.len() ==> shows_trend_point(value.trend@[i], #[trigger] v.trend@[i]),
        v.health_timeline == value.health_timeline,
{
    let mut trend: Vec<TrendPointView> = Vec::new();
    for i in 0..value.trend.len()
        invariant
            trend@.len() == i,
            forall|j: int| 0 <= j < i ==> shows_trend_point(value.trend@[j], #[trigger] trend@[j]),
    {
        trend.push(trend_point(&value.trend[i]));
    }
    let summary = metrics(&value.overview.requests, &value.overview.attempts.costs, &value.overview.attempts.cost_coverage);
    OverviewView {
        as_of: now,
        start_time: value.overview.range.start,
        end_time: value.overview.range.end,
        key: key_view(&value.key),
        summary,
        trend,
        health_timeline: value.health_timeline,
    }
}

/// The time to the first output of a request, never the scheduling detail.
#[derive(Clone, Copy, Debug, PartialEq, Eq, Structural)]
pub struct OutputTimingView {
    pub first_event_ms: Option<u64>,
    pub first_reasoning_ms: Option<u64>,
    pub first_text_ms: Option<u64>,
}

/// One request as a key holder sees it.
#[derive(Clone, Debug, PartialEq, Eq)]
pub struct RecordView {
    pub id: String,
    pub created_at: Timestamp,
    pub model: Option<String>,
    pub route: Option<String>,
    pub reasoning_effort: Option<String>,
    pub client_transport: Option<String>,
    pub upstream_transport: Option<String>,
    pub token_details: Option<TokenDetails>,
    pub billing: Option<BillingDetails>,
    pub latency_ms: Option<u64>,
    pub first_token_latency_ms: Option<u64>,
    pub latency_details: OutputTimingView,
    pub client_ip: Option<String>,
    pub user_agent: Option<String>,
    pub status: &'static str,
    pub status_code: Option<u16>,
}

/// A successful request as shown; no status code is made up for it.
pub open spec fn success_view(v: UsageListRecord) -> RecordView {
    RecordView {
        id: v.id,
        created_at: v.started_at,
        model: v.requested_model_id,
        route: Some(v.endpoint),
        reasoning_effort: v.reasoning_effort,
        client_transport: Some(v.client_transport),
        upstream_transport: v.upstream_transport,
        token_details: Some(v.tokens),
        billing: v.billing,
        latency_ms: v.latency_ms,
        first_token_latency_ms: v.first_token_ms,
        latency_details: OutputTimingView {
            first_event_ms: v.first_event_ms,
            first_reasoning_ms: v.first_reasoning_ms,
            first_text_ms: v.first_text_ms,
        },
        client_ip: v.client_ip,
        user_agent: v.user_agent,
        status: "success",
        status_code: None,
    }
}

/// A failed request as shown: no tokens, billing or output timing.
pub open spec fn error_view(v: OpsError) -> RecordView {
    RecordView {
        id: v.event_id,
        created_at: v.occurred_at,
        model: v.requested_model_id,
        route: v.endpoint,
        reasoning_effort: v.reasoning_effort,
        client_transport: v.client_transport,
        upstream_transport: v.upstream_transport,
        token_details: None,
        billing: None,
        latency_ms: v.latency_ms,
        first_token_latency_ms: None,
        latency_details: OutputTimingView { first_event_ms: None, first_reasoning_ms: None, first_text_ms: None },
        client_ip: v.client_ip,
        user_agent: v.user_agent,
        status: "error",
        status_code: v.client_status_code,
    }
}

/// A successful request as shown.
pub fn success_record(value: UsageListRecord) -> (r: RecordView)
    ensures
        r == success_view(value),
{
    RecordView {
        id: value.id,
        created_at: value.started_at,
        model: value.requested_model_id,
        route: Some(value.endpoint),
        reasoning_effort: value.reasoning_effort,
        client_transport: Some(value.client_transport),
        upstream_transport: value.upstream_transport,
        token_details: Some(value.tokens),
        billing: value.billing,
        latency_ms: value.latency_ms,
        first_token_latency_ms: value.first_token_ms,
        latency_details: OutputTimingView {
            first_event_ms: value.first_event_ms,
            first_reasoning_ms: value.first_reasoning_ms,
            first_text_ms: value.first_text_ms,
        },
        client_ip: value.client_ip,
        user_agent: value.user_agent,
        status: "success",
        status_code: None,
    }
}

/// A failed request as shown.
pub fn error_record(value: OpsError) -> (r: RecordView)
    ensures
        r == error_view(value),
{
    RecordView {
        id: value.event_id,
        created_at: value.occurred_at,
        model: value.requested_model_id,
        route: value.endpoint,
        reasoning_effort: value.reasoning_effort,
        client_transport: value.client_transport,
        upstream_transport: value.upstream_transport,
        token_details: None,
        billing: None,
        latency_ms: value.latency_ms,
        first_token_latency_ms: None,
        latency_details: OutputTimingView { first_event_ms: None, first_reasoning_ms: None, first_text_ms: None },
        client_ip: value.client_ip,
        user_agent: value.user_agent,
        status: "error",
        status_code: value.client_status_code,
    }
}

/// A page of items with its position in the whole list.
#[derive(Clone, Debug, PartialEq, Eq)]
pub struct PageData<T> {
    pub items: Vec<T>,
    pub current_page: u32,
    pub page_size: u16,
    pub total: u64,
}

/// A page of records as shown, keeping the page's position.
pub fn records(value: KeyUsageRecords) -> (r: PageData<RecordView>)
    ensures
        match value {
            KeyUsageRecords::Success(page) => {
                &&& r.items@ == page.items@.map_values(|v: UsageListRecord| success_view(v))
                &&& r.current_page == page.current_page
                &&& r.page_size == page.page_size
                &&& r.total == page.total
            },
            KeyUsageRecords::Error(page) => {
                &&& r.items@ == page.items@.map_values(|v: OpsError| error_view(v))
                &&& r.current_page == page.current_page
                &&& r.page_size == page.page_size
                &&& r.total == page.total
            },
        },
{
    match value {
        KeyUsageRecords::Success(page) => {
            let ghost all = page.items@;
            let mut items: Vec<RecordView> = Vec::new();
            for v in it: page.items.into_iter()
                invariant
                    it.seq() == all,
                    items@ == all.take(it.index() as int).map_values(|v: UsageListRecord| success_view(v)),
            {
                let ghost i = it.index() as int;
                items.push(success_record(v));
                assert(all.take(i + 1).map_values(|v: UsageListRecord| success_view(v)) =~= all.take(i).map_values(|v: UsageListRecord| success_view(v)).push(success_view(all[i])));
            }
            assert(all.take(all.len() as int) =~= all);
            PageData { items, current_page: page.current_page, page_size: page.page_size, total: page.total }
        },
        KeyUsageRecords::Error(page) => {
            let ghost all = page.items@;
            let mut items: Vec<RecordView> = Vec::new();
            for v in it: page.items.into_iter()
                invariant
                    it.seq() == all,
                    items@ == all.take(it.index() as int).map_values(|v: OpsError| error_view(v)),
            {
                let ghost i = it.index() as int;
                items.push(error_record(v));
                assert(all.take(i + 1).map_values(|v: OpsError| error_view(v)) =~= all.take(i).map_values(|v: OpsError| error_view(v)).push(error_view(all[i])));
            }
            assert(all.take(all.len() as int) =~= all);
            PageData { items, current_page: page.current_page, page_size: page.page_size, total: page.total }
        },
    }
}

/// Wire name of a scope state.
pub open spec fn scope_state_name(value: KeyUsageAccountScopeState) -> Seq<char> {
    match value {
        KeyUsageAccountScopeState::Unbound => "unbound"@,
        KeyUsageAccountScopeState::NoEnabledGroups => "no_enabled_groups"@,
        KeyUsageAccountScopeState::Available => "available"@,
    }
}

/// Wire name of a scope state.
pub fn scope_state(value: KeyUsageAccountScopeState) -> (s: &'static str)
    ensures
        s@ == scope_state_name(value),
{
    match value {
        KeyUsageAccountScopeState::Unbound => "unbound",
        KeyUsageAccountScopeState::NoEnabledGroups => "no_enabled_groups",
        KeyUsageAccountScopeState::Available => "available",
    }
}

/// Wire name of a quota availability.
pub open spec fn availability_name(value: KeyUsageQuotaAvailability) -> Seq<char> {
    match value {
        KeyUsageQuotaAvailability::Available => "available"@,
        KeyUsageQuotaAvailability::Unsupported => "unsupported"@,
        KeyUsageQuotaAvailability::Unobserved => "unobserved"@,
        KeyUsageQuotaAvailability::Unavailable => "unavailable"@,
    }
}

/// Wire name of a quota availability.
pub fn quota_availability(value: KeyUsageQuotaAvailability) -> (s: &'static str)
    ensures
        s@ == availability_name(value),
{
    match value {
        KeyUsageQuotaAvailability::Available => "available",
        KeyUsageQuotaAvailability::Unsupported => "unsupported",
        KeyUsageQuotaAvailability::Unobserved => "unobserved",
        KeyUsageQuotaAvailability::Unavailable => "unavailable",
    }
}

/// The label of the window an account's usage summary covers: the general
/// quota for an API-key account, else the weekly or monthly quota window the
/// summary follows, or both when the quota names none.
pub open spec fn spec_usage_label(value: KeyUsageAccountSnapshot) -> Seq<char> {
    if value.item.account.authentication_kind@ == api_key_kind() {
        "通用额度"@
    } else {
        match value.quota.value {
            Some(q) => match q.spec_usage_period() {
                Some(AccountUsagePeriod::Weekly) => "周额度窗口"@,
                Some(AccountUsagePeriod::Monthly) => "月额度窗口"@,
                None => "周月额度窗口"@,
            },
            None => "周月额度窗口"@,
        }
    }
}

/// The label of the window an account's usage summary covers.
pub fn usage_label(value: &KeyUsageAccountSnapshot) -> (s: &'static str)
    ensures
        s@ == spec_usage_label(*value),
{
    if crate::accounts::is_api_key(value.item.account.authentication_kind.as_str()) {
        return "通用额度";
    }
    let period = match &value.quota.value {
        Some(q) => q.usage_period(),
        None => None,
    };
    match period {
        Some(AccountUsagePeriod::Weekly) => "周额度窗口",
        Some(AccountUsagePeriod::Monthly) => "月额度窗口",
        None => "周月额度窗口",
    }
}

/// An identity reduced to its first character, for five characters or fewer,
/// or to its first two and last three, around `***`; nothing for empty text.
pub open spec fn masked(t: Seq<char>) -> Option<Seq<char>> {
    if t.len() == 0 {
        None
    } else if t.len() <= 5 {
        Some(seq![t[0]] + "***"@)
    } else {
        Some(t.take(2) + "***"@ + t.skip(t.len() - 3))
    }
}

/// A mask never shows more than five characters of an identity, and two
/// identities longer than five characters that share their first two and
/// last three characters are masked alike, whatever lies between.
pub proof fn lemma_mask_hides_middle(a: Seq<char>, b: Seq<char>)
    requires
        a.len() > 5,
        b.len() > 5,
        a.take(2) == b.take(2),
        a.skip(a.len() - 3) == b.skip(b.len() - 3),
    ensures
        masked(a) == masked(b),
        masked(a) matches Some(m) && m.len() == 8,
{
    reveal_strlit("***");
}

/// The masked form of an identity, after trimming its white space.
pub fn mask_identity(value: Option<&str>) -> (r: Option<String>)
    ensures
        match value {
            None => r is None,
            Some(v) => text_opt(r) == masked(trimmed(v@)),
        },
{
    let v = match value {
        Some(v) => v,
        None => return None,
    };
    let t = trim(v);
    let chars = chars_of(t.as_str());
    let n = chars.len();
    proof {
        reveal_strlit("***");
    }
    if n == 0 {
        return None;
    }
    if n <= 5 {
        let mut out = string_of_range(&chars, 0, 1);
        out.append("***");
        assert(chars@.subrange(0, 1) =~= seq![chars@[0]]);
        return Some(out);
    }
    let mut out = string_of_range(&chars, 0, 2);
    out.append("***");
    let tail = string_of_range(&chars, n - 3, n);
    out.append(tail.as_str());
    assert(chars@.subrange(0, 2) =~= chars@.take(2));
    assert(chars@.subrange(n - 3, n as int) =~= chars@.skip(n - 3));
    Some(out)
}

/// The identity of an account: its trimmed email when not empty, else its
/// trimmed name when not empty.
pub open spec fn spec_identity(email: Option<String>, name: Seq<char>) -> Option<Seq<char>> {
    let from_email = match email {
        Some(e) => if trimmed(e@).len() > 0 { Some(trimmed(e@)) } else { None },
        None => None,
    };
    match from_email {
        Some(i) => Some(i),
        None => if trimmed(name).len() > 0 { Some(trimmed(name)) } else { None },
    }
}

/// The identity of an account, unmasked.
pub fn account_identity(account: &Account) -> (r: Option<String>)
    ensures
        text_opt(r) == spec_identity(account.email, account.name@),
{
    match &account.email {
        Some(e) => {
            let t = trim(e.as_str());
            if !t.as_str().is_empty() {
                return Some(t);
            }
        },
        None => {},
    }
    let t = trim(account.name.as_str());
    if !t.as_str().is_empty() {
        Some(t)
    } else {
        None
    }
}

/// What a key holder may do with an account.
#[derive(Clone, Copy, Debug, PartialEq, Eq, Structural)]
pub struct AccountCapabilitiesView {
    pub full_identity: bool,
    pub personal_info: bool,
    pub reset_credits: bool,
    pub refresh_quota: bool,
    pub quota_forecast: bool,
}

/// Nothing without an explicit grant; with one, the full identity, personal
/// information and credit resets of OpenAI OAuth accounts, and quota refresh
/// and forecast of every account but API-key ones.
pub open spec fn spec_capabilities(authorized: bool, provider_kind: Seq<char>, authentication_kind: Seq<char>) -> AccountCapabilitiesView {
    let openai_oauth = provider_kind == "openai"@ && authentication_kind == "oauth"@;
    AccountCapabilitiesView {
        full_identity: authorized,
        personal_info: authorized && openai_oauth,
        reset_credits: authorized && openai_oauth,
        refresh_quota: authorized && authentication_kind != api_key_kind(),
        quota_forecast: authorized && authentication_kind != api_key_kind(),
    }
}

/// Without an explicit grant on an account, a key holder may do nothing with it.
pub proof fn lemma_capabilities_need_grant(provider_kind: Seq<char>, authentication_kind: Seq<char>)
    ensures
        spec_capabilities(false, provider_kind, authentication_kind) == (AccountCapabilitiesView {
            full_identity: false,
            personal_info: false,
            reset_credits: false,
            refresh_quota: false,
            quota_forecast: false,
        }),
{
}

/// What a key holder may do with an account.
pub fn capabilities(authorized: bool, provider_kind: &str, authentication_kind: &str) -> (c: AccountCapabilitiesView)
    ensures
        c == spec_capabilities(authorized, provider_kind@, authentication_kind@),
{
    let openai_oauth = same_text(provider_kind, "openai") && same_text(authentication_kind, "oauth");
    let api_key = crate::accounts::is_api_key(authentication_kind);
    AccountCapabilitiesView {
        full_identity: authorized,
        personal_info: authorized && openai_oauth,
        reset_credits: authorized && openai_oauth,
        refresh_quota: authorized && !api_key,
        quota_forecast: authorized && !api_key,
    }
}

/// The fields of an account that do not depend on its quota or usage.
#[derive(Clone, Debug, PartialEq, Eq)]
pub struct AccountSummaryView {
    pub id: String,
    pub identity: Option<String>,
    pub name: Option<String>,
    pub email: Option<String>,
    pub capabilities: AccountCapabilitiesView,
    pub provider: String,
    pub authentication_kind: String,
    pub plan_type: Option<String>,
    pub plan_type_display: String,
    pub status: String,
}

/// Label of a plan whose display name is not known.
pub open spec fn unknown_plan_label() -> Seq<char> {
    "未知套餐"@
}

/// `v` shows the account of `value`: with an explicit grant, its identity,
/// name and email; without one, only the masked identity.
pub open spec fn shows_account_summary(value: KeyUsageAccountSnapshot, v: AccountSummaryView) -> bool {
    &&& v.id == value.item.account.id
    &&& value.authorized ==> text_opt(v.identity) == spec_identity(value.item.account.email, value.item.account.name@)
    &&& !value.authorized ==> text_opt(v.identity) == (match spec_identity(value.item.account.email, value.item.account.name@) {
        Some(i) => masked(trimmed(i)),
        None => None,
    })
    &&& v.name == (if value.authorized { Some(value.item.account.name) } else { None })
    &&& v.email == (if value.authorized { value.item.account.email } else { None })
    &&& v.capabilities == spec_capabilities(value.authorized, value.item.account.provider_kind@, value.item.account.authentication_kind@)
    &&& v.provider == value.item.account.provider_kind
    &&& v.authentication_kind == value.item.account.authentication_kind
    &&& v.plan_type == value.item.account.plan_type
    &&& v.plan_type_display@ == (match value.plan_type_display {
        Some(d) => d@,
        None => unknown_plan_label(),
    })
    &&& v.status == value.item.status
}

/// An account as listed: with an explicit grant, its identity, name and
/// email; without one, only the masked identity.
pub fn account_summary(value: &KeyUsageAccountSnapshot) -> (v: AccountSummaryView)
    ensures
        shows_account_summary(*value, v),
{
    let account = &value.item.account;
    let identity = account_identity(account);
    let shown = if value.authorized {
        identity
    } else {
        match &identity {
            Some(i) => mask_identity(Some(i.as_str())),
            None => None,
        }
    };
    let plan_type_display = match &value.plan_type_display {
        Some(d) => d.clone(),
        None => {
            proof {
                reveal_strlit("未知套餐");
            }
            String::from_str("未知套餐")
        },
    };
    AccountSummaryView {
        id: account.id.clone(),
        identity: shown,
        name: if value.authorized { Some(account.name.clone()) } else { None },
        email: if value.authorized { crate::accounts::copy_text(&account.email) } else { None },
        capabilities: capabilities(value.authorized, account.provider_kind.as_str(), account.authentication_kind.as_str()),
        provider: account.provider_kind.clone(),
        authentication_kind: account.authentication_kind.clone(),
        plan_type: crate::accounts::copy_text(&account.plan_type),
        plan_type_display,
        status: value.item.status.clone(),
    }
}

/// The most recently used model and when, as the usage summary shows it.
#[derive(Clone, Debug, PartialEq, Eq)]
pub struct AccountRecentModelView {
    pub model: String,
    pub last_used_at: Timestamp,
}

/// Position of the model used last; among several used at that instant, the
/// last of them.
pub open spec fn is_latest(models: Seq<AccountModelUsage>, k: int) -> bool {
    &&& 0 <= k < models.len()
    &&& forall|j: int| 0 <= j < models.len() ==> not_later(#[trigger] models[j].last_used_at, models[k].last_used_at)
    &&& forall|j: int| k < j < models.len() ==> !not_later(models[k].last_used_at, #[trigger] models[j].last_used_at)
}

/// `r` names the model used last, and when; none when no model was used.
pub open spec fn shows_recent_model(models: Seq<AccountModelUsage>, r: Option<AccountRecentModelView>) -> bool {
    &&& models.len() == 0 <==> r is None
    &&& r matches Some(v) ==> exists|k: int| is_latest(models, k) && #[trigger] models[k].model == v.model && models[k].last_used_at == v.last_used_at
}

/// The model used last (`max_by_key` on the last use: the last one among ties).
pub fn recent_model(models: &Vec<AccountModelUsage>) -> (r: Option<AccountRecentModelView>)
    ensures
        shows_recent_model(models@, r),
{
    if models.len() == 0 {
        return None;
    }
    let mut best: usize = 0;
    let mut i: usize = 1;
    while i < models.len()
        invariant
            1 <= i <= models.len(),
            best < i,
            forall|j: int| 0 <= j < i ==> not_later(#[trigger] models@[j].last_used_at, models@[best as int].last_used_at),
            forall|j: int| best < j < i ==> !not_later(models@[best as int].last_used_at, #[trigger] models@[j].last_used_at),
        decreases models.len() - i,
    {
        let a = models[best].last_used_at;
        let b = models[i].last_used_at;
        if !b.is_before(&a) {
            best = i;
        }
        i = i + 1;
    }
    let m = &models[best];
    assert(is_latest(models@, best as int));
    Some(AccountRecentModelView { model: m.model.clone(), last_used_at: m.last_used_at })
}

/// The count shown for tokens: the formatter's text for a count, a dash for none.
pub fn display_tokens<F: Fn(u64) -> String>(value: Option<u64>, compact: F) -> (s: String)
    requires
        forall|v: u64| compact.requires((v,)),
    ensures
        value is None ==> s@ == "—"@,
        value matches Some(v) ==> compact.ensures((v,), s),
{
    match value {
        Some(v) => compact(v),
        None => String::from_str("—"),
    }
}

/// The label of a quota window: `"{limit name} · {label}"` when the limit
/// has a name, else the label alone.
pub open spec fn window_label(limit_name: Option<String>, label: String) -> Seq<char> {
    match limit_name {
        Some(n) => n@ + " · "@ + label@,
        None => label@,
    }
}

/// The label of a quota window: `"{limit name} · {label}"` when the limit
/// has a name, else the label alone.
pub fn window_label_display(limit_name: &Option<String>, label: &String) -> (s: String)
    ensures
        s@ == window_label(*limit_name, *label),
{
    match limit_name {
        Some(n) => {
            let mut s = n.clone();
            s.append(" · ");
            s.append(label.as_str());
            s
        },
        None => label.clone(),
    }
}

/// Local usage of a quota window as shown: counts, their display texts and
/// the request count per bucket, and nothing else of the usage.
#[derive(Clone, Debug, PartialEq, Eq)]
pub struct AccountLocalUsageView {
    pub request_count: u64,
    pub request_count_display: String,
    pub input_tokens: Option<u64>,
    pub input_tokens_display: String,
    pub output_tokens: Option<u64>,
    pub output_tokens_display: String,
    pub cached_tokens: Option<u64>,
    pub cached_tokens_display: String,
    pub total_tokens: Option<u64>,
    pub total_tokens_display: String,
    pub request_buckets: Vec<AccountRequestBucket>,
}

/// The display text of an optional token count, as `display_tokens` gives it.
pub open spec fn shows_tokens<G: Fn(u64) -> String>(value: Option<u64>, compact: G, s: String) -> bool {
    &&& value is None ==> s@ == "—"@
    &&& value matches Some(v) ==> compact.ensures((v,), s)
}

/// `v` shows the local usage `u` of a quota window: its counts, with `count`
/// writing the request count and `compact` the token counts, and the request
/// count per bucket.
pub open spec fn shows_local_usage<F: Fn(u64) -> String, G: Fn(u64) -> String>(u: AccountUsage, count: F, compact: G, v: AccountLocalUsageView) -> bool {
    &&& v.request_count == u.request_count
    &&& count.ensures((u.request_count,), v.request_count_display)
    &&& v.input_tokens == u.input_tokens
    &&& shows_tokens(u.input_tokens, compact, v.input_tokens_display)
    &&& v.output_tokens == u.output_tokens
    &&& shows_tokens(u.output_tokens, compact, v.output_tokens_display)
    &&& v.cached_tokens == u.cached_tokens
    &&& shows_tokens(u.cached_tokens, compact, v.cached_tokens_display)
    &&& v.total_tokens == u.total_tokens
    &&& shows_tokens(u.total_tokens, compact, v.total_tokens_display)
    &&& v.request_buckets@ == u.request_buckets@
}

/// The local usage of a quota window as shown, with `count` formatting the
/// request count and `compact` the token counts.
pub fn local_usage_view<F: Fn(u64) -> String, G: Fn(u64) -> String>(usage: &AccountUsage, count: &F, compact: &G) -> (v: AccountLocalUsageView)
    requires
        forall|n: u64| count.requires((n,)),
        forall|n: u64| compact.requires((n,)),
    ensures
        shows_local_usage(*usage, *count, *compact, v),
{
    let mut request_buckets: Vec<AccountRequestBucket> = Vec::new();
    for i in 0..usage.request_buckets.len()
        invariant
            request_buckets@ == usage.request_buckets@.take(i as int),
    {
        request_buckets.push(usage.request_buckets[i]);
        assert(usage.request_buckets@.take(i + 1) =~= usage.request_buckets@.take(i as int).push(usage.request_buckets@[i as int]));
    }
    assert(usage.request_buckets@.take(usage.request_buckets.len() as int) =~= usage.request_buckets@);
    AccountLocalUsageView {
        request_count: usage.request_count,
        request_count_display: count(usage.request_count),
        input_tokens: usage.input_tokens,
        input_tokens_display: display_tokens(usage.input_tokens, compact),
        output_tokens: usage.output_tokens,
        output_tokens_display: display_tokens(usage.output_tokens, compact),
        cached_tokens: usage.cached_tokens,
        cached_tokens_display: display_tokens(usage.cached_tokens, compact),
        total_tokens: usage.total_tokens,
        total_tokens_display: display_tokens(usage.total_tokens, compact),
        request_buckets,
    }
}

} // verus!
