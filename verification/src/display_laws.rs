//! What each page shows, stated field by field in terms of the stored
//! values: every count, time and text that a view carries is the one of the
//! same meaning in what it is built from, and nothing is swapped.

use vstd::prelude::*;
use crate::text::{eq_ignoring_ascii_case, trimmed};
use crate::time::{Timestamp, not_later};
use crate::keys::ClientKeyRecord;
use crate::observability::{RequestMetrics, CurrencyCost, CostCoverage, Granularity, RequestMetricPoint, UsageListRecord, OpsError};
use crate::model::{KeyUsageAccountScopeState, KeyUsageQuotaAvailability, KeyUsageAccountSnapshot, KeyUsageAccountQuota};
use crate::accounts::{AccountModelUsage, AccountUsage, AccountUsagePeriod, ProviderQuotaWindow};
use crate::account_pages::{
    DisplayFormats, AccountQuotaWindowView, AccountQuotaView, AccountUsageSummaryView, AccountModelUsageView,
    AccountUsageView, AccountListItemView, shows_window, shows_quota, shows_summary, shows_model, shows_usage,
    shows_list_item,
};
use crate::presenter::{
    MetricsView, TrendPointView, AccountSummaryView, AccountRecentModelView, shows_metrics, shown_cost,
    text_opt, shows_trend_point, spec_key_view, success_view, error_view, scope_state_name,
    availability_name, spec_capabilities, spec_identity, masked, shows_account_summary, is_latest,
    shows_recent_model, spec_usage_label, window_label, AccountLocalUsageView, shows_local_usage,
};

verus! {

/// The cost of a span, stated over the currencies billed: the amount of the
/// first cost in US dollars (currency compared ignoring ASCII case); with
/// none, "0" when nothing was requested and unknown otherwise.
pub open spec fn dollar_cost(costs: Seq<CurrencyCost>, request_count: u64, shown: Option<Seq<char>>) -> bool {
    ||| exists|k: int| 0 <= k < costs.len() && eq_ignoring_ascii_case(#[trigger] costs[k].currency@, "USD"@)
            && (forall|j: int| 0 <= j < k ==> !eq_ignoring_ascii_case(#[trigger] costs[j].currency@, "USD"@))
            && shown == Some(costs[k].amount@)
    ||| (forall|j: int| 0 <= j < costs.len() ==> !eq_ignoring_ascii_case(#[trigger] costs[j].currency@, "USD"@))
            && shown == (if request_count == 0 { Some("0"@) } else { None::<Seq<char>> })
}

proof fn lemma_usd_amount_is_first_dollar_cost(costs: Seq<CurrencyCost>, request_count: u64)
    ensures
        dollar_cost(costs, request_count, shown_cost(costs, request_count)),
    decreases costs.len(),
{
    if costs.len() > 0 {
        let rest = costs.drop_first();
        lemma_usd_amount_is_first_dollar_cost(rest, request_count);
        if !eq_ignoring_ascii_case(costs[0].currency@, "USD"@) {
            if exists|k: int| 0 <= k < rest.len() && eq_ignoring_ascii_case(#[trigger] rest[k].currency@, "USD"@)
                && (forall|j: int| 0 <= j < k ==> !eq_ignoring_ascii_case(#[trigger] rest[j].currency@, "USD"@))
                && shown_cost(rest, request_count) == Some(rest[k].amount@) {
                let k = choose|k: int| 0 <= k < rest.len() && eq_ignoring_ascii_case(#[trigger] rest[k].currency@, "USD"@)
                    && (forall|j: int| 0 <= j < k ==> !eq_ignoring_ascii_case(#[trigger] rest[j].currency@, "USD"@))
                    && shown_cost(rest, request_count) == Some(rest[k].amount@);
                assert(costs[k + 1] == rest[k]);
                assert forall|j: int| 0 <= j < k + 1 implies !eq_ignoring_ascii_case(#[trigger] costs[j].currency@, "USD"@) by {
                    if j > 0 {
                        assert(costs[j] == rest[j - 1]);
                    }
                }
            } else {
                assert forall|j: int| 0 <= j < costs.len() implies !eq_ignoring_ascii_case(#[trigger] costs[j].currency@, "USD"@) by {
                    if j > 0 {
                        assert(costs[j] == rest[j - 1]);
                    }
                }
            }
        }
    }
}

/// A span's metrics show its own counts, each under its own name, the cost
/// in US dollars, and an incomplete cost exactly when some attempt could be
/// priced only in part or not at all.
pub proof fn lemma_metrics_show_each_count(value: RequestMetrics, costs: Seq<CurrencyCost>, coverage: CostCoverage, m: MetricsView)
    requires
        shows_metrics(value, costs, coverage, m),
    ensures
        m.requests == value.request_count,
        m.input_tokens == value.input_tokens,
        m.output_tokens == value.output_tokens,
        m.cached_tokens == value.cached_tokens,
        m.cache_write_tokens == value.cache_write_tokens,
        m.reasoning_tokens == value.reasoning_tokens,
        m.total_tokens == value.total_tokens,
        dollar_cost(costs, value.request_count, text_opt(m.cost_usd)),
        m.cost_incomplete <==> (coverage.partial_count > 0 || coverage.unavailable_count > 0),
{
    lemma_usd_amount_is_first_dollar_cost(costs, value.request_count);
}

/// A trend bucket shows its start, its width in seconds (15 minutes, an hour
/// or a day) and its own metrics.
pub proof fn lemma_trend_point_shows_its_bucket(point: RequestMetricPoint, v: TrendPointView)
    requires
        shows_trend_point(point, v),
    ensures
        v.time == point.bucket_start,
        point.granularity == Granularity::FifteenMinutes ==> v.bucket_seconds == 15 * 60,
        point.granularity == Granularity::Hour ==> v.bucket_seconds == 60 * 60,
        point.granularity == Granularity::Day ==> v.bucket_seconds == 24 * 60 * 60,
        v.metrics.requests == point.metrics.request_count,
        v.metrics.input_tokens == point.metrics.input_tokens,
        v.metrics.output_tokens == point.metrics.output_tokens,
        v.metrics.cached_tokens == point.metrics.cached_tokens,
        v.metrics.cache_write_tokens == point.metrics.cache_write_tokens,
        v.metrics.reasoning_tokens == point.metrics.reasoning_tokens,
        v.metrics.total_tokens == point.metrics.total_tokens,
        dollar_cost(point.costs@, point.metrics.request_count, text_opt(v.metrics.cost_usd)),
        v.metrics.cost_incomplete <==> (point.cost_coverage.partial_count > 0 || point.cost_coverage.unavailable_count > 0),
{
    lemma_metrics_show_each_count(point.metrics, point.costs@, point.cost_coverage, v.metrics);
}

/// The key view shows each stored limit and budget field under its own name.
pub proof fn lemma_key_view_shows_stored_fields(key: ClientKeyRecord)
    ensures
        spec_key_view(key).name == key.name,
        spec_key_view(key).prefix == key.prefix,
        spec_key_view(key).max_concurrency == key.limits.max_concurrency,
        spec_key_view(key).requests_per_minute == key.limits.requests_per_minute,
        spec_key_view(key).daily_limit_usd == key.budget.daily_limit_usd,
        spec_key_view(key).daily_used_usd == key.budget.daily_used_usd,
        spec_key_view(key).daily_resets_at == key.budget.daily_resets_at,
        spec_key_view(key).weekly_limit_usd == key.budget.weekly_limit_usd,
        spec_key_view(key).weekly_used_usd == key.budget.weekly_used_usd,
        spec_key_view(key).weekly_resets_at == key.budget.weekly_resets_at,
{
}

/// A successful request is shown with its own identity, time, model, route,
/// transports, tokens, billing and timings, each under its own name, marked
/// a success and with no status code.
pub proof fn lemma_success_record_shows_own_fields(v: UsageListRecord)
    ensures
        success_view(v).id == v.id,
        success_view(v).created_at == v.started_at,
        success_view(v).model == v.requested_model_id,
        success_view(v).route == Some(v.endpoint),
        success_view(v).reasoning_effort == v.reasoning_effort,
        success_view(v).client_transport == Some(v.client_transport),
        success_view(v).upstream_transport == v.upstream_transport,
        success_view(v).token_details == Some(v.tokens),
        success_view(v).billing == v.billing,
        success_view(v).latency_ms == v.latency_ms,
        success_view(v).first_token_latency_ms == v.first_token_ms,
        success_view(v).latency_details.first_event_ms == v.first_event_ms,
        success_view(v).latency_details.first_reasoning_ms == v.first_reasoning_ms,
        success_view(v).latency_details.first_text_ms == v.first_text_ms,
        success_view(v).client_ip == v.client_ip,
        success_view(v).user_agent == v.user_agent,
        success_view(v).status@ == "success"@,
        success_view(v).status_code is None,
{
}

/// A failed request is shown with its own identity, time, model, route,
/// transports, latency, client and client status code, marked an error, and
/// with no tokens, billing or output timings.
pub proof fn lemma_error_record_shows_own_fields(v: OpsError)
    ensures
        error_view(v).id == v.event_id,
        error_view(v).created_at == v.occurred_at,
        error_view(v).model == v.requested_model_id,
        error_view(v).route == v.endpoint,
        error_view(v).reasoning_effort == v.reasoning_effort,
        error_view(v).client_transport == v.client_transport,
        error_view(v).upstream_transport == v.upstream_transport,
        error_view(v).token_details is None,
        error_view(v).billing is None,
        error_view(v).latency_ms == v.latency_ms,
        error_view(v).first_token_latency_ms is None,
        error_view(v).latency_details.first_event_ms is None,
        error_view(v).latency_details.first_reasoning_ms is None,
        error_view(v).latency_details.first_text_ms is None,
        error_view(v).client_ip == v.client_ip,
        error_view(v).user_agent == v.user_agent,
        error_view(v).status@ == "error"@,
        error_view(v).status_code == v.client_status_code,
{
}

/// Wire names tell states apart: each scope state and each quota
/// availability has its own name.
pub proof fn lemma_wire_names_are_distinct(a: KeyUsageAccountScopeState, b: KeyUsageAccountScopeState, x: KeyUsageQuotaAvailability, y: KeyUsageQuotaAvailability)
    ensures
        a != b ==> scope_state_name(a) != scope_state_name(b),
        x != y ==> availability_name(x) != availability_name(y),
        scope_state_name(KeyUsageAccountScopeState::Unbound) == "unbound"@,
        scope_state_name(KeyUsageAccountScopeState::NoEnabledGroups) == "no_enabled_groups"@,
        scope_state_name(KeyUsageAccountScopeState::Available) == "available"@,
        availability_name(KeyUsageQuotaAvailability::Available) == "available"@,
        availability_name(KeyUsageQuotaAvailability::Unsupported) == "unsupported"@,
        availability_name(KeyUsageQuotaAvailability::Unobserved) == "unobserved"@,
        availability_name(KeyUsageQuotaAvailability::Unavailable) == "unavailable"@,
{
    reveal_strlit("unbound");
    reveal_strlit("no_enabled_groups");
    reveal_strlit("available");
    reveal_strlit("unsupported");
    reveal_strlit("unobserved");
    reveal_strlit("unavailable");
    assert("unbound"@.len() == 7 && "available"@.len() == 9 && "no_enabled_groups"@.len() == 17);
    assert("unsupported"@.len() == 11 && "unobserved"@.len() == 10 && "unavailable"@.len() == 11);
    assert("unsupported"@[2] != "unavailable"@[2]);
}

/// With a grant, an account may show its full identity; personal information
/// and credit resets belong to OpenAI OAuth accounts alone; quota refresh and
/// forecast belong to every account but an API-key one, whatever its
/// provider. Without a grant, nothing is allowed.
pub proof fn lemma_capabilities_by_grant_and_kind(authorized: bool, provider_kind: Seq<char>, authentication_kind: Seq<char>)
    ensures
        spec_capabilities(authorized, provider_kind, authentication_kind).full_identity == authorized,
        spec_capabilities(authorized, provider_kind, authentication_kind).personal_info
            == (authorized && provider_kind == "openai"@ && authentication_kind == "oauth"@),
        spec_capabilities(authorized, provider_kind, authentication_kind).reset_credits
            == spec_capabilities(authorized, provider_kind, authentication_kind).personal_info,
        spec_capabilities(authorized, provider_kind, authentication_kind).refresh_quota
            == (authorized && authentication_kind != "api_key"@),
        spec_capabilities(authorized, provider_kind, authentication_kind).quota_forecast
            == spec_capabilities(authorized, provider_kind, authentication_kind).refresh_quota,
{
}

/// An account's identity is its trimmed email where that is not empty, else
/// its trimmed name where that is not empty, else none.
pub proof fn lemma_identity_prefers_email(email: Option<String>, name: Seq<char>)
    ensures
        email is Some && trimmed(email->0@).len() > 0 ==> spec_identity(email, name) == Some(trimmed(email->0@)),
        !(email is Some && trimmed(email->0@).len() > 0) && trimmed(name).len() > 0 ==> spec_identity(email, name) == Some(trimmed(name)),
        !(email is Some && trimmed(email->0@).len() > 0) && trimmed(name).len() == 0 ==> spec_identity(email, name) is None,
{
}

/// A mask is never empty text: it keeps the first character of a short
/// identity, or the first two and last three of a longer one, around `***`.
pub proof fn lemma_mask_shape(t: Seq<char>)
    ensures
        t.len() == 0 ==> masked(t) is None,
        0 < t.len() <= 5 ==> (masked(t) matches Some(m) && m.len() == 4 && m[0] == t[0] && m.skip(1) == "***"@),
        t.len() > 5 ==> (masked(t) matches Some(m) && m.len() == 8 && m.take(2) == t.take(2)
            && m.subrange(2, 5) == "***"@ && m.skip(5) == t.skip(t.len() - 3)),
{
    reveal_strlit("***");
    if 0 < t.len() <= 5 {
        let m = masked(t)->0;
        assert(m.skip(1) =~= "***"@);
    } else if t.len() > 5 {
        let m = masked(t)->0;
        assert(m.take(2) =~= t.take(2));
        assert(m.subrange(2, 5) =~= "***"@);
        assert(m.skip(5) =~= t.skip(t.len() - 3));
    }
}

/// A listed account shows its own id, provider, kind, plan and status; with a
/// grant its identity, name and email; without one only its masked identity
/// and no name or email; and a plan label that falls back to "未知套餐".
pub proof fn lemma_account_summary_shows_own_account(value: KeyUsageAccountSnapshot, v: AccountSummaryView)
    requires
        shows_account_summary(value, v),
    ensures
        v.id == value.item.account.id,
        v.provider == value.item.account.provider_kind,
        v.authentication_kind == value.item.account.authentication_kind,
        v.plan_type == value.item.account.plan_type,
        v.status == value.item.status,
        value.authorized ==> v.name == Some(value.item.account.name) && v.email == value.item.account.email,
        !value.authorized ==> v.name is None && v.email is None,
        value.authorized ==> text_opt(v.identity) == spec_identity(value.item.account.email, value.item.account.name@),
        !value.authorized ==> (spec_identity(value.item.account.email, value.item.account.name@) is None ==> v.identity is None),
        !value.authorized && spec_identity(value.item.account.email, value.item.account.name@) is Some
            ==> text_opt(v.identity) == masked(trimmed(spec_identity(value.item.account.email, value.item.account.name@)->0)),
        v.capabilities.full_identity == value.authorized,
        v.capabilities.quota_forecast == (value.authorized && value.item.account.authentication_kind@ != "api_key"@),
        v.capabilities.refresh_quota == v.capabilities.quota_forecast,
        value.plan_type_display matches Some(d) ==> v.plan_type_display@ == d@,
        value.plan_type_display is None ==> v.plan_type_display@ == "未知套餐"@,
{
}

/// The recent model is one of the account's models, used no earlier than any
/// other; there is one exactly when some model was used.
pub proof fn lemma_recent_model_is_latest(models: Seq<AccountModelUsage>, r: Option<AccountRecentModelView>)
    requires
        shows_recent_model(models, r),
    ensures
        models.len() == 0 <==> r is None,
        r matches Some(v) ==> exists|k: int| 0 <= k < models.len() && #[trigger] models[k].model == v.model && models[k].last_used_at == v.last_used_at,
        r matches Some(v) ==> forall|j: int| 0 <= j < models.len() ==> not_later(#[trigger] models[j].last_used_at, v.last_used_at),
{
    if let Some(v) = r {
        let k = choose|k: int| is_latest(models, k) && #[trigger] models[k].model == v.model && models[k].last_used_at == v.last_used_at;
        assert(0 <= k < models.len() && models[k].model == v.model);
    }
}

/// The usage label names the window the summary covers: the general quota of
/// an API-key account, else the weekly or monthly window the quota follows,
/// or both when it follows none.
pub proof fn lemma_usage_label_names_the_window(value: KeyUsageAccountSnapshot)
    ensures
        value.item.account.authentication_kind@ == "api_key"@ ==> spec_usage_label(value) == "通用额度"@,
        value.item.account.authentication_kind@ != "api_key"@ && value.quota.value is Some
            && value.quota.value->0.spec_usage_period() == Some(AccountUsagePeriod::Weekly) ==> spec_usage_label(value) == "周额度窗口"@,
        value.item.account.authentication_kind@ != "api_key"@ && value.quota.value is Some
            && value.quota.value->0.spec_usage_period() == Some(AccountUsagePeriod::Monthly) ==> spec_usage_label(value) == "月额度窗口"@,
        value.item.account.authentication_kind@ != "api_key"@ && (value.quota.value is None || value.quota.value->0.spec_usage_period() is None)
            ==> spec_usage_label(value) == "周月额度窗口"@,
{
}

/// A quota window's label is the limit's name, " · " and the window label, or
/// the window label alone when the limit has no name.
pub proof fn lemma_window_label_joins_limit_name(limit_name: Option<String>, label: String)
    ensures
        limit_name matches Some(n) ==> window_label(limit_name, label) == n@ + " · "@ + label@,
        limit_name is None ==> window_label(limit_name, label) == label@,
{
}

/// `s` is the display of an optional token count: a dash for none, else what
/// `compact` writes for the count.
pub open spec fn token_text<C: Fn(u64) -> String>(value: Option<u64>, compact: C, s: String) -> bool {
    match value {
        None => s@ == "—"@,
        Some(n) => compact.ensures((n,), s),
    }
}

/// A window's local usage shows its own counts, each under its own name and
/// with its own display, and the request count of each bucket.
pub proof fn lemma_local_usage_shows_own_counts<F: Fn(u64) -> String, G: Fn(u64) -> String>(u: AccountUsage, count: F, compact: G, v: AccountLocalUsageView)
    requires
        shows_local_usage(u, count, compact, v),
    ensures
        v.request_count == u.request_count,
        count.ensures((u.request_count,), v.request_count_display),
        v.input_tokens == u.input_tokens && token_text(u.input_tokens, compact, v.input_tokens_display),
        v.output_tokens == u.output_tokens && token_text(u.output_tokens, compact, v.output_tokens_display),
        v.cached_tokens == u.cached_tokens && token_text(u.cached_tokens, compact, v.cached_tokens_display),
        v.total_tokens == u.total_tokens && token_text(u.total_tokens, compact, v.total_tokens_display),
        v.request_buckets@ == u.request_buckets@,
{
}

/// A quota window shows its own key, group, limit, role, length, percentage
/// bits and limit flag; its label joined to the limit's name; its reset time
/// in China time or a dash; and its own local usage.
pub proof fn lemma_window_shows_own_fields<N: Fn(u64) -> String, C: Fn(u64) -> String, R: Fn(Option<Timestamp>) -> String, D: Fn(Timestamp) -> String>(w: ProviderQuotaWindow, f: DisplayFormats<N, C, R, D>, v: AccountQuotaWindowView)
    requires
        shows_window(w, f, v),
    ensures
        v.key == w.key,
        v.group == w.group,
        v.limit_id == w.limit_id,
        v.limit_name == w.limit_name,
        v.role == w.role,
        v.window_seconds == w.window_seconds,
        w.limit_name is Some ==> v.label_display@ == w.limit_name->0@ + " · "@ + w.label@,
        w.limit_name is None ==> v.label_display@ == w.label@,
        v.window_label_display == w.label,
        v.used_percent_bits == w.used_percent_bits,
        v.limit_reached == w.limit_reached,
        w.local_usage is None <==> v.local_usage is None,
        w.local_usage is Some ==> v.local_usage->0.request_count == w.local_usage->0.request_count
            && v.local_usage->0.input_tokens == w.local_usage->0.input_tokens
            && v.local_usage->0.output_tokens == w.local_usage->0.output_tokens
            && v.local_usage->0.cached_tokens == w.local_usage->0.cached_tokens
            && v.local_usage->0.total_tokens == w.local_usage->0.total_tokens
            && v.local_usage->0.request_buckets@ == w.local_usage->0.request_buckets@,
        w.reset_at is Some ==> f.datetime.ensures((w.reset_at->0,), v.reset_at_display),
        w.reset_at is None ==> v.reset_at_display@ == "—"@,
{
}

/// A quota shows how it could be read; with a snapshot, when it was observed,
/// its limit flag and each of its windows in order; without one, a dash, no
/// limit reached and no windows.
pub proof fn lemma_quota_shows_own_snapshot<N: Fn(u64) -> String, C: Fn(u64) -> String, R: Fn(Option<Timestamp>) -> String, D: Fn(Timestamp) -> String>(q: KeyUsageAccountQuota, f: DisplayFormats<N, C, R, D>, v: AccountQuotaView)
    requires
        shows_quota(q, f, v),
    ensures
        q.availability == KeyUsageQuotaAvailability::Available ==> v.availability@ == "available"@,
        q.availability == KeyUsageQuotaAvailability::Unsupported ==> v.availability@ == "unsupported"@,
        q.availability == KeyUsageQuotaAvailability::Unobserved ==> v.availability@ == "unobserved"@,
        q.availability == KeyUsageQuotaAvailability::Unavailable ==> v.availability@ == "unavailable"@,
        q.value is None ==> v.refreshed_at_display@ == "—"@ && !v.limit_reached && v.windows@.len() == 0,
        q.value is Some ==> f.relative.ensures((q.value->0.observed_at,), v.refreshed_at_display)
            && v.limit_reached == q.value->0.limit_reached
            && v.windows@.len() == q.value->0.windows@.len(),
        q.value is Some ==> forall|i: int| 0 <= i < v.windows@.len() ==> (#[trigger] v.windows@[i]).key == q.value->0.windows@[i].key
            && v.windows@[i].limit_reached == q.value->0.windows@[i].limit_reached
            && v.windows@[i].used_percent_bits == q.value->0.windows@[i].used_percent_bits,
{
}

/// A usage summary shows the label it is given; with usage, its own request,
/// success and total counts, the last use, and the latest model; without
/// usage, dashes and no values.
pub proof fn lemma_summary_shows_own_usage<N: Fn(u64) -> String, C: Fn(u64) -> String, R: Fn(Option<Timestamp>) -> String, D: Fn(Timestamp) -> String>(usage: Option<AccountUsage>, label: Seq<char>, f: DisplayFormats<N, C, R, D>, v: AccountUsageSummaryView)
    requires
        shows_summary(usage, label, f, v),
    ensures
        v.window_label_display@ == label,
        usage is None ==> v.recent_model is None && v.request_count is None && v.request_count_display@ == "—"@
            && v.success_count is None && v.total_tokens is None && v.total_tokens_display@ == "—"@
            && v.last_used_at is None && v.last_used_at_display@ == "—"@,
        usage is Some ==> v.request_count == Some(usage->0.request_count)
            && f.number.ensures((usage->0.request_count,), v.request_count_display)
            && v.success_count == Some(usage->0.success_count)
            && v.total_tokens == usage->0.total_tokens
            && token_text(usage->0.total_tokens, f.compact, v.total_tokens_display)
            && v.last_used_at == usage->0.last_used_at
            && f.relative.ensures((usage->0.last_used_at,), v.last_used_at_display),
        usage is Some ==> (usage->0.models@.len() == 0 <==> v.recent_model is None),
        usage is Some && v.recent_model is Some ==> forall|j: int| 0 <= j < usage->0.models@.len()
            ==> not_later(#[trigger] usage->0.models@[j].last_used_at, v.recent_model->0.last_used_at),
{
    if let Some(u) = usage {
        lemma_recent_model_is_latest(u.models@, v.recent_model);
    }
}

/// One model's usage shows its own name, counts and last use, each under its
/// own name.
pub proof fn lemma_model_shows_own_usage<N: Fn(u64) -> String, C: Fn(u64) -> String, R: Fn(Option<Timestamp>) -> String, D: Fn(Timestamp) -> String>(m: AccountModelUsage, f: DisplayFormats<N, C, R, D>, v: AccountModelUsageView)
    requires
        shows_model(m, f, v),
    ensures
        v.model == m.model,
        v.request_count == m.request_count,
        f.number.ensures((m.request_count,), v.request_count_display),
        v.success_count == m.success_count,
        v.input_tokens == m.input_tokens && token_text(m.input_tokens, f.compact, v.input_tokens_display),
        v.output_tokens == m.output_tokens && token_text(m.output_tokens, f.compact, v.output_tokens_display),
        v.cached_tokens == m.cached_tokens && token_text(m.cached_tokens, f.compact, v.cached_tokens_display),
        v.reasoning_tokens == m.reasoning_tokens && token_text(m.reasoning_tokens, f.compact, v.reasoning_tokens_display),
        v.total_tokens == m.total_tokens && token_text(m.total_tokens, f.compact, v.total_tokens_display),
        v.last_used_at == m.last_used_at,
        f.relative.ensures((Some(m.last_used_at),), v.last_used_at_display),
{
}

/// An account's detail usage shows its own token counts, each under its own
/// name and with its own display: cache writes as created tokens and cache
/// reads as read tokens; each model in order; without usage, dashes.
pub proof fn lemma_detail_usage_shows_own_counts<N: Fn(u64) -> String, C: Fn(u64) -> String, R: Fn(Option<Timestamp>) -> String, D: Fn(Timestamp) -> String>(value: KeyUsageAccountSnapshot, f: DisplayFormats<N, C, R, D>, v: AccountUsageView)
    requires
        shows_usage(value, f, v),
    ensures
        value.usage is Some ==> {
            let u = value.usage->0;
            &&& v.input_tokens == u.input_tokens && token_text(u.input_tokens, f.compact, v.input_tokens_display)
            &&& v.output_tokens == u.output_tokens && token_text(u.output_tokens, f.compact, v.output_tokens_display)
            &&& v.cached_tokens == u.cached_tokens && token_text(u.cached_tokens, f.compact, v.cached_tokens_display)
            &&& v.reasoning_tokens == u.reasoning_tokens && token_text(u.reasoning_tokens, f.compact, v.reasoning_tokens_display)
            &&& v.created_tokens == u.cache_write_tokens && token_text(u.cache_write_tokens, f.compact, v.created_tokens_display)
            &&& v.read_tokens == u.cached_tokens && token_text(u.cached_tokens, f.compact, v.read_tokens_display)
            &&& v.models@.len() == u.models@.len()
            &&& forall|i: int| 0 <= i < u.models@.len() ==> (#[trigger] v.models@[i]).model == u.models@[i].model
                && v.models@[i].request_count == u.models@[i].request_count
                && v.models@[i].input_tokens == u.models@[i].input_tokens
                && v.models@[i].output_tokens == u.models@[i].output_tokens
                && v.models@[i].total_tokens == u.models@[i].total_tokens
            &&& v.summary.request_count == Some(u.request_count)
            &&& v.summary.success_count == Some(u.success_count)
            &&& v.summary.total_tokens == u.total_tokens
        },
        value.usage is None ==> v.input_tokens is None && v.input_tokens_display@ == "—"@
            && v.output_tokens is None && v.output_tokens_display@ == "—"@
            && v.cached_tokens is None && v.cached_tokens_display@ == "—"@
            && v.reasoning_tokens is None && v.reasoning_tokens_display@ == "—"@
            && v.created_tokens is None && v.created_tokens_display@ == "—"@
            && v.read_tokens is None && v.read_tokens_display@ == "—"@
            && v.models@.len() == 0 && v.summary.request_count is None,
        v.summary.window_label_display@ == spec_usage_label(value),
{
}

/// A listed account shows its own account fields, its own quota and its own
/// usage summary under its usage label.
pub proof fn lemma_list_item_shows_own_account<N: Fn(u64) -> String, C: Fn(u64) -> String, R: Fn(Option<Timestamp>) -> String, D: Fn(Timestamp) -> String>(value: KeyUsageAccountSnapshot, f: DisplayFormats<N, C, R, D>, v: AccountListItemView)
    requires
        shows_list_item(value, f, v),
    ensures
        v.account.id == value.item.account.id,
        v.account.status == value.item.status,
        v.account.capabilities.full_identity == value.authorized,
        !value.authorized ==> v.account.name is None && v.account.email is None,
        v.quota.availability@ == availability_name(value.quota.availability),
        value.quota.value is None ==> v.quota.windows@.len() == 0,
        value.quota.value is Some ==> v.quota.windows@.len() == value.quota.value->0.windows@.len(),
        v.usage.window_label_display@ == spec_usage_label(value),
        value.usage is Some ==> v.usage.request_count == Some(value.usage->0.request_count)
            && v.usage.success_count == Some(value.usage->0.success_count)
            && v.usage.total_tokens == value.usage->0.total_tokens,
        value.usage is None ==> v.usage.request_count is None && v.usage.total_tokens is None,
{
}

} // verus!
