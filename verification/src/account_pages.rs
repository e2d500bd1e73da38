//! The account list and detail pages: every field a key holder sees of an
//! account, its quota windows and its usage, with the numbers and instants
//! written by the caller's display conventions.

use vstd::prelude::*;
use crate::time::Timestamp;
use crate::accounts::{AccountModelUsage, AccountUsage, ProviderQuotaWindow};
use crate::model::{KeyUsageAccountQuota, KeyUsageAccountSnapshot, KeyUsageAccountList};
use crate::presenter::{
    AccountLocalUsageView, AccountRecentModelView, AccountSummaryView, shows_local_usage, shows_tokens,
    shows_recent_model, shows_account_summary, window_label, availability_name, scope_state_name,
    spec_usage_label, display_tokens, local_usage_view, window_label_display, quota_availability,
    scope_state, usage_label, recent_model, account_summary,
};

verus! {

/// The display conventions of the pages: full numbers, compact numbers,
/// instants relative to now, and instants as China date and time.
pub struct DisplayFormats<N, C, R, D> {
    pub number: N,
    pub compact: C,
    pub relative: R,
    pub datetime: D,
}

impl<N: Fn(u64) -> String, C: Fn(u64) -> String, R: Fn(Option<Timestamp>) -> String, D: Fn(Timestamp) -> String> DisplayFormats<N, C, R, D> {
    /// Each convention writes every value.
    pub open spec fn total(self) -> bool {
        &&& forall|v: u64| #[trigger] self.number.requires((v,))
        &&& forall|v: u64| #[trigger] self.compact.requires((v,))
        &&& forall|t: Option<Timestamp>| #[trigger] self.relative.requires((t,))
        &&& forall|t: Timestamp| #[trigger] self.datetime.requires((t,))
    }
}

/// One quota window as shown. `used_percent_bits` holds the bits of the
/// provider's percentage, which the caller writes.
#[derive(Clone, Debug, PartialEq, Eq)]
pub struct AccountQuotaWindowView {
    pub key: String,
    pub group: String,
    pub limit_id: Option<String>,
    pub limit_name: Option<String>,
    pub role: Option<String>,
    pub window_seconds: Option<u64>,
    pub label_display: String,
    pub window_label_display: String,
    pub used_percent_bits: Option<u64>,
    pub limit_reached: bool,
    pub local_usage: Option<AccountLocalUsageView>,
    pub reset_at_display: String,
}

/// `v` shows the quota window `w`: its fields, its label, its local usage,
/// and its reset time in China time, or a dash without one.
pub open spec fn shows_window<N: Fn(u64) -> String, C: Fn(u64) -> String, R: Fn(Option<Timestamp>) -> String, D: Fn(Timestamp) -> String>(
    w: ProviderQuotaWindow,
    f: DisplayFormats<N, C, R, D>,
    v: AccountQuotaWindowView,
) -> bool {
    &&& v.key == w.key
    &&& v.group == w.group
    &&& v.limit_id == w.limit_id
    &&& v.limit_name == w.limit_name
    &&& v.role == w.role
    &&& v.window_seconds == w.window_seconds
    &&& v.label_display@ == window_label(w.limit_name, w.label)
    &&& v.window_label_display == w.label
    &&& v.used_percent_bits == w.used_percent_bits
    &&& v.limit_reached == w.limit_reached
    &&& match w.local_usage {
        Some(u) => v.local_usage matches Some(l) && shows_local_usage(u, f.number, f.compact, l),
        None => v.local_usage is None,
    }
    &&& match w.reset_at {
        Some(t) => f.datetime.ensures((t,), v.reset_at_display),
        None => v.reset_at_display@ == "—"@,
    }
}

/// One quota window as shown.
pub fn quota_window_view<N: Fn(u64) -> String, C: Fn(u64) -> String, R: Fn(Option<Timestamp>) -> String, D: Fn(Timestamp) -> String>(
    window: ProviderQuotaWindow,
    f: &DisplayFormats<N, C, R, D>,
) -> (v: AccountQuotaWindowView)
    requires
        f.total(),
    ensures
        shows_window(window, *f, v),
{
    let label_display = window_label_display(&window.limit_name, &window.label);
    let local_usage = match &window.local_usage {
        Some(u) => Some(local_usage_view(u, &f.number, &f.compact)),
        None => None,
    };
    let reset_at_display = match window.reset_at {
        Some(t) => (f.datetime)(t),
        None => String::from_str("—"),
    };
    AccountQuotaWindowView {
        key: window.key,
        group: window.group,
        limit_id: window.limit_id,
        limit_name: window.limit_name,
        role: window.role,
        window_seconds: window.window_seconds,
        label_display,
        window_label_display: window.label,
        used_percent_bits: window.used_percent_bits,
        limit_reached: window.limit_reached,
        local_usage,
        reset_at_display,
    }
}

/// An account's quota as shown.
#[derive(Clone, Debug, PartialEq, Eq)]
pub struct AccountQuotaView {
    pub availability: &'static str,
    pub refreshed_at_display: String,
    pub limit_reached: bool,
    pub windows: Vec<AccountQuotaWindowView>,
}

/// `v` shows the quota `q`: how it could be read and, where a snapshot was
/// read, when it was observed, whether a limit is reached and each window;
/// without a snapshot, a dash, no limit reached and no windows.
pub open spec fn shows_quota<N: Fn(u64) -> String, C: Fn(u64) -> String, R: Fn(Option<Timestamp>) -> String, D: Fn(Timestamp) -> String>(
    q: KeyUsageAccountQuota,
    f: DisplayFormats<N, C, R, D>,
    v: AccountQuotaView,
) -> bool {
    &&& v.availability@ == availability_name(q.availability)
    &&& match q.value {
        None => {
            &&& v.refreshed_at_display@ == "—"@
            &&& !v.limit_reached
            &&& v.windows@.len() == 0
        },
        Some(p) => {
            &&& f.relative.ensures((p.observed_at,), v.refreshed_at_display)
            &&& v.limit_reached == p.limit_reached
            &&& v.windows@.len() == p.windows@.len()
            &&& forall|i: int| 0 <= i < p.windows@.len() ==> shows_window(p.windows@[i], f, #[trigger] v.windows@[i])
        },
    }
}

/// An account's quota as shown.
pub fn quota_view<N: Fn(u64) -> String, C: Fn(u64) -> String, R: Fn(Option<Timestamp>) -> String, D: Fn(Timestamp) -> String>(
    value: KeyUsageAccountQuota,
    f: &DisplayFormats<N, C, R, D>,
) -> (v: AccountQuotaView)
    requires
        f.total(),
    ensures
        shows_quota(value, *f, v),
{
    let availability = quota_availability(value.availability);
    let quota = match value.value {
        Some(q) => q,
        None => {
            return AccountQuotaView {
                availability,
                refreshed_at_display: String::from_str("—"),
                limit_reached: false,
                windows: Vec::new(),
            };
        },
    };
    let refreshed_at_display = (f.relative)(quota.observed_at);
    let ghost all = quota.windows@;
    let mut windows: Vec<AccountQuotaWindowView> = Vec::new();
    for w in it: quota.windows.into_iter()
        invariant
            f.total(),
            it.seq() == all,
            windows@.len() == it.index(),
            forall|j: int| 0 <= j < it.index() ==> shows_window(all[j], *f, #[trigger] windows@[j]),
    {
        windows.push(quota_window_view(w, f));
    }
    AccountQuotaView { availability, refreshed_at_display, limit_reached: quota.limit_reached, windows }
}

/// An account's usage summary as shown. The success rate is computed by the
/// caller from `success_count` and `request_count`.
#[derive(Clone, Debug, PartialEq, Eq)]
pub struct AccountUsageSummaryView {
    pub recent_model: Option<AccountRecentModelView>,
    pub window_label_display: String,
    pub request_count: Option<u64>,
    pub request_count_display: String,
    pub success_count: Option<u64>,
    pub total_tokens: Option<u64>,
    pub total_tokens_display: String,
    pub last_used_at: Option<Timestamp>,
    pub last_used_at_display: String,
}

/// `v` summarises `usage` under `label`: the model used last, the counts and
/// the last use; without usage, dashes and no values.
pub open spec fn shows_summary<N: Fn(u64) -> String, C: Fn(u64) -> String, R: Fn(Option<Timestamp>) -> String, D: Fn(Timestamp) -> String>(
    usage: Option<AccountUsage>,
    label: Seq<char>,
    f: DisplayFormats<N, C, R, D>,
    v: AccountUsageSummaryView,
) -> bool {
    &&& v.window_label_display@ == label
    &&& match usage {
        None => {
            &&& v.recent_model is None
            &&& v.request_count is None
            &&& v.request_count_display@ == "—"@
            &&& v.success_count is None
            &&& v.total_tokens is None
            &&& v.total_tokens_display@ == "—"@
            &&& v.last_used_at is None
            &&& v.last_used_at_display@ == "—"@
        },
        Some(u) => {
            &&& shows_recent_model(u.models@, v.recent_model)
            &&& v.request_count == Some(u.request_count)
            &&& f.number.ensures((u.request_count,), v.request_count_display)
            &&& v.success_count == Some(u.success_count)
            &&& v.total_tokens == u.total_tokens
            &&& shows_tokens(u.total_tokens, f.compact, v.total_tokens_display)
            &&& v.last_used_at == u.last_used_at
            &&& f.relative.ensures((u.last_used_at,), v.last_used_at_display)
        },
    }
}

/// An account's usage summary under `label`.
pub fn usage_summary<N: Fn(u64) -> String, C: Fn(u64) -> String, R: Fn(Option<Timestamp>) -> String, D: Fn(Timestamp) -> String>(
    usage: &Option<AccountUsage>,
    label: &str,
    f: &DisplayFormats<N, C, R, D>,
) -> (v: AccountUsageSummaryView)
    requires
        f.total(),
    ensures
        shows_summary(*usage, label@, *f, v),
{
    let u = match usage {
        Some(u) => u,
        None => {
            return AccountUsageSummaryView {
                recent_model: None,
                window_label_display: String::from_str(label),
                request_count: None,
                request_count_display: String::from_str("—"),
                success_count: None,
                total_tokens: None,
                total_tokens_display: String::from_str("—"),
                last_used_at: None,
                last_used_at_display: String::from_str("—"),
            };
        },
    };
    AccountUsageSummaryView {
        recent_model: recent_model(&u.models),
        window_label_display: String::from_str(label),
        request_count: Some(u.request_count),
        request_count_display: (f.number)(u.request_count),
        success_count: Some(u.success_count),
        total_tokens: u.total_tokens,
        total_tokens_display: display_tokens(u.total_tokens, &f.compact),
        last_used_at: u.last_used_at,
        last_used_at_display: (f.relative)(u.last_used_at),
    }
}

/// Usage of one model as shown. The success rate is computed by the caller
/// from `success_count` and `request_count`.
#[derive(Clone, Debug, PartialEq, Eq)]
pub struct AccountModelUsageView {
    pub model: String,
    pub request_count: u64,
    pub request_count_display: String,
    pub success_count: u64,
    pub input_tokens: Option<u64>,
    pub input_tokens_display: String,
    pub output_tokens: Option<u64>,
    pub output_tokens_display: String,
    pub cached_tokens: Option<u64>,
    pub cached_tokens_display: String,
    pub reasoning_tokens: Option<u64>,
    pub reasoning_tokens_display: String,
    pub total_tokens: Option<u64>,
    pub total_tokens_display: String,
    pub last_used_at: Timestamp,
    pub last_used_at_display: String,
}

/// `v` shows the usage `m` of one model.
pub open spec fn shows_model<N: Fn(u64) -> String, C: Fn(u64) -> String, R: Fn(Option<Timestamp>) -> String, D: Fn(Timestamp) -> String>(
    m: AccountModelUsage,
    f: DisplayFormats<N, C, R, D>,
    v: AccountModelUsageView,
) -> bool {
    &&& v.model == m.model
    &&& v.request_count == m.request_count
    &&& f.number.ensures((m.request_count,), v.request_count_display)
    &&& v.success_count == m.success_count
    &&& v.input_tokens == m.input_tokens
    &&& shows_tokens(m.input_tokens, f.compact, v.input_tokens_display)
    &&& v.output_tokens == m.output_tokens
    &&& shows_tokens(m.output_tokens, f.compact, v.output_tokens_display)
    &&& v.cached_tokens == m.cached_tokens
    &&& shows_tokens(m.cached_tokens, f.compact, v.cached_tokens_display)
    &&& v.reasoning_tokens == m.reasoning_tokens
    &&& shows_tokens(m.reasoning_tokens, f.compact, v.reasoning_tokens_display)
    &&& v.total_tokens == m.total_tokens
    &&& shows_tokens(m.total_tokens, f.compact, v.total_tokens_display)
    &&& v.last_used_at == m.last_used_at
    &&& f.relative.ensures((Some(m.last_used_at),), v.last_used_at_display)
}

/// Usage of one model as shown.
pub fn model_usage_view<N: Fn(u64) -> String, C: Fn(u64) -> String, R: Fn(Option<Timestamp>) -> String, D: Fn(Timestamp) -> String>(
    usage: &AccountModelUsage,
    f: &DisplayFormats<N, C, R, D>,
) -> (v: AccountModelUsageView)
    requires
        f.total(),
    ensures
        shows_model(*usage, *f, v),
{
    AccountModelUsageView {
        model: usage.model.clone(),
        request_count: usage.request_count,
        request_count_display: (f.number)(usage.request_count),
        success_count: usage.success_count,
        input_tokens: usage.input_tokens,
        input_tokens_display: display_tokens(usage.input_tokens, &f.compact),
        output_tokens: usage.output_tokens,
        output_tokens_display: display_tokens(usage.output_tokens, &f.compact),
        cached_tokens: usage.cached_tokens,
        cached_tokens_display: display_tokens(usage.cached_tokens, &f.compact),
        reasoning_tokens: usage.reasoning_tokens,
        reasoning_tokens_display: display_tokens(usage.reasoning_tokens, &f.compact),
        total_tokens: usage.total_tokens,
        total_tokens_display: display_tokens(usage.total_tokens, &f.compact),
        last_used_at: usage.last_used_at,
        last_used_at_display: (f.relative)(Some(usage.last_used_at)),
    }
}

/// An account's usage on its detail page: the summary, the token counts
/// (cache writes shown as created tokens, cache reads as read tokens) and the
/// usage of each model.
#[derive(Clone, Debug, PartialEq, Eq)]
pub struct AccountUsageView {
    pub summary: AccountUsageSummaryView,
    pub input_tokens: Option<u64>,
    pub input_tokens_display: String,
    pub output_tokens: Option<u64>,
    pub output_tokens_display: String,
    pub cached_tokens: Option<u64>,
    pub cached_tokens_display: String,
    pub reasoning_tokens: Option<u64>,
    pub reasoning_tokens_display: String,
    pub created_tokens: Option<u64>,
    pub created_tokens_display: String,
    pub read_tokens: Option<u64>,
    pub read_tokens_display: String,
    pub models: Vec<AccountModelUsageView>,
}

/// `v` shows the usage of the snapshot `value` on its detail page.
pub open spec fn shows_usage<N: Fn(u64) -> String, C: Fn(u64) -> String, R: Fn(Option<Timestamp>) -> String, D: Fn(Timestamp) -> String>(
    value: KeyUsageAccountSnapshot,
    f: DisplayFormats<N, C, R, D>,
    v: AccountUsageView,
) -> bool {
    &&& shows_summary(value.usage, spec_usage_label(value), f, v.summary)
    &&& match value.usage {
        None => {
            &&& v.input_tokens is None
            &&& v.input_tokens_display@ == "—"@
            &&& v.output_tokens is None
            &&& v.output_tokens_display@ == "—"@
            &&& v.cached_tokens is None
            &&& v.cached_tokens_display@ == "—"@
            &&& v.reasoning_tokens is None
            &&& v.reasoning_tokens_display@ == "—"@
            &&& v.created_tokens is None
            &&& v.created_tokens_display@ == "—"@
            &&& v.read_tokens is None
            &&& v.read_tokens_display@ == "—"@
            &&& v.models@.len() == 0
        },
        Some(u) => {
            &&& v.input_tokens == u.input_tokens
            &&& shows_tokens(u.input_tokens, f.compact, v.input_tokens_display)
            &&& v.output_tokens == u.output_tokens
            &&& shows_tokens(u.output_tokens, f.compact, v.output_tokens_display)
            &&& v.cached_tokens == u.cached_tokens
            &&& shows_tokens(u.cached_tokens, f.compact, v.cached_tokens_display)
            &&& v.reasoning_tokens == u.reasoning_tokens
            &&& shows_tokens(u.reasoning_tokens, f.compact, v.reasoning_tokens_display)
            &&& v.created_tokens == u.cache_write_tokens
            &&& shows_tokens(u.cache_write_tokens, f.compact, v.created_tokens_display)
            &&& v.read_tokens == u.cached_tokens
            &&& shows_tokens(u.cached_tokens, f.compact, v.read_tokens_display)
            &&& v.models@.len() == u.models@.len()
            &&& forall|i: int| 0 <= i < u.models@.len() ==> shows_model(u.models@[i], f, #[trigger] v.models@[i])
        },
    }
}

/// An account's usage on its detail page.
pub fn account_usage_view<N: Fn(u64) -> String, C: Fn(u64) -> String, R: Fn(Option<Timestamp>) -> String, D: Fn(Timestamp) -> String>(
    value: &KeyUsageAccountSnapshot,
    f: &DisplayFormats<N, C, R, D>,
) -> (v: AccountUsageView)
    requires
        f.total(),
    ensures
        shows_usage(*value, *f, v),
{
    let summary = usage_summary(&value.usage, usage_label(value), f);
    let u = match &value.usage {
        Some(u) => u,
        None => {
            return AccountUsageView {
                summary,
                input_tokens: None,
                input_tokens_display: String::from_str("—"),
                output_tokens: None,
                output_tokens_display: String::from_str("—"),
                cached_tokens: None,
                cached_tokens_display: String::from_str("—"),
                reasoning_tokens: None,
                reasoning_tokens_display: String::from_str("—"),
                created_tokens: None,
                created_tokens_display: String::from_str("—"),
                read_tokens: None,
                read_tokens_display: String::from_str("—"),
                models: Vec::new(),
            };
        },
    };
    let mut models: Vec<AccountModelUsageView> = Vec::new();
    for i in 0..u.models.len()
        invariant
            f.total(),
            models@.len() == i,
            forall|j: int| 0 <= j < i ==> shows_model(u.models@[j], *f, #[trigger] models@[j]),
    {
        models.push(model_usage_view(&u.models[i], f));
    }
    AccountUsageView {
        summary,
        input_tokens: u.input_tokens,
        input_tokens_display: display_tokens(u.input_tokens, &f.compact),
        output_tokens: u.output_tokens,
        output_tokens_display: display_tokens(u.output_tokens, &f.compact),
        cached_tokens: u.cached_tokens,
        cached_tokens_display: display_tokens(u.cached_tokens, &f.compact),
        reasoning_tokens: u.reasoning_tokens,
        reasoning_tokens_display: display_tokens(u.reasoning_tokens, &f.compact),
        created_tokens: u.cache_write_tokens,
        created_tokens_display: display_tokens(u.cache_write_tokens, &f.compact),
        read_tokens: u.cached_tokens,
        read_tokens_display: display_tokens(u.cached_tokens, &f.compact),
        models,
    }
}

/// An account as listed: the account itself, its quota and its usage summary.
#[derive(Clone, Debug, PartialEq, Eq)]
pub struct AccountListItemView {
    pub account: AccountSummaryView,
    pub quota: AccountQuotaView,
    pub usage: AccountUsageSummaryView,
}

/// `v` shows the snapshot `value` as listed.
pub open spec fn shows_list_item<N: Fn(u64) -> String, C: Fn(u64) -> String, R: Fn(Option<Timestamp>) -> String, D: Fn(Timestamp) -> String>(
    value: KeyUsageAccountSnapshot,
    f: DisplayFormats<N, C, R, D>,
    v: AccountListItemView,
) -> bool {
    &&& shows_account_summary(value, v.account)
    &&& shows_quota(value.quota, f, v.quota)
    &&& shows_summary(value.usage, spec_usage_label(value), f, v.usage)
}

/// An account as listed.
pub fn account_list_item<N: Fn(u64) -> String, C: Fn(u64) -> String, R: Fn(Option<Timestamp>) -> String, D: Fn(Timestamp) -> String>(
    value: KeyUsageAccountSnapshot,
    f: &DisplayFormats<N, C, R, D>,
) -> (v: AccountListItemView)
    requires
        f.total(),
    ensures
        shows_list_item(value, *f, v),
{
    let account = account_summary(&value);
    let usage = usage_summary(&value.usage, usage_label(&value), f);
    let quota = quota_view(value.quota, f);
    AccountListItemView { account, quota, usage }
}

/// An account on its detail page: the account itself, its quota and its usage.
#[derive(Clone, Debug, PartialEq, Eq)]
pub struct AccountDetailView {
    pub account: AccountSummaryView,
    pub quota: AccountQuotaView,
    pub usage: AccountUsageView,
}

/// An account on its detail page.
pub fn account_detail<N: Fn(u64) -> String, C: Fn(u64) -> String, R: Fn(Option<Timestamp>) -> String, D: Fn(Timestamp) -> String>(
    value: KeyUsageAccountSnapshot,
    f: &DisplayFormats<N, C, R, D>,
) -> (v: AccountDetailView)
    requires
        f.total(),
    ensures
        shows_account_summary(value, v.account),
        shows_quota(value.quota, *f, v.quota),
        shows_usage(value, *f, v.usage),
{
    let usage = account_usage_view(&value, f);
    let item = account_list_item(value, f);
    AccountDetailView { account: item.account, quota: item.quota, usage }
}

/// A page of the key's accounts as shown.
#[derive(Clone, Debug, PartialEq, Eq)]
pub struct AccountListView {
    pub scope_state: &'static str,
    pub items: Vec<AccountListItemView>,
    pub current_page: u32,
    pub page_size: u16,
    pub total: u64,
}

/// A page of the key's accounts as shown, keeping the page's position.
pub fn accounts<N: Fn(u64) -> String, C: Fn(u64) -> String, R: Fn(Option<Timestamp>) -> String, D: Fn(Timestamp) -> String>(
    value: KeyUsageAccountList,
    f: &DisplayFormats<N, C, R, D>,
) -> (v: AccountListView)
    requires
        f.total(),
    ensures
        v.scope_state@ == scope_state_name(value.scope_state),
        v.items@.len() == value.items@.len(),
        forall|i: int| 0 <= i < value.items@.len() ==> shows_list_item(value.items@[i], *f, #[trigger] v.items@[i]),
        v.current_page == value.current_page,
        v.page_size == value.page_size,
        v.total == value.total,
{
    let ghost all = value.items@;
    let mut items: Vec<AccountListItemView> = Vec::new();
    for item in it: value.items.into_iter()
        invariant
            f.total(),
            it.seq() == all,
            items@.len() == it.index(),
            forall|j: int| 0 <= j < it.index() ==> shows_list_item(all[j], *f, #[trigger] items@[j]),
    {
        items.push(account_list_item(item, f));
    }
    AccountListView {
        scope_state: scope_state(value.scope_state),
        items,
        current_page: value.current_page,
        page_size: value.page_size,
        total: value.total,
    }
}

} // verus!
