//! Provider accounts in a key's scope: their quota, the usage windows to
//! load for them, and how loaded usage is attached to each account.

use vstd::prelude::*;
use crate::text::same_text;
use crate::time::{Timestamp, TimeRange, earlier, sub_seconds, chrono_sub_seconds, in_safe_range, SAFE_INSTANT_SECS};
use crate::keys::AdminError;
use crate::model::{KeyUsageAccountQuota, KeyUsageQuotaAvailability, KeyUsageAccountSnapshot};
use crate::scope::AccountScope;

verus! {

/// A provider account as stored, including data meant for administrators only.
#[derive(Clone, Debug, PartialEq, Eq)]
pub struct Account {
    pub id: String,
    pub name: String,
    pub email: Option<String>,
    pub provider_kind: String,
    pub authentication_kind: String,
    pub plan_type: Option<String>,
    pub created_at: Timestamp,
    pub notes: Option<String>,
    pub credential_ref: Option<String>,
}

/// An account with its current status.
#[derive(Clone, Debug, PartialEq, Eq)]
pub struct AccountPageItem {
    pub account: Account,
    pub status: String,
}

/// Usage of one model through an account.
#[derive(Clone, Debug, PartialEq, Eq)]
pub struct AccountModelUsage {
    pub model: String,
    pub request_count: u64,
    pub success_count: u64,
    pub input_tokens: Option<u64>,
    pub output_tokens: Option<u64>,
    pub cached_tokens: Option<u64>,
    pub reasoning_tokens: Option<u64>,
    pub total_tokens: Option<u64>,
    pub last_used_at: Timestamp,
}

/// Requests through an account in one time bucket.
#[derive(Clone, Copy, Debug, PartialEq, Eq, Structural)]
pub struct AccountRequestBucket {
    pub bucket_start: Timestamp,
    pub request_count: u64,
}

/// Usage through an account over a window.
#[derive(Clone, Debug, PartialEq, Eq)]
pub struct AccountUsage {
    pub request_count: u64,
    pub success_count: u64,
    pub input_tokens: Option<u64>,
    pub output_tokens: Option<u64>,
    pub cached_tokens: Option<u64>,
    pub cache_write_tokens: Option<u64>,
    pub reasoning_tokens: Option<u64>,
    pub total_tokens: Option<u64>,
    pub last_used_at: Option<Timestamp>,
    pub models: Vec<AccountModelUsage>,
    pub request_buckets: Vec<AccountRequestBucket>,
}

/// Abstract value of an account usage: its counts and the sequences it holds.
pub struct AccountUsageValue {
    pub request_count: u64,
    pub success_count: u64,
    pub input_tokens: Option<u64>,
    pub output_tokens: Option<u64>,
    pub cached_tokens: Option<u64>,
    pub cache_write_tokens: Option<u64>,
    pub reasoning_tokens: Option<u64>,
    pub total_tokens: Option<u64>,
    pub last_used_at: Option<Timestamp>,
    pub models: Seq<AccountModelUsage>,
    pub request_buckets: Seq<AccountRequestBucket>,
}

impl View for AccountUsage {
    type V = AccountUsageValue;

    open spec fn view(&self) -> AccountUsageValue {
        AccountUsageValue {
            request_count: self.request_count,
            success_count: self.success_count,
            input_tokens: self.input_tokens,
            output_tokens: self.output_tokens,
            cached_tokens: self.cached_tokens,
            cache_write_tokens: self.cache_write_tokens,
            reasoning_tokens: self.reasoning_tokens,
            total_tokens: self.total_tokens,
            last_used_at: self.last_used_at,
            models: self.models@,
            request_buckets: self.request_buckets@,
        }
    }
}

/// Abstract value of an optional usage.
pub open spec fn usage_opt_view(o: Option<AccountUsage>) -> Option<AccountUsageValue> {
    match o {
        Some(u) => Some(u@),
        None => None,
    }
}

/// Whether local usage of a quota window is counted for the whole account.
#[derive(Clone, Copy, Debug, PartialEq, Eq, Structural)]
pub enum QuotaLocalUsageAttribution {
    AccountWide,
    Credential,
}

/// The period of the window that an account's usage summary follows.
#[derive(Clone, Copy, Debug, PartialEq, Eq, Structural)]
pub enum AccountUsagePeriod {
    Weekly,
    Monthly,
}

/// One limit window of a provider quota. `used_percent_bits` holds the bits
/// of the provider's percentage (`f64::to_bits`).
#[derive(Clone, Debug, PartialEq, Eq)]
pub struct ProviderQuotaWindow {
    pub key: String,
    pub group: String,
    pub label: String,
    pub limit_id: Option<String>,
    pub limit_name: Option<String>,
    pub role: Option<String>,
    pub window_seconds: Option<u64>,
    pub used_percent_bits: Option<u64>,
    pub reset_at: Option<Timestamp>,
    pub limit_reached: bool,
    pub local_usage: Option<AccountUsage>,
    pub local_usage_attribution: QuotaLocalUsageAttribution,
}

/// Abstract value of a quota window.
pub struct ProviderQuotaWindowView {
    pub key: String,
    pub group: String,
    pub label: String,
    pub limit_id: Option<String>,
    pub limit_name: Option<String>,
    pub role: Option<String>,
    pub window_seconds: Option<u64>,
    pub used_percent_bits: Option<u64>,
    pub reset_at: Option<Timestamp>,
    pub limit_reached: bool,
    pub local_usage: Option<AccountUsageValue>,
    pub local_usage_attribution: QuotaLocalUsageAttribution,
}

impl View for ProviderQuotaWindow {
    type V = ProviderQuotaWindowView;

    open spec fn view(&self) -> ProviderQuotaWindowView {
        ProviderQuotaWindowView {
            key: self.key,
            group: self.group,
            label: self.label,
            limit_id: self.limit_id,
            limit_name: self.limit_name,
            role: self.role,
            window_seconds: self.window_seconds,
            used_percent_bits: self.used_percent_bits,
            reset_at: self.reset_at,
            limit_reached: self.limit_reached,
            local_usage: usage_opt_view(self.local_usage),
            local_usage_attribution: self.local_usage_attribution,
        }
    }
}

/// Which window of a quota the usage summary follows, and its period.
#[derive(Clone, Copy, Debug, PartialEq, Eq, Structural)]
pub struct UsageWindowRef {
    pub index: usize,
    pub period: AccountUsagePeriod,
}

/// A provider's quota report for an account.
#[derive(Clone, Debug, PartialEq, Eq)]
pub struct ProviderQuota {
    pub observed_at: Option<Timestamp>,
    pub limit_reached: bool,
    pub windows: Vec<ProviderQuotaWindow>,
    pub usage_window: Option<UsageWindowRef>,
}

/// Abstract value of a provider quota.
pub struct ProviderQuotaView {
    pub observed_at: Option<Timestamp>,
    pub limit_reached: bool,
    pub windows: Seq<ProviderQuotaWindowView>,
    pub usage_window: Option<UsageWindowRef>,
}

impl View for ProviderQuota {
    type V = ProviderQuotaView;

    open spec fn view(&self) -> ProviderQuotaView {
        ProviderQuotaView {
            observed_at: self.observed_at,
            limit_reached: self.limit_reached,
            windows: self.windows@.map_values(|w: ProviderQuotaWindow| w@),
            usage_window: self.usage_window,
        }
    }
}

impl ProviderQuota {
    /// The usage window's position, where it names one of the windows.
    pub open spec fn spec_usage_window_index(self) -> Option<int> {
        match self.usage_window {
            Some(w) => if w.index < self.windows.len() { Some(w.index as int) } else { None },
            None => None,
        }
    }

    /// The usage window's period, where it names one of the windows.
    pub open spec fn spec_usage_period(self) -> Option<AccountUsagePeriod> {
        match self.usage_window {
            Some(w) => if w.index < self.windows.len() { Some(w.period) } else { None },
            None => None,
        }
    }

    /// The period of the window that the usage summary follows.
    pub fn usage_period(&self) -> (p: Option<AccountUsagePeriod>)
        ensures
            p == self.spec_usage_period(),
    {
        match self.usage_window {
            Some(w) => if w.index < self.windows.len() { Some(w.period) } else { None },
            None => None,
        }
    }
}

/// Why a provider could not report a quota.
#[derive(Clone, Copy, Debug, PartialEq, Eq, Structural)]
pub enum ProviderAdminErrorKind {
    Unsupported,
    NotFound,
    Upstream,
    Internal,
}

/// A window of an account's usage to load.
#[derive(Clone, Debug, PartialEq, Eq)]
pub struct AccountUsageWindowQuery {
    pub account_id: String,
    pub key: String,
    pub range: TimeRange,
}

/// Loaded usage of one window of one account.
#[derive(Clone, Debug, PartialEq, Eq)]
pub struct AccountUsageWindowResult {
    pub account_id: String,
    pub key: String,
    pub usage: AccountUsage,
}

/// Authentication kind of accounts that use a plain provider API key.
pub open spec fn api_key_kind() -> Seq<char> {
    "api_key"@
}

/// Key of the usage window that spans an API-key account's whole life.
pub open spec fn lifetime_window_key() -> Seq<char> {
    "account-lifetime"@
}

/// Whether an account authenticates with a plain provider API key.
pub fn is_api_key(authentication_kind: &str) -> (r: bool)
    ensures
        r == (authentication_kind@ == api_key_kind()),
{
    same_text(authentication_kind, "api_key")
}

/// The usage window implied by a quota window, as (key, range): only
/// account-wide windows with a reset time and a length, ending at the reset.
pub open spec fn spec_quota_window_range(w: ProviderQuotaWindow) -> Option<TimeRange> {
    window_range(w.local_usage_attribution, w.reset_at, w.window_seconds)
}

/// The range of a window with this attribution, reset time and length.
pub open spec fn window_range(attribution: QuotaLocalUsageAttribution, reset_at: Option<Timestamp>, window_seconds: Option<u64>) -> Option<TimeRange> {
    if attribution != QuotaLocalUsageAttribution::AccountWide {
        None
    } else {
        match (reset_at, window_seconds) {
            (Some(reset_at), Some(seconds)) => if seconds > i64::MAX as u64 {
                None
            } else {
                match chrono_sub_seconds(reset_at.secs, reset_at.nanos, seconds as i64) {
                    Some((secs, nanos)) => {
                        let start = Timestamp { secs, nanos };
                        if earlier(start, reset_at) {
                            Some(TimeRange { start, end: reset_at })
                        } else {
                            None
                        }
                    },
                    None => None,
                }
            },
            _ => None,
        }
    }
}

/// The usage window to load for `account_id` from one quota window.
pub fn quota_usage_window(account_id: &String, window: &ProviderQuotaWindow) -> (q: Option<AccountUsageWindowQuery>)
    ensures
        match spec_quota_window_range(*window) {
            Some(range) => q matches Some(x) && x.account_id@ == account_id@ && x.key@ == window.key@ && x.range == range,
            None => q is None,
        },
        q matches Some(x) ==> (window.reset_at matches Some(r) && x.range.end == r),
        q matches Some(x) ==> (window.reset_at matches Some(r) && window.window_seconds matches Some(n) && (r.nanos < 1_000_000_000 ==> x.range.start.secs == r.secs - n && x.range.start.nanos == r.nanos)),        window.local_usage_attribution == QuotaLocalUsageAttribution::AccountWide ==> (window.reset_at matches Some(r) && window.window_seconds matches Some(n)
            && 0 < n <= SAFE_INSTANT_SECS && in_safe_range(r.secs, r.nanos, n as i64) ==> q is Some),
{
    if window.local_usage_attribution != QuotaLocalUsageAttribution::AccountWide {
        return None;
    }
    let reset_at = match window.reset_at {
        Some(t) => t,
        None => return None,
    };
    let seconds = match window.window_seconds {
        Some(s) => s,
        None => return None,
    };
    if seconds > i64::MAX as u64 {
        return None;
    }
    let start = match sub_seconds(reset_at, seconds as i64) {
        Some(t) => t,
        None => return None,
    };
    match TimeRange::new(start, reset_at) {
        Ok(range) => Some(AccountUsageWindowQuery {
            account_id: account_id.clone(),
            key: window.key.clone(),
            range,
        }),
        Err(_) => None,
    }
}

/// A copy of an optional string.
pub fn copy_text(o: &Option<String>) -> (r: Option<String>)
    ensures
        r == *o,
{
    match o {
        Some(t) => Some(t.clone()),
        None => None,
    }
}

impl AccountModelUsage {
    /// An equal copy.
    pub fn duplicate(&self) -> (r: Self)
        ensures
            r == *self,
    {
        AccountModelUsage {
            model: self.model.clone(),
            request_count: self.request_count,
            success_count: self.success_count,
            input_tokens: self.input_tokens,
            output_tokens: self.output_tokens,
            cached_tokens: self.cached_tokens,
            reasoning_tokens: self.reasoning_tokens,
            total_tokens: self.total_tokens,
            last_used_at: self.last_used_at,
        }
    }
}

impl AccountUsage {
    /// A copy with the same abstract value.
    pub fn duplicate(&self) -> (r: Self)
        ensures
            r@ == self@,
    {
        let mut models: Vec<AccountModelUsage> = Vec::new();
        for i in 0..self.models.len()
            invariant
                models@ == self.models@.take(i as int),
        {
            models.push(self.models[i].duplicate());
            assert(self.models@.take(i + 1) =~= self.models@.take(i as int).push(self.models@[i as int]));
        }
        assert(self.models@.take(self.models.len() as int) =~= self.models@);
        let mut request_buckets: Vec<AccountRequestBucket> = Vec::new();
        for i in 0..self.request_buckets.len()
            invariant
                request_buckets@ == self.request_buckets@.take(i as int),
        {
            request_buckets.push(self.request_buckets[i]);
            assert(self.request_buckets@.take(i + 1) =~= self.request_buckets@.take(i as int).push(self.request_buckets@[i as int]));
        }
        assert(self.request_buckets@.take(self.request_buckets.len() as int) =~= self.request_buckets@);
        AccountUsage {
            request_count: self.request_count,
            success_count: self.success_count,
            input_tokens: self.input_tokens,
            output_tokens: self.output_tokens,
            cached_tokens: self.cached_tokens,
            cache_write_tokens: self.cache_write_tokens,
            reasoning_tokens: self.reasoning_tokens,
            total_tokens: self.total_tokens,
            last_used_at: self.last_used_at,
            models,
            request_buckets,
        }
    }
}

/// A copy of an optional usage.
pub fn copy_usage(o: &Option<AccountUsage>) -> (r: Option<AccountUsage>)
    ensures
        usage_opt_view(r) == usage_opt_view(*o),
{
    match o {
        Some(u) => Some(u.duplicate()),
        None => None,
    }
}

/// What to do about an account's quota before asking its provider.
#[derive(Clone, Debug, PartialEq, Eq)]
pub enum QuotaPlan {
    /// The quota is settled without asking.
    Settled(KeyUsageAccountQuota),
    /// Ask the account's provider for a quota snapshot.
    Probe,
}

/// Abstract value of an optional provider quota.
pub open spec fn quota_opt_view(o: Option<ProviderQuota>) -> Option<ProviderQuotaView> {
    match o {
        Some(q) => Some(q@),
        None => None,
    }
}

/// The availability of a quota agrees with what it holds: without a snapshot
/// it is unsupported or unavailable; a snapshot that was observed or has
/// windows is available, and any other snapshot is unobserved.
pub open spec fn classified(availability: KeyUsageQuotaAvailability, quota: Option<ProviderQuotaView>) -> bool {
    match quota {
        None => availability == KeyUsageQuotaAvailability::Unsupported || availability == KeyUsageQuotaAvailability::Unavailable,
        Some(p) => if p.observed_at is Some || p.windows.len() > 0 {
            availability == KeyUsageQuotaAvailability::Available
        } else {
            availability == KeyUsageQuotaAvailability::Unobserved
        },
    }
}

/// The availability of an account quota agrees with what it holds.
pub open spec fn quota_consistent(q: KeyUsageAccountQuota) -> bool {
    classified(q.availability, quota_opt_view(q.value))
}

/// API-key accounts have no provider quota; an account whose id the provider
/// cannot take, or whose provider is not registered, has none available;
/// any other account is probed.
pub fn quota_plan(account: &Account, account_id_valid: bool, provider_registered: bool) -> (p: QuotaPlan)
    ensures
        account.authentication_kind@ == api_key_kind() ==> p == QuotaPlan::Settled(KeyUsageAccountQuota { availability: KeyUsageQuotaAvailability::Unsupported, value: None }),
        account.authentication_kind@ != api_key_kind() && !(account_id_valid && provider_registered) ==> p == QuotaPlan::Settled(KeyUsageAccountQuota { availability: KeyUsageQuotaAvailability::Unavailable, value: None }),
        account.authentication_kind@ != api_key_kind() && account_id_valid && provider_registered ==> p == QuotaPlan::Probe,
        p matches QuotaPlan::Settled(q) ==> quota_consistent(q),
{
    if is_api_key(account.authentication_kind.as_str()) {
        QuotaPlan::Settled(KeyUsageAccountQuota { availability: KeyUsageQuotaAvailability::Unsupported, value: None })
    } else if !account_id_valid || !provider_registered {
        QuotaPlan::Settled(KeyUsageAccountQuota { availability: KeyUsageQuotaAvailability::Unavailable, value: None })
    } else {
        QuotaPlan::Probe
    }
}

/// The account quota from a provider's answer: a snapshot that was observed
/// or has windows is available, another one is unobserved; a provider that
/// does not support quotas gives unsupported, any other failure unavailable.
pub fn quota_from_snapshot(answer: Result<ProviderQuota, ProviderAdminErrorKind>) -> (q: KeyUsageAccountQuota)
    ensures
        quota_consistent(q),
        match answer {
            Ok(p) => q.value == Some(p) && q.availability == (if p.observed_at is Some || p.windows.len() > 0 {
                KeyUsageQuotaAvailability::Available
            } else {
                KeyUsageQuotaAvailability::Unobserved
            }),
            Err(ProviderAdminErrorKind::Unsupported) => q == KeyUsageAccountQuota { availability: KeyUsageQuotaAvailability::Unsupported, value: None },
            Err(_) => q == KeyUsageAccountQuota { availability: KeyUsageQuotaAvailability::Unavailable, value: None },
        },
{
    match answer {
        Ok(p) => if p.observed_at.is_some() || p.windows.len() > 0 {
            KeyUsageAccountQuota { availability: KeyUsageQuotaAvailability::Available, value: Some(p) }
        } else {
            KeyUsageAccountQuota { availability: KeyUsageQuotaAvailability::Unobserved, value: Some(p) }
        },
        Err(ProviderAdminErrorKind::Unsupported) => KeyUsageAccountQuota { availability: KeyUsageQuotaAvailability::Unsupported, value: None },
        Err(_) => KeyUsageAccountQuota { availability: KeyUsageQuotaAvailability::Unavailable, value: None },
    }
}

/// The accounts that were found, in order; the first failure, if any, instead.
pub open spec fn spec_loaded_items(loaded: Seq<Result<Option<AccountPageItem>, AdminError>>) -> Result<Seq<AccountPageItem>, AdminError>
    decreases loaded.len(),
{
    if loaded.len() == 0 {
        Ok(Seq::empty())
    } else {
        match loaded[0] {
            Err(e) => Err(e),
            Ok(found) => match spec_loaded_items(loaded.drop_first()) {
                Err(e) => Err(e),
                Ok(rest) => match found {
                    Some(item) => Ok(seq![item] + rest),
                    None => Ok(rest),
                },
            },
        }
    }
}

proof fn lemma_loaded_items_step(loaded: Seq<Result<Option<AccountPageItem>, AdminError>>, i: int)
    requires
        0 <= i < loaded.len(),
        spec_loaded_items(loaded.take(i)) is Ok,
        loaded[i] is Ok,
    ensures
        spec_loaded_items(loaded.take(i + 1)) == (match loaded[i] {
            Ok(Some(item)) => Ok(spec_loaded_items(loaded.take(i))->Ok_0.push(item)),
            _ => spec_loaded_items(loaded.take(i)),
        }),
    decreases i,
{
    let a = loaded.take(i + 1);
    if i == 0 {
        assert(a.drop_first() =~= Seq::<Result<Option<AccountPageItem>, AdminError>>::empty());
        assert(loaded.take(0) =~= Seq::<Result<Option<AccountPageItem>, AdminError>>::empty());
        match loaded[0] {
            Ok(Some(item)) => {
                assert(seq![item] + Seq::<AccountPageItem>::empty() =~= Seq::<AccountPageItem>::empty().push(item));
            },
            _ => {},
        }
    } else {
        let tail = loaded.drop_first();
        assert(a.drop_first() =~= tail.take(i));
        assert(loaded.take(i).drop_first() =~= tail.take(i - 1));
        lemma_loaded_items_step(tail, i - 1);
        assert(tail.take(i - 1 + 1) =~= tail.take(i));
        match loaded[0] {
            Ok(Some(item)) => {
                let r = spec_loaded_items(tail.take(i - 1))->Ok_0;
                match loaded[i] {
                    Ok(Some(x)) => {
                        assert(seq![item] + r.push(x) =~= (seq![item] + r).push(x));
                    },
                    _ => {},
                }
            },
            _ => {},
        }
    }
}

proof fn lemma_loaded_items_err(loaded: Seq<Result<Option<AccountPageItem>, AdminError>>, i: int)
    requires
        0 <= i < loaded.len(),
        spec_loaded_items(loaded.take(i)) is Ok,
        loaded[i] is Err,
    ensures
        spec_loaded_items(loaded) == Err::<Seq<AccountPageItem>, AdminError>(loaded[i]->Err_0),
    decreases i,
{
    if i > 0 {
        let tail = loaded.drop_first();
        assert(loaded.take(i).drop_first() =~= tail.take(i - 1));
        lemma_loaded_items_err(tail, i - 1);
    }
}

/// Loading fails exactly when some account failed to load, and then with the
/// first failure; otherwise it keeps every account that was found and no
/// other.
pub proof fn lemma_loaded_items_keep_found_accounts(loaded: Seq<Result<Option<AccountPageItem>, AdminError>>)
    ensures
        spec_loaded_items(loaded) is Err <==> exists|i: int| 0 <= i < loaded.len() && (#[trigger] loaded[i]) is Err,
        spec_loaded_items(loaded) is Err ==> exists|i: int| 0 <= i < loaded.len() && #[trigger] loaded[i] == Err::<Option<AccountPageItem>, AdminError>(spec_loaded_items(loaded)->Err_0)
            && forall|j: int| 0 <= j < i ==> (#[trigger] loaded[j]) is Ok,
        spec_loaded_items(loaded) is Ok ==> forall|k: int| #![trigger spec_loaded_items(loaded)->Ok_0[k]] 0 <= k < spec_loaded_items(loaded)->Ok_0.len()
            ==> exists|i: int| 0 <= i < loaded.len() && #[trigger] loaded[i] == Ok::<Option<AccountPageItem>, AdminError>(Some(spec_loaded_items(loaded)->Ok_0[k])),
        spec_loaded_items(loaded) is Ok ==> forall|i: int| 0 <= i < loaded.len() && (#[trigger] loaded[i]) is Ok && loaded[i]->Ok_0 is Some
            ==> spec_loaded_items(loaded)->Ok_0.contains(loaded[i]->Ok_0->0),
    decreases loaded.len(),
{
    if loaded.len() > 0 {
        let rest = loaded.drop_first();
        lemma_loaded_items_keep_found_accounts(rest);
        assert forall|i: int| 0 < i < loaded.len() implies loaded[i] == #[trigger] rest[i - 1] by {}
        if loaded[0] is Err {
            assert(forall|j: int| 0 <= j < 0 ==> (#[trigger] loaded[j]) is Ok);
        } else if spec_loaded_items(rest) is Err {
            let i = choose|i: int| 0 <= i < rest.len() && #[trigger] rest[i] == Err::<Option<AccountPageItem>, AdminError>(spec_loaded_items(rest)->Err_0)
                && forall|j: int| 0 <= j < i ==> (#[trigger] rest[j]) is Ok;
            assert(loaded[i + 1] == rest[i]);
            assert forall|j: int| 0 <= j < i + 1 implies (#[trigger] loaded[j]) is Ok by {
                if j > 0 {
                    assert(loaded[j] == rest[j - 1]);
                }
            }
        } else {
            let items = spec_loaded_items(loaded)->Ok_0;
            let r = spec_loaded_items(rest)->Ok_0;
            assert forall|i: int| 0 <= i < loaded.len() implies !((#[trigger] loaded[i]) is Err) by {
                if i > 0 {
                    assert(loaded[i] == rest[i - 1]);
                }
            }
            match loaded[0] {
                Ok(Some(x)) => {
                    assert(items == seq![x] + r);
                    assert forall|k: int| #![trigger items[k]] 0 <= k < items.len() implies exists|i: int| 0 <= i < loaded.len()
                        && #[trigger] loaded[i] == Ok::<Option<AccountPageItem>, AdminError>(Some(items[k])) by {
                        if k == 0 {
                            assert(loaded[0] == Ok::<Option<AccountPageItem>, AdminError>(Some(items[0])));
                        } else {
                            assert(items[k] == r[k - 1]);
                            let i = choose|i: int| 0 <= i < rest.len() && #[trigger] rest[i] == Ok::<Option<AccountPageItem>, AdminError>(Some(r[k - 1]));
                            assert(loaded[i + 1] == rest[i]);
                        }
                    }
                    assert forall|i: int| 0 <= i < loaded.len() && (#[trigger] loaded[i]) is Ok && loaded[i]->Ok_0 is Some
                        implies items.contains(loaded[i]->Ok_0->0) by {
                        if i == 0 {
                            assert(items[0] == x);
                        } else {
                            assert(loaded[i] == rest[i - 1]);
                            let y = loaded[i]->Ok_0->0;
                            assert(r.contains(y));
                            let p = choose|p: int| 0 <= p < r.len() && r[p] == y;
                            assert(items[p + 1] == r[p]);
                        }
                    }
                },
                _ => {
                    assert(items == r);
                    assert forall|k: int| #![trigger items[k]] 0 <= k < items.len() implies exists|i: int| 0 <= i < loaded.len()
                        && #[trigger] loaded[i] == Ok::<Option<AccountPageItem>, AdminError>(Some(items[k])) by {
                        let i = choose|i: int| 0 <= i < rest.len() && #[trigger] rest[i] == Ok::<Option<AccountPageItem>, AdminError>(Some(r[k]));
                        assert(loaded[i + 1] == rest[i]);
                    }
                    assert forall|i: int| 0 <= i < loaded.len() && (#[trigger] loaded[i]) is Ok && loaded[i]->Ok_0 is Some
                        implies items.contains(loaded[i]->Ok_0->0) by {
                        if i > 0 {
                            assert(loaded[i] == rest[i - 1]);
                        }
                    }
                },
            }
        }
    }
}

/// The accounts that were found among `loaded`, in order, or the first failure.
pub fn loaded_items(loaded: Vec<Result<Option<AccountPageItem>, AdminError>>) -> (r: Result<Vec<AccountPageItem>, AdminError>)
    ensures
        match spec_loaded_items(loaded@) {
            Ok(items) => r matches Ok(v) && v@ == items,
            Err(e) => r == Err::<Vec<AccountPageItem>, AdminError>(e),
        },
{
    let ghost all = loaded@;
    let mut items: Vec<AccountPageItem> = Vec::new();
    assert(all.take(0) =~= Seq::<Result<Option<AccountPageItem>, AdminError>>::empty());
    for next in it: loaded.into_iter()
        invariant
            it.seq() == all,
            spec_loaded_items(all.take(it.index() as int)) == Ok::<Seq<AccountPageItem>, AdminError>(items@),
    {
        let ghost i = it.index() as int;
        assert(next == all[i]);
        match next {
            Err(e) => {
                proof {
                    lemma_loaded_items_err(all, i);
                }
                return Err(e);
            },
            Ok(found) => {
                proof {
                    lemma_loaded_items_step(all, i);
                }
                match found {
                    Some(item) => items.push(item),
                    None => {},
                }
            },
        }
    }
    assert(all.take(all.len() as int) =~= all);
    Ok(items)
}

/// Usage of the last loaded result for `(account_id, key)`: later results
/// replace earlier ones for the same pair.
pub open spec fn last_usage(results: Seq<AccountUsageWindowResult>, account_id: Seq<char>, key: Seq<char>) -> Option<AccountUsageValue>
    decreases results.len(),
{
    if results.len() == 0 {
        None
    } else if results.last().account_id@ == account_id && results.last().key@ == key {
        Some(results.last().usage@)
    } else {
        last_usage(results.drop_last(), account_id, key)
    }
}

/// The loaded usage of `(account_id, key)`, the last one where several were loaded.
pub fn lookup_usage(results: &Vec<AccountUsageWindowResult>, account_id: &str, key: &str) -> (r: Option<AccountUsage>)
    ensures
        usage_opt_view(r) == last_usage(results@, account_id@, key@),
{
    let mut i: usize = results.len();
    assert(results@.take(i as int) =~= results@);
    while i > 0
        invariant
            i <= results.len(),
            last_usage(results@, account_id@, key@) == last_usage(results@.take(i as int), account_id@, key@),
        decreases i,
    {
        let r = &results[i - 1];
        assert(results@.take(i as int).last() == results@[i - 1]);
        assert(results@.take(i as int).drop_last() =~= results@.take(i - 1));
        if same_text(r.account_id.as_str(), account_id) && same_text(r.key.as_str(), key) {
            return Some(r.usage.duplicate());
        }
        i = i - 1;
    }
    None
}

/// A quota window with the usage loaded for it, where some was loaded.
pub open spec fn attached_window(w: ProviderQuotaWindowView, account_id: Seq<char>, results: Seq<AccountUsageWindowResult>) -> ProviderQuotaWindowView {
    match last_usage(results, account_id, w.key@) {
        Some(u) => ProviderQuotaWindowView { local_usage: Some(u), ..w },
        None => w,
    }
}

/// A quota with the loaded usage attached to each of its windows.
pub open spec fn attached_quota(q: ProviderQuotaView, account_id: Seq<char>, results: Seq<AccountUsageWindowResult>) -> ProviderQuotaView {
    ProviderQuotaView {
        windows: q.windows.map_values(|w: ProviderQuotaWindowView| attached_window(w, account_id, results)),
        ..q
    }
}

/// The local usage of the window that the quota's usage summary follows.
pub open spec fn quota_usage(q: ProviderQuotaView) -> Option<AccountUsageValue> {
    match q.usage_window {
        Some(w) => if w.index < q.windows.len() { q.windows[w.index as int].local_usage } else { None },
        None => None,
    }
}

fn attach_window(window: ProviderQuotaWindow, account_id: &str, results: &Vec<AccountUsageWindowResult>) -> (r: ProviderQuotaWindow)
    ensures
        r@ == attached_window(window@, account_id@, results@),
{
    match lookup_usage(results, account_id, window.key.as_str()) {
        Some(u) => ProviderQuotaWindow { local_usage: Some(u), ..window },
        None => window,
    }
}

fn attach_quota(quota: ProviderQuota, account_id: &str, results: &Vec<AccountUsageWindowResult>) -> (r: ProviderQuota)
    ensures
        r@ == attached_quota(quota@, account_id@, results@),
{
    let ghost before = quota@;
    let ProviderQuota { observed_at, limit_reached, windows, usage_window } = quota;
    let ghost ws = windows@;
    let mut out: Vec<ProviderQuotaWindow> = Vec::new();
    for w in it: windows.into_iter()
        invariant
            it.seq() == ws,
            out@.len() == it.index(),
            forall|k: int| 0 <= k < it.index() ==> #[trigger] out@[k]@ == attached_window(ws[k]@, account_id@, results@),
    {
        let ghost i = it.index() as int;
        out.push(attach_window(w, account_id, results));
    }
    let r = ProviderQuota { observed_at, limit_reached, windows: out, usage_window };
    assert(r@.windows =~= before.windows.map_values(|w: ProviderQuotaWindowView| attached_window(w, account_id@, results@)));
    r
}

/// The local usage of the window that `quota`'s usage summary follows.
pub fn usage_of_quota(quota: &ProviderQuota) -> (r: Option<AccountUsage>)
    ensures
        usage_opt_view(r) == quota_usage(quota@),
{
    match quota.usage_window {
        Some(w) => if w.index < quota.windows.len() {
            copy_usage(&quota.windows[w.index].local_usage)
        } else {
            None
        },
        None => None,
    }
}

/// Abstract value of an account snapshot.
pub struct SnapshotView {
    pub item: AccountPageItem,
    pub plan_type_display: Option<String>,
    pub availability: KeyUsageQuotaAvailability,
    pub quota: Option<ProviderQuotaView>,
    pub usage: Option<AccountUsageValue>,
    pub authorized: bool,
}

impl View for KeyUsageAccountSnapshot {
    type V = SnapshotView;

    open spec fn view(&self) -> SnapshotView {
        SnapshotView {
            item: self.item,
            plan_type_display: self.plan_type_display,
            availability: self.quota.availability,
            quota: match self.quota.value {
                Some(q) => Some(q@),
                None => None,
            },
            usage: usage_opt_view(self.usage),
            authorized: self.authorized,
        }
    }
}

/// An account snapshot with its loaded usage: an API-key account takes the
/// usage of its lifetime window; another account with a quota takes the usage
/// of each quota window into that window and, as its own usage, that of the
/// window its summary follows; an account without a quota is left as it is.
pub open spec fn attached_snapshot(s: SnapshotView, results: Seq<AccountUsageWindowResult>) -> SnapshotView {
    let id = s.item.account.id@;
    if s.item.account.authentication_kind@ == api_key_kind() {
        SnapshotView { usage: last_usage(results, id, lifetime_window_key()), ..s }
    } else {
        match s.quota {
            Some(q) => {
                let attached = attached_quota(q, id, results);
                SnapshotView { quota: Some(attached), usage: quota_usage(attached), ..s }
            },
            None => s,
        }
    }
}

fn attach_snapshot(snapshot: KeyUsageAccountSnapshot, results: &Vec<AccountUsageWindowResult>) -> (r: KeyUsageAccountSnapshot)
    ensures
        r@ == attached_snapshot(snapshot@, results@),
{
    let ghost before = snapshot@;
    let KeyUsageAccountSnapshot { item, plan_type_display, quota, usage, authorized } = snapshot;
    if is_api_key(item.account.authentication_kind.as_str()) {
        let usage = lookup_usage(results, item.account.id.as_str(), "account-lifetime");
        proof {
            reveal_strlit("account-lifetime");
        }
        KeyUsageAccountSnapshot { item, plan_type_display, quota, usage, authorized }
    } else {
        let KeyUsageAccountQuota { availability, value } = quota;
        match value {
            Some(q) => {
                let attached = attach_quota(q, item.account.id.as_str(), results);
                let usage = usage_of_quota(&attached);
                KeyUsageAccountSnapshot {
                    item,
                    plan_type_display,
                    quota: KeyUsageAccountQuota { availability, value: Some(attached) },
                    usage,
                    authorized,
                }
            },
            None => KeyUsageAccountSnapshot {
                item,
                plan_type_display,
                quota: KeyUsageAccountQuota { availability, value: None },
                usage,
                authorized,
            },
        }
    }
}

/// Abstract values of a sequence of snapshots.
pub open spec fn snapshot_views(v: Seq<KeyUsageAccountSnapshot>) -> Seq<SnapshotView> {
    v.map_values(|s: KeyUsageAccountSnapshot| s@)
}

/// The snapshots with the loaded usage attached; where no usage window was
/// asked for, the snapshots are kept as they are.
pub fn attach_usage(snapshots: Vec<KeyUsageAccountSnapshot>, windows: &Vec<AccountUsageWindowQuery>, results: &Vec<AccountUsageWindowResult>) -> (r: Vec<KeyUsageAccountSnapshot>)
    ensures
        windows.len() == 0 ==> snapshot_views(r@) == snapshot_views(snapshots@),
        windows.len() > 0 ==> snapshot_views(r@) == snapshot_views(snapshots@).map_values(|s: SnapshotView| attached_snapshot(s, results@)),
        r@.len() == snapshots@.len(),
        forall|i: int| 0 <= i < snapshots@.len() && classified(snapshots@[i]@.availability, snapshots@[i]@.quota)
            ==> classified((#[trigger] r@[i])@.availability, r@[i]@.quota),
{
    if windows.len() == 0 {
        return snapshots;
    }
    let ghost before = snapshots@;
    let mut out: Vec<KeyUsageAccountSnapshot> = Vec::new();
    for s in it: snapshots.into_iter()
        invariant
            it.seq() == before,
            out@.len() == it.index(),
            forall|k: int| 0 <= k < it.index() ==> #[trigger] out@[k]@ == attached_snapshot(before[k]@, results@),
    {
        out.push(attach_snapshot(s, results));
    }
    assert(snapshot_views(out@) =~= snapshot_views(before).map_values(|s: SnapshotView| attached_snapshot(s, results@)));
    out
}

/// Abstract value of a usage window query: account, window key and range.
pub open spec fn query_view(q: AccountUsageWindowQuery) -> (Seq<char>, Seq<char>, TimeRange) {
    (q.account_id@, q.key@, q.range)
}

/// Usage loaded for `(account_id, key)` is the usage of one of the loaded
/// results for that account and window.
proof fn lemma_last_usage_found(results: Seq<AccountUsageWindowResult>, account_id: Seq<char>, key: Seq<char>)
    requires
        last_usage(results, account_id, key) is Some,
    ensures
        exists|j: int| 0 <= j < results.len() && #[trigger] results[j].account_id@ == account_id
            && results[j].key@ == key && Some(results[j].usage@) == last_usage(results, account_id, key),
    decreases results.len(),
{
    let n = results.len() - 1;
    if results.last().account_id@ == account_id && results.last().key@ == key {
        assert(results[n].account_id@ == account_id);
    } else {
        lemma_last_usage_found(results.drop_last(), account_id, key);
        let j = choose|j: int| 0 <= j < results.drop_last().len() && #[trigger] results.drop_last()[j].account_id@ == account_id
            && results.drop_last()[j].key@ == key && Some(results.drop_last()[j].usage@) == last_usage(results.drop_last(), account_id, key);
        assert(results[j] == results.drop_last()[j]);
    }
}

/// An account is shown only usage that was loaded for that same account, or
/// usage that it already carried: attaching loaded results never moves one
/// account's usage onto another.
pub proof fn lemma_usage_comes_from_own_account(s: SnapshotView, results: Seq<AccountUsageWindowResult>)
    requires
        attached_snapshot(s, results).usage is Some,
    ensures
        ({
            let u = attached_snapshot(s, results).usage;
            ||| exists|j: int| 0 <= j < results.len() && #[trigger] results[j].account_id@ == s.item.account.id@ && Some(results[j].usage@) == u
            ||| s.usage == u
            ||| s.quota matches Some(q) && quota_usage(q) == u
        }),
{
    let id = s.item.account.id@;
    if s.item.account.authentication_kind@ == api_key_kind() {
        lemma_last_usage_found(results, id, lifetime_window_key());
    } else if let Some(q) = s.quota {
        let attached = attached_quota(q, id, results);
        if let Some(w) = q.usage_window {
            if w.index < q.windows.len() {
                let orig = q.windows[w.index as int];
                assert(attached.windows[w.index as int] == attached_window(orig, id, results));
                if last_usage(results, id, orig.key@) is Some {
                    lemma_last_usage_found(results, id, orig.key@);
                }
            }
        }
    }
}

/// The usage windows implied by quota windows of one account, in order.
pub open spec fn window_queries(account_id: Seq<char>, ws: Seq<ProviderQuotaWindowView>) -> Seq<(Seq<char>, Seq<char>, TimeRange)>
    decreases ws.len(),
{
    if ws.len() == 0 {
        Seq::empty()
    } else {
        let w = ws.last();
        window_queries(account_id, ws.drop_last()) + match window_range(w.local_usage_attribution, w.reset_at, w.window_seconds) {
            Some(range) => seq![(account_id, w.key@, range)],
            None => Seq::empty(),
        }
    }
}

/// The usage windows of one account: an API-key account's whole life up to
/// `now`, or the windows implied by its quota.
pub open spec fn snapshot_queries(s: SnapshotView, now: Timestamp) -> Seq<(Seq<char>, Seq<char>, TimeRange)> {
    let id = s.item.account.id@;
    if s.item.account.authentication_kind@ == api_key_kind() {
        seq![(id, lifetime_window_key(), TimeRange { start: s.item.account.created_at, end: now })]
    } else {
        match s.quota {
            Some(q) => window_queries(id, q.windows),
            None => Seq::empty(),
        }
    }
}

/// The usage windows of all accounts, in order.
pub open spec fn usage_window_queries(snaps: Seq<SnapshotView>, now: Timestamp) -> Seq<(Seq<char>, Seq<char>, TimeRange)>
    decreases snaps.len(),
{
    if snaps.len() == 0 {
        Seq::empty()
    } else {
        usage_window_queries(snaps.drop_last(), now) + snapshot_queries(snaps.last(), now)
    }
}

proof fn lemma_window_queries_name_own_windows(account_id: Seq<char>, ws: Seq<ProviderQuotaWindowView>)
    ensures
        forall|q: (Seq<char>, Seq<char>, TimeRange)| #[trigger] window_queries(account_id, ws).contains(q) ==> q.0 == account_id
            && exists|w: int| 0 <= w < ws.len() && q.1 == (#[trigger] ws[w]).key@
                && window_range(ws[w].local_usage_attribution, ws[w].reset_at, ws[w].window_seconds) == Some(q.2),
    decreases ws.len(),
{
    if ws.len() > 0 {
        let init = ws.drop_last();
        lemma_window_queries_name_own_windows(account_id, init);
        let w = ws.last();
        let tail: Seq<(Seq<char>, Seq<char>, TimeRange)> = match window_range(w.local_usage_attribution, w.reset_at, w.window_seconds) {
            Some(range) => seq![(account_id, w.key@, range)],
            None => Seq::empty(),
        };
        let all = window_queries(account_id, ws);
        let a = window_queries(account_id, init);
        assert(all == a + tail);
        assert forall|q: (Seq<char>, Seq<char>, TimeRange)| #[trigger] all.contains(q) implies q.0 == account_id
            && exists|v: int| 0 <= v < ws.len() && q.1 == (#[trigger] ws[v]).key@
                && window_range(ws[v].local_usage_attribution, ws[v].reset_at, ws[v].window_seconds) == Some(q.2) by {
            let p = choose|p: int| 0 <= p < all.len() && all[p] == q;
            if p < a.len() {
                assert(a[p] == all[p]);
                assert(a.contains(q));
                let v = choose|v: int| 0 <= v < init.len() && q.1 == (#[trigger] init[v]).key@
                    && window_range(init[v].local_usage_attribution, init[v].reset_at, init[v].window_seconds) == Some(q.2);
                assert(ws[v] == init[v]);
            } else {
                assert(tail[p - a.len()] == q);
                assert(ws[ws.len() - 1] == w);
            }
        }
    }
}

/// The usage windows asked for belong to the listed accounts: an API-key
/// account asks for its whole life, from its creation to `now`, under the
/// lifetime key; any other account asks only for windows of its own quota,
/// each ending at that window's reset.
pub proof fn lemma_usage_windows_belong_to_listed_accounts(snaps: Seq<SnapshotView>, now: Timestamp)
    ensures
        forall|q: (Seq<char>, Seq<char>, TimeRange)| #[trigger] usage_window_queries(snaps, now).contains(q)
            ==> exists|k: int| 0 <= k < snaps.len() && q.0 == (#[trigger] snaps[k]).item.account.id@ && {
                let s = snaps[k];
                if s.item.account.authentication_kind@ == "api_key"@ {
                    q.1 == "account-lifetime"@ && q.2 == (TimeRange { start: s.item.account.created_at, end: now })
                } else {
                    s.quota is Some && exists|w: int| 0 <= w < s.quota->0.windows.len()
                        && q.1 == (#[trigger] s.quota->0.windows[w]).key@
                        && s.quota->0.windows[w].local_usage_attribution == QuotaLocalUsageAttribution::AccountWide
                        && s.quota->0.windows[w].reset_at == Some(q.2.end)
                        && earlier(q.2.start, q.2.end)
                }
            },
    decreases snaps.len(),
{
    if snaps.len() > 0 {
        let init = snaps.drop_last();
        lemma_usage_windows_belong_to_listed_accounts(init, now);
        let last = snaps.last();
        let all = usage_window_queries(snaps, now);
        let a = usage_window_queries(init, now);
        let tail = snapshot_queries(last, now);
        assert(all == a + tail);
        if last.item.account.authentication_kind@ != api_key_kind() {
            if let Some(qv) = last.quota {
                lemma_window_queries_name_own_windows(last.item.account.id@, qv.windows);
            }
        }
        assert forall|q: (Seq<char>, Seq<char>, TimeRange)| #[trigger] all.contains(q)
            implies exists|k: int| 0 <= k < snaps.len() && q.0 == (#[trigger] snaps[k]).item.account.id@ && {
                let s = snaps[k];
                if s.item.account.authentication_kind@ == "api_key"@ {
                    q.1 == "account-lifetime"@ && q.2 == (TimeRange { start: s.item.account.created_at, end: now })
                } else {
                    s.quota is Some && exists|w: int| 0 <= w < s.quota->0.windows.len()
                        && q.1 == (#[trigger] s.quota->0.windows[w]).key@
                        && s.quota->0.windows[w].local_usage_attribution == QuotaLocalUsageAttribution::AccountWide
                        && s.quota->0.windows[w].reset_at == Some(q.2.end)
                        && earlier(q.2.start, q.2.end)
                }
            } by {
            let p = choose|p: int| 0 <= p < all.len() && all[p] == q;
            if p < a.len() {
                assert(a[p] == all[p]);
                assert(a.contains(q));
                let k = choose|k: int| 0 <= k < init.len() && q.0 == (#[trigger] init[k]).item.account.id@ && {
                    let s = init[k];
                    if s.item.account.authentication_kind@ == "api_key"@ {
                        q.1 == "account-lifetime"@ && q.2 == (TimeRange { start: s.item.account.created_at, end: now })
                    } else {
                        s.quota is Some && exists|w: int| 0 <= w < s.quota->0.windows.len()
                            && q.1 == (#[trigger] s.quota->0.windows[w]).key@
                            && s.quota->0.windows[w].local_usage_attribution == QuotaLocalUsageAttribution::AccountWide
                            && s.quota->0.windows[w].reset_at == Some(q.2.end)
                            && earlier(q.2.start, q.2.end)
                    }
                };
                assert(snaps[k] == init[k]);
            } else {
                let k = snaps.len() - 1;
                assert(snaps[k] == last);
                assert(tail[p - a.len()] == q);
                assert(tail.contains(q));
                if last.item.account.authentication_kind@ != api_key_kind() {
                    let qv = last.quota->0;
                    let w = choose|w: int| 0 <= w < qv.windows.len() && q.1 == (#[trigger] qv.windows[w]).key@
                        && window_range(qv.windows[w].local_usage_attribution, qv.windows[w].reset_at, qv.windows[w].window_seconds) == Some(q.2);
                    assert(qv.windows[w].local_usage_attribution == QuotaLocalUsageAttribution::AccountWide);
                }
            }
        }
    }
}

fn quota_window_queries(account_id: &String, quota: &ProviderQuota, out: &mut Vec<AccountUsageWindowQuery>)
    ensures
        final(out)@.map_values(|q: AccountUsageWindowQuery| query_view(q)) == old(out)@.map_values(|q: AccountUsageWindowQuery| query_view(q)) + window_queries(account_id@, quota@.windows),
{
    let ghost start = out@.map_values(|q: AccountUsageWindowQuery| query_view(q));
    let ghost ws = quota@.windows;
    assert(ws.take(0) =~= Seq::<ProviderQuotaWindowView>::empty());
    assert(start + Seq::empty() =~= start);
    for i in 0..quota.windows.len()
        invariant
            ws == quota@.windows,
            out@.map_values(|q: AccountUsageWindowQuery| query_view(q)) == start + window_queries(account_id@, ws.take(i as int)),
    {
        let ghost before = out@;
        assert(ws.take(i + 1).drop_last() =~= ws.take(i as int));
        assert(ws.take(i + 1).last() == quota.windows@[i as int]@);
        match quota_usage_window(account_id, &quota.windows[i]) {
            Some(q) => {
                out.push(q);
                assert(out@.map_values(|q: AccountUsageWindowQuery| query_view(q)) =~= before.map_values(|q: AccountUsageWindowQuery| query_view(q)).push(query_view(q)));
            },
            None => {},
        }
        assert(out@.map_values(|q: AccountUsageWindowQuery| query_view(q)) =~= start + window_queries(account_id@, ws.take(i + 1)));
    }
    assert(ws.take(quota.windows.len() as int) =~= ws);
}

/// The usage windows to load for the snapshots, at the instant `now`.
pub fn usage_windows(snapshots: &Vec<KeyUsageAccountSnapshot>, now: Timestamp) -> (out: Vec<AccountUsageWindowQuery>)
    ensures
        out@.map_values(|q: AccountUsageWindowQuery| query_view(q)) == usage_window_queries(snapshot_views(snapshots@), now),
{
    let ghost views = snapshot_views(snapshots@);
    let mut out: Vec<AccountUsageWindowQuery> = Vec::new();
    assert(views.take(0) =~= Seq::<SnapshotView>::empty());
    assert(out@.map_values(|q: AccountUsageWindowQuery| query_view(q)) =~= Seq::empty());
    for i in 0..snapshots.len()
        invariant
            views == snapshot_views(snapshots@),
            out@.map_values(|q: AccountUsageWindowQuery| query_view(q)) == usage_window_queries(views.take(i as int), now),
    {
        let ghost before = out@.map_values(|q: AccountUsageWindowQuery| query_view(q));
        assert(views.take(i + 1).drop_last() =~= views.take(i as int));
        assert(views.take(i + 1).last() == snapshots@[i as int]@);
        let s = &snapshots[i];
        let account = &s.item.account;
        if is_api_key(account.authentication_kind.as_str()) {
            proof {
                reveal_strlit("account-lifetime");
            }
            let q = AccountUsageWindowQuery {
                account_id: account.id.clone(),
                key: String::from_str("account-lifetime"),
                range: TimeRange { start: account.created_at, end: now },
            };
            let ghost prev = out@;
            out.push(q);
            assert(out@.map_values(|q: AccountUsageWindowQuery| query_view(q)) =~= prev.map_values(|q: AccountUsageWindowQuery| query_view(q)).push(query_view(q)));
            assert(out@.map_values(|q: AccountUsageWindowQuery| query_view(q)) =~= usage_window_queries(views.take(i + 1), now));
        } else {
            match &s.quota.value {
                Some(quota) => {
                    quota_window_queries(&account.id, quota, &mut out);
                },
                None => {
                    assert(before + Seq::empty() =~= before);
                },
            }
        }
    }
    assert(views.take(snapshots.len() as int) =~= views);
    out
}

/// The accounts to load for a page of ids; nothing is read for an empty page.
pub fn account_loads(ids: Vec<String>) -> (r: Option<Vec<String>>)
    ensures
        ids@.len() == 0 <==> r is None,
        r matches Some(v) ==> v@ == ids@,
{
    if ids.len() == 0 {
        None
    } else {
        Some(ids)
    }
}

/// The usage windows to read; nothing is read when no window is asked for.
pub fn usage_loads(windows: &Vec<AccountUsageWindowQuery>) -> (r: Option<Vec<AccountUsageWindowQuery>>)
    ensures
        windows@.len() == 0 <==> r is None,
        r matches Some(v) ==> v@.map_values(|q: AccountUsageWindowQuery| query_view(q)) == windows@.map_values(|q: AccountUsageWindowQuery| query_view(q)),
{
    if windows.len() == 0 {
        return None;
    }
    let mut out: Vec<AccountUsageWindowQuery> = Vec::new();
    for i in 0..windows.len()
        invariant
            out@.map_values(|q: AccountUsageWindowQuery| query_view(q)) == windows@.take(i as int).map_values(|q: AccountUsageWindowQuery| query_view(q)),
    {
        let w = &windows[i];
        let ghost before = out@;
        out.push(AccountUsageWindowQuery { account_id: w.account_id.clone(), key: w.key.clone(), range: w.range });
        assert(out@.map_values(|q: AccountUsageWindowQuery| query_view(q)) =~= before.map_values(|q: AccountUsageWindowQuery| query_view(q)).push(query_view(windows@[i as int])));
        assert(windows@.take(i + 1).map_values(|q: AccountUsageWindowQuery| query_view(q)) =~= windows@.take(i as int).map_values(|q: AccountUsageWindowQuery| query_view(q)).push(query_view(windows@[i as int])));
    }
    assert(windows@.take(windows.len() as int) =~= windows@);
    Some(out)
}

/// Attaching loaded usage keeps every account's quota classified as it was:
/// only the local usage of its windows changes.
pub proof fn lemma_attach_keeps_quota_classified(s: SnapshotView, results: Seq<AccountUsageWindowResult>)
    requires
        classified(s.availability, s.quota),
    ensures
        classified(attached_snapshot(s, results).availability, attached_snapshot(s, results).quota),
{
}

/// A snapshot's quota stays classified through the whole pipeline: when
/// every quota handed to `assemble_snapshots` is consistent (as `quota_plan`
/// and `quota_from_snapshot` ensure), every snapshot it returns is classified,
/// and so is every snapshot that `attach_usage` makes of it with any loaded
/// results: a quota value is held exactly when the quota is available or
/// unobserved, an observed quota or one with windows is available, and any
/// other held quota is unobserved.
pub proof fn lemma_snapshot_quotas_classified(
    quotas: Seq<KeyUsageAccountQuota>,
    snapshots: Seq<KeyUsageAccountSnapshot>,
    results: Seq<AccountUsageWindowResult>,
)
    requires
        snapshots.len() <= quotas.len(),
        forall|i: int| 0 <= i < quotas.len() ==> #[trigger] quota_consistent(quotas[i]),
        forall|i: int| 0 <= i < snapshots.len() ==> (#[trigger] snapshots[i]).quota == quotas[i],
    ensures
        forall|i: int| 0 <= i < snapshots.len() ==> classified((#[trigger] snapshots[i])@.availability, snapshots[i]@.quota),
        forall|i: int| 0 <= i < snapshots.len() ==> {
            let a = attached_snapshot((#[trigger] snapshots[i])@, results);
            &&& classified(a.availability, a.quota)
            &&& a.quota is Some <==> (a.availability == KeyUsageQuotaAvailability::Available || a.availability == KeyUsageQuotaAvailability::Unobserved)
            &&& a.availability == KeyUsageQuotaAvailability::Unobserved ==> (a.quota matches Some(q) && q.observed_at is None && q.windows.len() == 0)
            &&& a.availability == KeyUsageQuotaAvailability::Available ==> (a.quota matches Some(q) && (q.observed_at is Some || q.windows.len() > 0))
        },
{
    assert forall|i: int| 0 <= i < snapshots.len() implies classified((#[trigger] snapshots[i])@.availability, snapshots[i]@.quota) by {
        assert(quota_consistent(quotas[i]));
    }
    assert forall|i: int| 0 <= i < snapshots.len() implies {
        let a = attached_snapshot((#[trigger] snapshots[i])@, results);
        &&& classified(a.availability, a.quota)
        &&& a.quota is Some <==> (a.availability == KeyUsageQuotaAvailability::Available || a.availability == KeyUsageQuotaAvailability::Unobserved)
        &&& a.availability == KeyUsageQuotaAvailability::Unobserved ==> (a.quota matches Some(q) && q.observed_at is None && q.windows.len() == 0)
        &&& a.availability == KeyUsageQuotaAvailability::Available ==> (a.quota matches Some(q) && (q.observed_at is Some || q.windows.len() > 0))
    } by {
        assert(quota_consistent(quotas[i]));
        lemma_attach_keeps_quota_classified(snapshots[i]@, results);
    }
}

/// Snapshots of the loaded accounts, paired position by position with their
/// quotas and plan display names (as far as all three reach), with no usage
/// yet; an account is authorized exactly when the key holds a grant on it
/// in `scope`.
pub fn assemble_snapshots(
    items: Vec<AccountPageItem>,
    quotas: Vec<KeyUsageAccountQuota>,
    plan_type_displays: Vec<Option<String>>,
    scope: &AccountScope,
) -> (r: Vec<KeyUsageAccountSnapshot>)
    ensures
        r@.len() <= items@.len() && r@.len() <= quotas@.len() && r@.len() <= plan_type_displays@.len(),
        r@.len() == items@.len() || r@.len() == quotas@.len() || r@.len() == plan_type_displays@.len(),
        forall|i: int| 0 <= i < r@.len() ==> (#[trigger] r@[i]).item == items@[i] && r@[i].quota == quotas@[i]
            && r@[i].plan_type_display == plan_type_displays@[i] && r@[i].usage is None
            && r@[i].authorized == scope.spec_granted().contains(items@[i].account.id@),
        forall|i: int| 0 <= i < r@.len() && quota_consistent(quotas@[i])
            ==> classified((#[trigger] r@[i])@.availability, r@[i]@.quota),
{
    let ghost (i0, q0, p0) = (items@, quotas@, plan_type_displays@);
    let mut items = items;
    let mut quotas = quotas;
    let mut plan_type_displays = plan_type_displays;
    let mut out: Vec<KeyUsageAccountSnapshot> = Vec::new();
    while items.len() > 0 && quotas.len() > 0 && plan_type_displays.len() > 0
        invariant
            out@.len() <= i0.len() && out@.len() <= q0.len() && out@.len() <= p0.len(),
            items@ == i0.skip(out@.len() as int),
            quotas@ == q0.skip(out@.len() as int),
            plan_type_displays@ == p0.skip(out@.len() as int),
            forall|i: int| 0 <= i < out@.len() ==> (#[trigger] out@[i]).item == i0[i] && out@[i].quota == q0[i]
                && out@[i].plan_type_display == p0[i] && out@[i].usage is None
                && out@[i].authorized == scope.spec_granted().contains(i0[i].account.id@),
        decreases items@.len(),
    {
        let n = out.len();
        let item = items.remove(0);
        let quota = quotas.remove(0);
        let plan_type_display = plan_type_displays.remove(0);
        assert(i0.skip(n as int).drop_first() =~= i0.skip(n + 1));
        assert(q0.skip(n as int).drop_first() =~= q0.skip(n + 1));
        assert(p0.skip(n as int).drop_first() =~= p0.skip(n + 1));
        let granted = scope.is_granted(item.account.id.as_str());
        out.push(KeyUsageAccountSnapshot { item, plan_type_display, quota, usage: None, authorized: granted });
    }
    out
}

} // verus!
