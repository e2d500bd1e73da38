//! The query and result types of a key's self-service usage pages. The
//! identity scope is never part of a query: it comes from the session.

use vstd::prelude::*;
use crate::time::TimeRange;
use crate::keys::ClientKeyRecord;
use crate::observability::{UsageOverview, RequestMetricPoint, UsagePage, OpsErrorPage};
use crate::accounts::{AccountPageItem, AccountUsage, ProviderQuota};

verus! {

/// Smallest page size a query may ask for.
pub const MIN_PAGE_SIZE: u16 = 1;

/// Largest page size a query may ask for.
pub const MAX_PAGE_SIZE: u16 = 100;

/// A page size between 1 and 100.
#[derive(Clone, Copy, Debug, PartialEq, Eq)]
pub struct PageSize {
    value: u16,
}

impl PageSize {
    #[verifier::type_invariant]
    spec fn in_bounds(self) -> bool {
        MIN_PAGE_SIZE <= self.value <= MAX_PAGE_SIZE
    }

    /// The number of items per page.
    pub closed spec fn spec_get(self) -> u16 {
        self.value
    }

    /// A page size of `value` items; refused outside 1 to 100.
    pub fn new(value: u16) -> (r: Option<PageSize>)
        ensures
            r is Some <==> MIN_PAGE_SIZE <= value <= MAX_PAGE_SIZE,
            r matches Some(p) ==> p.spec_get() == value,
    {
        if MIN_PAGE_SIZE <= value && value <= MAX_PAGE_SIZE {
            Some(PageSize { value })
        } else {
            None
        }
    }

    /// The number of items per page.
    pub fn get(&self) -> (n: u16)
        ensures
            n == self.spec_get(),
            MIN_PAGE_SIZE <= n <= MAX_PAGE_SIZE,
    {
        proof {
            use_type_invariant(self);
        }
        self.value
    }
}

/// A usage query of the session's key: a range and, optionally, one model.
#[derive(Clone, Debug, PartialEq, Eq)]
pub struct KeyUsageQuery {
    pub range: TimeRange,
    pub model: Option<String>,
}

/// Which records to list: successful requests or failed ones.
#[derive(Clone, Copy, Debug, PartialEq, Eq, Structural)]
pub enum KeyUsageRecordKind {
    Success,
    Error,
}

/// A page of the session key's records.
#[derive(Clone, Debug, PartialEq, Eq)]
pub struct KeyUsageRecordsQuery {
    pub usage: KeyUsageQuery,
    pub kind: KeyUsageRecordKind,
    pub current_page: u32,
    pub page_size: PageSize,
}

/// The overview of the session's key; `H` is the health timeline of today.
#[derive(Clone, Debug, PartialEq, Eq)]
pub struct KeyUsageOverview<H> {
    pub key: ClientKeyRecord,
    pub overview: UsageOverview,
    pub trend: Vec<RequestMetricPoint>,
    pub health_timeline: H,
}

/// A page of records of either kind.
#[derive(Clone, Debug, PartialEq, Eq)]
pub enum KeyUsageRecords {
    Success(UsagePage),
    Error(OpsErrorPage),
}

/// A page of the accounts in the key's scope.
#[derive(Clone, Copy, Debug, PartialEq, Eq)]
pub struct KeyUsageAccountListQuery {
    pub current_page: u32,
    pub page_size: PageSize,
}

/// One account of the key's scope, by id.
#[derive(Clone, Debug, PartialEq, Eq)]
pub struct KeyUsageAccountDetailQuery {
    pub account_id: String,
}

/// How a key's account scope stands.
#[derive(Clone, Copy, Debug, PartialEq, Eq, Structural)]
pub enum KeyUsageAccountScopeState {
    /// The key is bound to no routing group and granted none.
    Unbound,
    /// The key's routing groups are all disabled and it is granted none.
    NoEnabledGroups,
    /// The key has enabled routing groups or granted groups.
    Available,
}

/// How an account's quota could be read.
#[derive(Clone, Copy, Debug, PartialEq, Eq, Structural)]
pub enum KeyUsageQuotaAvailability {
    Available,
    Unsupported,
    Unobserved,
    Unavailable,
}

/// An account's quota and how it could be read.
#[derive(Clone, Debug, PartialEq, Eq)]
pub struct KeyUsageAccountQuota {
    pub availability: KeyUsageQuotaAvailability,
    pub value: Option<ProviderQuota>,
}

/// An account of the key's scope with its quota and usage; `authorized` says
/// whether the key holds an explicit grant on it.
#[derive(Clone, Debug, PartialEq, Eq)]
pub struct KeyUsageAccountSnapshot {
    pub item: AccountPageItem,
    pub plan_type_display: Option<String>,
    pub quota: KeyUsageAccountQuota,
    pub usage: Option<AccountUsage>,
    pub authorized: bool,
}

/// A page of the accounts in the key's scope.
#[derive(Clone, Debug, PartialEq, Eq)]
pub struct KeyUsageAccountList {
    pub scope_state: KeyUsageAccountScopeState,
    pub items: Vec<KeyUsageAccountSnapshot>,
    pub current_page: u32,
    pub page_size: u16,
    pub total: u64,
}

} // verus!
