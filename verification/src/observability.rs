//! Usage observations of a key: metrics, records, and the queries that read
//! them, every one of which is filtered to the session's own key.

use vstd::prelude::*;
use crate::time::{Timestamp, TimeRange, earlier, instant_of, chrono_rfc3339, parse_instant, spec_china_day_start, china_day_start, DAY_SECS, CHINA_OFFSET_SECS};
use crate::model::{KeyUsageQuery, KeyUsageRecordKind, KeyUsageRecordsQuery, PageSize, MIN_PAGE_SIZE, MAX_PAGE_SIZE};
use crate::text::{chars_of, trim, trimmed, same_text};

verus! {

/// Request and token counts over some span.
#[derive(Clone, Copy, Debug, PartialEq, Eq, Structural)]
pub struct RequestMetrics {
    pub request_count: u64,
    pub input_tokens: u64,
    pub output_tokens: u64,
    pub cached_tokens: u64,
    pub cache_write_tokens: u64,
    pub reasoning_tokens: u64,
    pub total_tokens: u64,
}

/// An amount spent in one currency, as canonical decimal text.
#[derive(Clone, Debug, PartialEq, Eq)]
pub struct CurrencyCost {
    pub currency: String,
    pub amount: String,
}

/// How many attempts could be priced only in part, or not at all.
#[derive(Clone, Copy, Debug, PartialEq, Eq, Structural)]
pub struct CostCoverage {
    pub partial_count: u64,
    pub unavailable_count: u64,
}

/// Costs of the upstream attempts.
#[derive(Clone, Debug, PartialEq, Eq)]
pub struct AttemptCosts {
    pub costs: Vec<CurrencyCost>,
    pub cost_coverage: CostCoverage,
}

/// Totals of a key's usage over a range.
#[derive(Clone, Debug, PartialEq, Eq)]
pub struct UsageOverview {
    pub range: TimeRange,
    pub requests: RequestMetrics,
    pub attempts: AttemptCosts,
}

/// Width of a trend bucket.
#[derive(Clone, Copy, Debug, PartialEq, Eq, Structural)]
pub enum Granularity {
    FifteenMinutes,
    Hour,
    Day,
}

/// One bucket of a usage trend.
#[derive(Clone, Debug, PartialEq, Eq)]
pub struct RequestMetricPoint {
    pub bucket_start: Timestamp,
    pub granularity: Granularity,
    pub metrics: RequestMetrics,
    pub costs: Vec<CurrencyCost>,
    pub cost_coverage: CostCoverage,
}

/// Token counts of one request.
#[derive(Clone, Copy, Debug, PartialEq, Eq, Structural)]
pub struct TokenDetails {
    pub input_tokens: u64,
    pub output_tokens: u64,
    pub cached_tokens: u64,
    pub cache_write_tokens: u64,
    pub reasoning_tokens: u64,
    pub total_tokens: u64,
}

/// What one request was billed.
#[derive(Clone, Debug, PartialEq, Eq)]
pub struct BillingDetails {
    pub currency: String,
    pub total_amount: String,
}

/// A successful request as stored, including data meant for administrators only.
#[derive(Clone, Debug, PartialEq, Eq)]
pub struct UsageListRecord {
    pub id: String,
    pub started_at: Timestamp,
    pub requested_model_id: Option<String>,
    pub endpoint: String,
    pub reasoning_effort: Option<String>,
    pub client_transport: String,
    pub upstream_transport: Option<String>,
    pub tokens: TokenDetails,
    pub billing: Option<BillingDetails>,
    pub latency_ms: Option<u64>,
    pub first_token_ms: Option<u64>,
    pub first_event_ms: Option<u64>,
    pub first_reasoning_ms: Option<u64>,
    pub first_text_ms: Option<u64>,
    pub client_ip: Option<String>,
    pub user_agent: Option<String>,
    pub provider_account_ref: Option<String>,
    pub upstream_request_id: Option<String>,
}

/// A failed request as stored, including data meant for administrators only.
#[derive(Clone, Debug, PartialEq, Eq)]
pub struct OpsError {
    pub event_id: String,
    pub occurred_at: Timestamp,
    pub requested_model_id: Option<String>,
    pub endpoint: Option<String>,
    pub reasoning_effort: Option<String>,
    pub client_transport: Option<String>,
    pub upstream_transport: Option<String>,
    pub latency_ms: Option<u64>,
    pub client_ip: Option<String>,
    pub user_agent: Option<String>,
    pub client_status_code: Option<u16>,
    pub upstream_status_code: Option<u16>,
    pub error_message: Option<String>,
    pub provider_account_ref: Option<String>,
}

/// One page of successful requests.
#[derive(Clone, Debug, PartialEq, Eq)]
pub struct UsagePage {
    pub items: Vec<UsageListRecord>,
    pub current_page: u32,
    pub page_size: u16,
    pub total: u64,
}

/// One page of failed requests.
#[derive(Clone, Debug, PartialEq, Eq)]
pub struct OpsErrorPage {
    pub items: Vec<OpsError>,
    pub current_page: u32,
    pub page_size: u16,
    pub total: u64,
}

/// Filter of usage summaries, trends and records.
#[derive(Clone, Debug, PartialEq, Eq)]
pub struct UsageFilter {
    pub client_api_key_ref: Option<String>,
    pub provider_account_ref: Option<String>,
    pub provider_kind: Option<String>,
    pub model: Option<String>,
}

/// Filter of failed requests.
#[derive(Clone, Debug, PartialEq, Eq)]
pub struct OpsErrorFilter {
    pub client_api_key_ref: Option<String>,
    pub provider_account_ref: Option<String>,
    pub provider_kind: Option<String>,
    pub model: Option<String>,
}

/// A page of successful requests to read.
#[derive(Clone, Debug, PartialEq, Eq)]
pub struct UsageQuery {
    pub range: TimeRange,
    pub filter: UsageFilter,
    pub current_page: u32,
    pub page_size: PageSize,
}

/// A page of failed requests to read.
#[derive(Clone, Debug, PartialEq, Eq)]
pub struct OpsErrorQuery {
    pub range: TimeRange,
    pub filter: OpsErrorFilter,
    pub current_page: u32,
    pub page_size: PageSize,
}

/// The filter holds the key and nothing that could widen or redirect the scope.
pub open spec fn scoped_to_key(filter: UsageFilter, key_id: Seq<char>) -> bool {
    &&& filter.client_api_key_ref matches Some(k) && k@ == key_id
    &&& filter.provider_account_ref is None
    &&& filter.provider_kind is None
}

/// A filter of `key_id`'s usage, optionally narrowed to one model.
pub fn usage_filter(key_id: &String, model: Option<String>) -> (f: UsageFilter)
    ensures
        scoped_to_key(f, key_id@),
        f.model == model,
{
    UsageFilter {
        client_api_key_ref: Some(key_id.clone()),
        provider_account_ref: None,
        provider_kind: None,
        model,
    }
}

/// The three reads behind an overview: summary and trend over the requested
/// range and model, and today's health in China Standard Time over all models.
#[derive(Clone, Debug, PartialEq, Eq)]
pub struct OverviewPlan {
    pub summary_range: TimeRange,
    pub summary_filter: UsageFilter,
    pub trend_range: TimeRange,
    pub trend_filter: UsageFilter,
    pub health_range: TimeRange,
    pub health_filter: UsageFilter,
}

/// What an overview for `key_id` reads, at the instant `now`.
pub fn overview_plan(key_id: &String, query: KeyUsageQuery, now: Timestamp) -> (plan: OverviewPlan)
    requires
        i64::MIN + DAY_SECS <= now.secs <= i64::MAX - CHINA_OFFSET_SECS,
    ensures
        plan.summary_range == query.range,
        plan.trend_range == query.range,
        scoped_to_key(plan.summary_filter, key_id@),
        scoped_to_key(plan.trend_filter, key_id@),
        scoped_to_key(plan.health_filter, key_id@),
        plan.summary_filter.model == query.model,
        plan.trend_filter.model == query.model,
        plan.health_filter.model is None,
        plan.health_range.start == spec_china_day_start(now),
        plan.health_range.end == now,
{
    let summary_filter = usage_filter(key_id, query.model.clone());
    let trend_filter = usage_filter(key_id, query.model);
    let health_filter = usage_filter(key_id, None);
    OverviewPlan {
        summary_range: query.range,
        summary_filter,
        trend_range: query.range,
        trend_filter,
        health_range: TimeRange { start: china_day_start(now), end: now },
        health_filter,
    }
}

/// The read behind a page of records: successful requests or failed ones.
#[derive(Clone, Debug, PartialEq, Eq)]
pub enum RecordsPlan {
    Usage(UsageQuery),
    Errors(OpsErrorQuery),
}

/// What a page of `key_id`'s records reads.
pub fn records_plan(key_id: &String, query: KeyUsageRecordsQuery) -> (plan: RecordsPlan)
    ensures
        match query.kind {
            KeyUsageRecordKind::Success => plan matches RecordsPlan::Usage(q) && {
                &&& scoped_to_key(q.filter, key_id@)
                &&& q.filter.model == query.usage.model
                &&& q.range == query.usage.range
                &&& q.current_page == query.current_page
                &&& q.page_size == query.page_size
            },
            KeyUsageRecordKind::Error => plan matches RecordsPlan::Errors(q) && {
                &&& q.filter.client_api_key_ref matches Some(k) && k@ == key_id@
                &&& q.filter.provider_account_ref is None
                &&& q.filter.provider_kind is None
                &&& q.filter.model == query.usage.model
                &&& q.range == query.usage.range
                &&& q.current_page == query.current_page
                &&& q.page_size == query.page_size
            },
        },
{
    match query.kind {
        KeyUsageRecordKind::Success => RecordsPlan::Usage(UsageQuery {
            range: query.usage.range,
            filter: usage_filter(key_id, query.usage.model),
            current_page: query.current_page,
            page_size: query.page_size,
        }),
        KeyUsageRecordKind::Error => RecordsPlan::Errors(OpsErrorQuery {
            range: query.usage.range,
            filter: OpsErrorFilter {
                client_api_key_ref: Some(key_id.clone()),
                provider_account_ref: None,
                provider_kind: None,
                model: query.usage.model,
            },
            current_page: query.current_page,
            page_size: query.page_size,
        }),
    }
}

/// A control character (`char::is_control`: general category Cc).
pub open spec fn is_control_char(c: char) -> bool {
    let u = c as u32;
    u <= 0x1f || (0x7f <= u && u <= 0x9f)
}

/// Why a query parameter was refused.
#[derive(Clone, Copy, Debug, PartialEq, Eq, Structural)]
pub enum QueryError {
    /// The model filter holds a control character.
    InvalidModel,
    /// The range does not start before it ends, or is longer than allowed.
    InvalidRange,
    /// A bound of the range is not an RFC 3339 instant.
    InvalidInstant,
    /// The record kind is neither `success` nor `error`.
    InvalidKind,
    /// The page is 0, or the page size is outside 1 to 100.
    InvalidPage,
}

/// `r` is the model filter of `raw`: refused when it holds a control
/// character, otherwise trimmed, and no filter when nothing is left.
pub open spec fn filters_model(raw: Option<&str>, r: Result<Option<String>, QueryError>) -> bool {
    &&& raw is None ==> r == Ok::<Option<String>, QueryError>(None)
    &&& raw matches Some(text) ==> (r is Err <==> exists|i: int| 0 <= i < text@.len() && is_control_char(#[trigger] text@[i]))
    &&& raw matches Some(text) ==> (r matches Ok(Some(m)) ==> trimmed(text@).len() > 0 && m@ == trimmed(text@))
    &&& raw matches Some(text) ==> (r matches Ok(None) ==> trimmed(text@).len() == 0)
    &&& r matches Err(e) ==> e == QueryError::InvalidModel
}

/// The model filter of a query: refused when it holds a control character,
/// otherwise trimmed, and no filter when nothing is left.
pub fn model_filter(raw: Option<&str>) -> (r: Result<Option<String>, QueryError>)
    ensures
        filters_model(raw, r),
{
    let s = match raw {
        Some(s) => s,
        None => return Ok(None),
    };
    let chars = chars_of(s);
    let mut i: usize = 0;
    while i < chars.len()
        invariant
            raw == Some(s),
            chars@ == s@,
            i <= chars.len(),
            forall|k: int| 0 <= k < i ==> !is_control_char(#[trigger] chars@[k]),
        decreases chars.len() - i,
    {
        let u = chars[i] as u32;
        if u <= 0x1f || (0x7f <= u && u <= 0x9f) {
            assert(is_control_char(s@[i as int]));
            assert(raw->0@ == s@);
            assert(is_control_char(raw->0@[i as int]));
            return Err(QueryError::InvalidModel);
        }
        i = i + 1;
    }
    let t = trim(s);
    if t.as_str().is_empty() {
        Ok(None)
    } else {
        Ok(Some(t))
    }
}

/// Page asked for when a query names none.
pub const DEFAULT_PAGE: u32 = 1;

/// Page size asked for when a query names none.
pub const DEFAULT_PAGE_SIZE: u16 = 20;

/// `r` queries the range from `start` to `end` with the model filter of `model`.
pub open spec fn queries_usage(start: Timestamp, end: Timestamp, model: Option<&str>, r: Result<KeyUsageQuery, QueryError>) -> bool {
    match r {
        Ok(q) => q.range == (TimeRange { start, end }) && filters_model(model, Ok(q.model)),
        Err(e) => filters_model(model, Err(e)),
    }
}

/// `r` is the usage query of the range from `start` to `end` and the model
/// filter `model`: refused unless the range starts before it ends and covers
/// at most `MAX_RANGE_SECS`, and as `model_filter` refuses the model.
pub open spec fn usage_query_result(start: Timestamp, end: Timestamp, model: Option<&str>, r: Result<KeyUsageQuery, QueryError>) -> bool {
    &&& !earlier(start, end) ==> r == Err::<KeyUsageQuery, QueryError>(QueryError::InvalidRange)
    &&& span_exceeds(start, end) ==> r == Err::<KeyUsageQuery, QueryError>(QueryError::InvalidRange)
    &&& earlier(start, end) && !span_exceeds(start, end) ==> queries_usage(start, end, model, r)
}

/// Longest range, in seconds (90 days), that a usage query may cover.
pub const MAX_RANGE_SECS: i64 = 7776000;

/// The range from `start` to `end` is longer than `MAX_RANGE_SECS`.
pub open spec fn span_exceeds(start: Timestamp, end: Timestamp) -> bool {
    ||| end.secs - start.secs > MAX_RANGE_SECS
    ||| end.secs - start.secs == MAX_RANGE_SECS && end.nanos > start.nanos
}

/// The usage query of a range and an optional model filter: refused unless
/// the range starts before it ends and covers at most `MAX_RANGE_SECS`, and
/// as `model_filter` refuses the model.
pub fn usage_query(start: Timestamp, end: Timestamp, model: Option<&str>) -> (r: Result<KeyUsageQuery, QueryError>)
    ensures
        usage_query_result(start, end, model, r),
{
    let range = match TimeRange::new(start, end) {
        Ok(range) => range,
        Err(_) => return Err(QueryError::InvalidRange),
    };
    let span: i128 = end.secs as i128 - start.secs as i128;
    if span > MAX_RANGE_SECS as i128 || (span == MAX_RANGE_SECS as i128 && end.nanos > start.nanos) {
        return Err(QueryError::InvalidRange);
    }
    match model_filter(model) {
        Ok(model) => Ok(KeyUsageQuery { range, model }),
        Err(e) => Err(e),
    }
}

/// Which records a query asks for: successful ones unless it names a kind;
/// `success` and `error` name the two kinds, anything else is refused.
pub open spec fn spec_record_kind(raw: Option<&str>) -> Result<KeyUsageRecordKind, QueryError> {
    match raw {
        None => Ok(KeyUsageRecordKind::Success),
        Some(k) => if k@ == "success"@ {
            Ok(KeyUsageRecordKind::Success)
        } else if k@ == "error"@ {
            Ok(KeyUsageRecordKind::Error)
        } else {
            Err(QueryError::InvalidKind)
        },
    }
}

/// Which records a query asks for: successful ones unless it names a kind;
/// `success` and `error` name the two kinds, anything else is refused.
pub fn record_kind(raw: Option<&str>) -> (r: Result<KeyUsageRecordKind, QueryError>)
    ensures
        r == spec_record_kind(raw),
{
    match raw {
        None => Ok(KeyUsageRecordKind::Success),
        Some(k) => if same_text(k, "success") {
            Ok(KeyUsageRecordKind::Success)
        } else if same_text(k, "error") {
            Ok(KeyUsageRecordKind::Error)
        } else {
            Err(QueryError::InvalidKind)
        },
    }
}

/// `r` is the page that the query asks for: page 1 of 20 items unless it
/// names others; page 0, and a page size outside 1 to 100, are refused.
pub open spec fn requests_page(current_page: Option<u32>, page_size: Option<u16>, r: Result<(u32, PageSize), QueryError>) -> bool {
    let page = match current_page {
        Some(p) => p,
        None => DEFAULT_PAGE,
    };
    let size = match page_size {
        Some(s) => s,
        None => DEFAULT_PAGE_SIZE,
    };
    &&& r is Ok <==> (page >= 1 && MIN_PAGE_SIZE <= size <= MAX_PAGE_SIZE)
    &&& r matches Ok(v) ==> v.0 == page && v.1.spec_get() == size
    &&& r matches Err(e) ==> e == QueryError::InvalidPage
}

/// The page a query asks for, page 1 of 20 items unless it names others;
/// page 0, and a page size outside 1 to 100, are refused.
pub fn page_request(current_page: Option<u32>, page_size: Option<u16>) -> (r: Result<(u32, PageSize), QueryError>)
    ensures
        requests_page(current_page, page_size, r),
{
    let page: u32 = match current_page {
        Some(p) => p,
        None => DEFAULT_PAGE,
    };
    let size: u16 = match page_size {
        Some(s) => s,
        None => DEFAULT_PAGE_SIZE,
    };
    if page == 0 {
        return Err(QueryError::InvalidPage);
    }
    match PageSize::new(size) {
        Some(s) => Ok((page, s)),
        None => Err(QueryError::InvalidPage),
    }
}

/// The usage query of a range given as RFC 3339 text and an optional model
/// filter: refused where chrono reads no instant from either bound, and
/// otherwise as `usage_query` decides on the instants read.
pub fn usage_query_from_text(start: &str, end: &str, model: Option<&str>) -> (r: Result<KeyUsageQuery, QueryError>)
    ensures
        instant_of(chrono_rfc3339(start@)) is None || instant_of(chrono_rfc3339(end@)) is None
            ==> r == Err::<KeyUsageQuery, QueryError>(QueryError::InvalidInstant),
        instant_of(chrono_rfc3339(start@)) is Some && instant_of(chrono_rfc3339(end@)) is Some
            ==> usage_query_result(instant_of(chrono_rfc3339(start@))->0, instant_of(chrono_rfc3339(end@))->0, model, r),
{
    let a = match parse_instant(start) {
        Some(a) => a,
        None => return Err(QueryError::InvalidInstant),
    };
    let b = match parse_instant(end) {
        Some(b) => b,
        None => return Err(QueryError::InvalidInstant),
    };
    usage_query(a, b, model)
}

} // verus!
