//! What the query checks and plans decide, stated in terms of their inputs:
//! which reads a key may make, which parameters are refused, and which
//! instants and windows are meant.

use vstd::prelude::*;
use crate::text::{is_white_space, trimmed, lemma_trimmed_cuts_only_white_space};
use crate::time::{Timestamp, TimeRange, earlier, spec_china_day_start};
use crate::model::{KeyUsageQuery, KeyUsageRecordKind, PageSize};
use crate::accounts::{QuotaLocalUsageAttribution, window_range};
use crate::observability::{
    UsageFilter, QueryError, scoped_to_key, filters_model, is_control_char, spec_record_kind,
    requests_page, span_exceeds, usage_query_result,
};

verus! {

/// A filter scoped to a key reads that key's usage alone: it names the key
/// and no provider account or provider kind.
pub proof fn lemma_scoped_filter_reads_only_the_key(filter: UsageFilter, key_id: Seq<char>)
    requires
        scoped_to_key(filter, key_id),
    ensures
        filter.client_api_key_ref is Some && filter.client_api_key_ref->0@ == key_id,
        filter.provider_account_ref is None,
        filter.provider_kind is None,
{
}

/// A model filter that is accepted holds no control character and no white
/// space at either end, and is a stretch of the text given; text with a
/// control character is refused; white space alone is no filter.
pub proof fn lemma_model_filter_is_clean(raw: Option<&str>, r: Result<Option<String>, QueryError>)
    requires
        filters_model(raw, r),
    ensures
        raw is None ==> r == Ok::<Option<String>, QueryError>(None),
        r is Err ==> r == Err::<Option<String>, QueryError>(QueryError::InvalidModel)
            && raw is Some && exists|i: int| 0 <= i < raw->0@.len() && is_control_char(#[trigger] raw->0@[i]),
        raw is Some && (exists|i: int| 0 <= i < raw->0@.len() && is_control_char(#[trigger] raw->0@[i])) ==> r is Err,
        r matches Ok(Some(m)) ==> m@.len() > 0 && !is_white_space(m@[0]) && !is_white_space(m@.last())
            && (forall|k: int| 0 <= k < m@.len() ==> !is_control_char(#[trigger] m@[k]))
            && raw is Some && exists|i: int, j: int| 0 <= i <= j <= raw->0@.len() && m@ == #[trigger] raw->0@.subrange(i, j),
        r matches Ok(None) ==> raw is None || (forall|k: int| 0 <= k < raw->0@.len() ==> is_white_space(#[trigger] raw->0@[k])),
{
    if let Some(text) = raw {
        let s = text@;
        lemma_trimmed_cuts_only_white_space(s);
        let (i, j) = choose|i: int, j: int| 0 <= i <= j <= s.len() && trimmed(s) == #[trigger] s.subrange(i, j)
            && (forall|k: int| 0 <= k < i ==> is_white_space(#[trigger] s[k]))
            && (forall|k: int| j <= k < s.len() ==> is_white_space(#[trigger] s[k]));
        if let Ok(Some(m)) = r {
            assert forall|k: int| 0 <= k < m@.len() implies !is_control_char(#[trigger] m@[k]) by {
                assert(m@[k] == s[i + k]);
            }
        }
        if let Ok(None) = r {
            assert forall|k: int| 0 <= k < s.len() implies is_white_space(#[trigger] s[k]) by {
                if i <= k < j {
                    assert(j == i);
                }
            }
        }
    }
}

/// Records are successful ones unless the query names a kind; "success" and
/// "error" name the two kinds, and any other text is refused.
pub proof fn lemma_record_kind_names(raw: Option<&str>)
    ensures
        raw is None ==> spec_record_kind(raw) == Ok::<KeyUsageRecordKind, QueryError>(KeyUsageRecordKind::Success),
        raw is Some && raw->0@ == "success"@ ==> spec_record_kind(raw) == Ok::<KeyUsageRecordKind, QueryError>(KeyUsageRecordKind::Success),
        raw is Some && raw->0@ == "error"@ ==> spec_record_kind(raw) == Ok::<KeyUsageRecordKind, QueryError>(KeyUsageRecordKind::Error),
        raw is Some && raw->0@ != "success"@ && raw->0@ != "error"@ ==> spec_record_kind(raw) == Err::<KeyUsageRecordKind, QueryError>(QueryError::InvalidKind),
{
    reveal_strlit("success");
    reveal_strlit("error");
    assert("success"@.len() != "error"@.len());
}

/// A page is page 1 of 20 items unless the query names others; it is refused
/// exactly when the page is 0 or the size lies outside 1 to 100, and an
/// accepted page is the one asked for.
pub proof fn lemma_page_request_bounds(current_page: Option<u32>, page_size: Option<u16>, r: Result<(u32, PageSize), QueryError>)
    requires
        requests_page(current_page, page_size, r),
    ensures
        current_page is None && page_size is None ==> r is Ok && r->Ok_0.0 == 1 && r->Ok_0.1.spec_get() == 20,
        current_page == Some(0u32) ==> r == Err::<(u32, PageSize), QueryError>(QueryError::InvalidPage),
        page_size is Some && (page_size->0 == 0 || page_size->0 > 100) ==> r == Err::<(u32, PageSize), QueryError>(QueryError::InvalidPage),
        current_page is Some && current_page->0 >= 1 && page_size is Some && 1 <= page_size->0 <= 100
            ==> r is Ok && r->Ok_0.0 == current_page->0 && r->Ok_0.1.spec_get() == page_size->0,
        r is Err ==> r == Err::<(u32, PageSize), QueryError>(QueryError::InvalidPage),
{
}

/// A usage query is accepted only for a range that starts before it ends and
/// lasts at most 90 days, counted to the nanosecond, and then covers exactly
/// that range.
pub proof fn lemma_usage_query_bounds_the_range(start: Timestamp, end: Timestamp, model: Option<&str>, r: Result<KeyUsageQuery, QueryError>)
    requires
        usage_query_result(start, end, model, r),
        start.nanos < 1_000_000_000,
        end.nanos < 1_000_000_000,
    ensures
        r is Ok ==> (end.secs * 1_000_000_000 + end.nanos) - (start.secs * 1_000_000_000 + start.nanos) > 0,
        r is Ok ==> (end.secs * 1_000_000_000 + end.nanos) - (start.secs * 1_000_000_000 + start.nanos) <= 90 * 24 * 60 * 60 * 1_000_000_000,
        r is Ok ==> r->Ok_0.range == (TimeRange { start, end }),
        (end.secs * 1_000_000_000 + end.nanos) - (start.secs * 1_000_000_000 + start.nanos) <= 0 ==> r == Err::<KeyUsageQuery, QueryError>(QueryError::InvalidRange),
        (end.secs * 1_000_000_000 + end.nanos) - (start.secs * 1_000_000_000 + start.nanos) > 90 * 24 * 60 * 60 * 1_000_000_000
            ==> r == Err::<KeyUsageQuery, QueryError>(QueryError::InvalidRange),
{
}

/// Today starts at midnight, China time (eight hours ahead of UTC): the start
/// is a whole second no later than `now`, less than a day before it, and
/// falls on a China midnight.
pub proof fn lemma_china_day_start_is_local_midnight(now: Timestamp)
    requires
        i64::MIN + 24 * 60 * 60 <= now.secs <= i64::MAX - 8 * 60 * 60,
    ensures
        spec_china_day_start(now).nanos == 0,
        spec_china_day_start(now).secs <= now.secs,
        now.secs - spec_china_day_start(now).secs < 24 * 60 * 60,
        (spec_china_day_start(now).secs + 8 * 60 * 60) % (86400 as int) == 0,
{
    let x: int = now.secs + 28800;
    let r: int = x % 86400;
    assert(0 <= r < 86400);
    assert((x - r) % 86400 == 0) by (nonlinear_arith)
        requires
            r == x % 86400,
    ;
}

/// A quota window gives a usage window only when its usage is counted for
/// the whole account and it has a reset time and a length; the usage window
/// then ends at the reset and starts before it.
pub proof fn lemma_window_range_ends_at_reset(attribution: QuotaLocalUsageAttribution, reset_at: Option<Timestamp>, window_seconds: Option<u64>)
    ensures
        window_range(attribution, reset_at, window_seconds) is Some ==> attribution == QuotaLocalUsageAttribution::AccountWide
            && reset_at is Some && window_seconds is Some
            && window_range(attribution, reset_at, window_seconds)->0.end == reset_at->0
            && earlier(window_range(attribution, reset_at, window_seconds)->0.start, reset_at->0),
        attribution != QuotaLocalUsageAttribution::AccountWide ==> window_range(attribution, reset_at, window_seconds) is None,
{
}

} // verus!
