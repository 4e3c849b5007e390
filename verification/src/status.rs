//! The query that reports on backups and restores in progress.

use vstd::prelude::*;
use vstd::string::*;
use vstd::arithmetic::div_mod::{lemma_div_is_ordered, lemma_hoist_over_denominator};
use crate::text::copy_texts;

verus! {

/// The query for the engine's progress view: its text, the instant from
/// which operations are reported, as seconds since the Unix epoch, bound to
/// the first placeholder, and the operation ids bound to the second one,
/// where there is a second one.
#[derive(Debug, Clone, PartialEq, Eq)]
pub struct StatusQuery {
    pub text: String,
    pub since_timestamp: i64,
    pub ids: Vec<String>,
}

/// The mathematical value of a [`StatusQuery`].
pub struct StatusQueryView {
    pub text: Seq<char>,
    pub since_timestamp: int,
    pub ids: Seq<Seq<char>>,
}

impl View for StatusQuery {
    type V = StatusQueryView;

    open spec fn view(&self) -> StatusQueryView {
        StatusQueryView {
            text: self.text@,
            since_timestamp: self.since_timestamp as int,
            ids: self.ids.deep_view(),
        }
    }
}

/// The columns of the report and the time window. The engine derives the
/// readable sizes, the progress and the duration.
pub open spec fn status_select() -> Seq<char> {
    "SELECT
                    id,
                    name,
                    status,
                    formatReadableSize(total_size) as total_size_fmt,
                    num_files,
                    files_read,
                    formatReadableSize(bytes_read) as bytes_read_fmt,
                    if(total_size > 0, bytes_read * 100.0 / total_size, 0.0) as progress_pct,
                    start_time,
                    end_time,
                    if (end_time > start_time, dateDiff('second', start_time, end_time), dateDiff('second', start_time, now())) as duration_seconds,
                    error
                FROM system.backups
                WHERE start_time >= fromUnixTimestamp64Second(?)"@
}

/// The filter on operation ids, present only where ids are given.
pub open spec fn status_narrowing(narrowed: bool) -> Seq<char> {
    if narrowed {
        " AND id IN ?"@
    } else {
        Seq::empty()
    }
}

/// The order of the report: the most recent operation first.
pub open spec fn status_order() -> Seq<char> {
    "\nORDER BY start_time DESC"@
}

/// The query that reports the operations begun at or after `start`,
/// only those with one of `ids` where `ids` is not empty.
pub open spec fn status_query(ids: Seq<Seq<char>>, start: int) -> StatusQueryView {
    StatusQueryView {
        text: status_select() + status_narrowing(ids.len() > 0) + status_order(),
        since_timestamp: start,
        ids,
    }
}

/// The whole second in which the instant `since` before `now` lies, both
/// given as seconds and nanoseconds.
pub open spec fn window_start(now_secs: int, now_nanos: int, since_secs: int, since_nanos: int)
    -> int {
    (now_secs * 1_000_000_000 + now_nanos - since_secs * 1_000_000_000 - since_nanos)
        / 1_000_000_000
}

/// Every status query filters by the time window first and orders by
/// start time, descending, last; ids add a condition between the two and
/// leave the window as it is.
pub proof fn lemma_status_query_shape(ids: Seq<Seq<char>>, start: int)
    ensures
        status_select().is_prefix_of(status_query(ids, start).text),
        status_order().is_suffix_of(status_query(ids, start).text),
        status_query(ids, start).text == status_query(Seq::empty(), start).text.subrange(
            0,
            status_select().len() as int,
        ) + status_narrowing(ids.len() > 0) + status_order(),
        status_query(ids, start).since_timestamp == start,
        status_query(ids, start).since_timestamp == status_query(
            Seq::empty(),
            start,
        ).since_timestamp,
{
    let t = status_query(ids, start).text;
    let rest = status_narrowing(ids.len() > 0) + status_order();
    assert(t =~= status_select() + rest);
    assert(t.subrange(0, status_select().len() as int) =~= status_select());
    assert(t.subrange(t.len() - status_order().len(), t.len() as int) =~= status_order());
    let wide = status_query(Seq::empty(), start).text;
    assert(wide =~= status_select() + status_order());
    assert(wide.subrange(0, status_select().len() as int) =~= status_select());
}

/// The earliest second that a reading of the clock can name: midnight of
/// the earliest day that a 32-bit count of days can number.
pub open spec fn clock_seconds_min() -> int {
    (i32::MIN as int - 719_163) * 86_400
}

/// The latest second that a reading of the clock can name: the last second
/// of the latest day that a 32-bit count of days can number.
pub open spec fn clock_seconds_max() -> int {
    (i32::MAX as int - 719_163) * 86_400 + 86_399
}

/// What holds of every reading of the clock, as seconds since the Unix
/// epoch and nanoseconds within the second.
pub open spec fn clock_reading(secs: int, nanos: int) -> bool {
    clock_seconds_min() <= secs <= clock_seconds_max() && 0 <= nanos < 1_000_000_000
}

/// No reading of the clock puts the window of this span at a second that
/// an `i64` cannot count: the earliest reading does not.
pub open spec fn span_fits(since_secs: int, since_nanos: int) -> bool {
    window_start(clock_seconds_min(), 0, since_secs, since_nanos) >= i64::MIN
}

/// A window begins no earlier than that of the earliest reading of the
/// clock, and never after the latest second of the clock.
pub proof fn lemma_window_start_bounds(
    now_secs: int,
    now_nanos: int,
    since_secs: int,
    since_nanos: int,
)
    requires
        clock_reading(now_secs, now_nanos),
        0 <= since_secs,
        0 <= since_nanos,
    ensures
        window_start(clock_seconds_min(), 0, since_secs, since_nanos) <= window_start(
            now_secs,
            now_nanos,
            since_secs,
            since_nanos,
        ) <= clock_seconds_max(),
{
    let k: int = 1_000_000_000;
    let low = clock_seconds_min() * k + 0 - since_secs * k - since_nanos;
    let mid = now_secs * k + now_nanos - since_secs * k - since_nanos;
    let high = now_nanos + clock_seconds_max() * k;
    assert(low <= mid) by (nonlinear_arith)
        requires
            low == clock_seconds_min() * k + 0 - since_secs * k - since_nanos,
            mid == now_secs * k + now_nanos - since_secs * k - since_nanos,
            clock_seconds_min() <= now_secs,
            0 <= now_nanos,
            k == 1_000_000_000,
    ;
    assert(mid <= high) by (nonlinear_arith)
        requires
            mid == now_secs * k + now_nanos - since_secs * k - since_nanos,
            high == now_nanos + clock_seconds_max() * k,
            now_secs <= clock_seconds_max(),
            0 <= since_secs,
            0 <= since_nanos,
            k == 1_000_000_000,
    ;
    lemma_div_is_ordered(low, mid, 1_000_000_000);
    lemma_div_is_ordered(mid, high, 1_000_000_000);
    lemma_hoist_over_denominator(now_nanos, clock_seconds_max(), 1_000_000_000);
    assert(now_nanos / 1_000_000_000 == 0);
}

/// Every span of up to nine quintillion seconds fits, whatever its
/// nanoseconds: more than two hundred billion years.
pub proof fn lemma_ordinary_span_fits(since_secs: int, since_nanos: int)
    requires
        0 <= since_secs <= 9_000_000_000_000_000_000,
        0 <= since_nanos <= u32::MAX,
    ensures
        span_fits(since_secs, since_nanos),
{
    let part: int = 0 - since_nanos;
    let secs: int = clock_seconds_min() - since_secs;
    lemma_hoist_over_denominator(part, 5, 1_000_000_000);
    lemma_hoist_over_denominator(part, secs, 1_000_000_000);
    assert(part + secs * 1_000_000_000 == clock_seconds_min() * 1_000_000_000 + 0 - since_secs
        * 1_000_000_000 - since_nanos);
    assert((part + 5 * 1_000_000_000) / 1_000_000_000 >= 0);
}

/// The whole second in which the instant `since` before `now` lies, or
/// `None` where it is not a second that an `i64` can count.
pub fn status_window_start(now_secs: i64, now_nanos: u32, since_secs: u64, since_nanos: u32) -> (r:
    Option<i64>)
    ensures
        match r {
            Some(t) => t == window_start(
                now_secs as int,
                now_nanos as int,
                since_secs as int,
                since_nanos as int,
            ),
            None => {
                let t = window_start(
                    now_secs as int,
                    now_nanos as int,
                    since_secs as int,
                    since_nanos as int,
                );
                t < i64::MIN || t > i64::MAX
            },
        },
{
    let lifted: u64 = now_nanos as u64 + 5_000_000_000u64 - since_nanos as u64;
    let carry: u64 = lifted / 1_000_000_000u64;
    let whole: i128 = now_secs as i128 - since_secs as i128 + carry as i128 - 5i128;
    proof {
        let part: int = now_nanos as int - since_nanos as int;
        let secs: int = now_secs as int - since_secs as int;
        lemma_hoist_over_denominator(part, 5, 1_000_000_000);
        lemma_hoist_over_denominator(part, secs, 1_000_000_000);
        assert(part + 5 * 1_000_000_000 == lifted as int);
        assert(part + secs * 1_000_000_000 == now_secs * 1_000_000_000 + now_nanos - since_secs
            * 1_000_000_000 - since_nanos);
    }
    if whole < -9_223_372_036_854_775_808i128 || whole > 9_223_372_036_854_775_807i128 {
        None
    } else {
        Some(whole as i64)
    }
}

/// The query that reports the operations begun at or after `start`,
/// only those with one of `ids` where `ids` is not empty.
pub fn status_query_at(ids: &Vec<String>, start: i64) -> (r: StatusQuery)
    ensures
        r@ == status_query(ids.deep_view(), start as int),
{
    let mut text = String::from_str(
        "SELECT
                    id,
                    name,
                    status,
                    formatReadableSize(total_size) as total_size_fmt,
                    num_files,
                    files_read,
                    formatReadableSize(bytes_read) as bytes_read_fmt,
                    if(total_size > 0, bytes_read * 100.0 / total_size, 0.0) as progress_pct,
                    start_time,
                    end_time,
                    if (end_time > start_time, dateDiff('second', start_time, end_time), dateDiff('second', start_time, now())) as duration_seconds,
                    error
                FROM system.backups
                WHERE start_time >= fromUnixTimestamp64Second(?)",
    );
    if ids.len() > 0 {
        text.append(" AND id IN ?");
    }
    text.append("\nORDER BY start_time DESC");
    StatusQuery { text, since_timestamp: start, ids: copy_texts(ids) }
}

/// Reads the clock with `std::time::SystemTime::now`, converts the instant
/// with chrono's `From<SystemTime> for DateTime<Utc>`, and hands back, from
/// `DateTime::timestamp` and `DateTime::timestamp_subsec_nanos`, the seconds
/// since the Unix epoch and the nanoseconds within the second.
///
/// Which instant comes back is the machine's affair. Claimed is only what
/// chrono's source gives of every instant that the conversion returns:
/// `timestamp` counts days in an `i32` and at most 86,399 seconds within the
/// day, and the conversion hands on nanoseconds below one billion, also for
/// a clock that stands before the Unix epoch. The conversion gives up only
/// on a clock set beyond chrono's range of years, some 262,000 years from
/// the common era.
#[verifier::external_body]
fn utc_now() -> (r: (i64, u32))
    ensures
        clock_reading(r.0 as int, r.1 as int),
{
    let now = chrono::DateTime::<chrono::Utc>::from(std::time::SystemTime::now());
    (now.timestamp(), now.timestamp_subsec_nanos())
}

/// The query that reports the operations begun within the span `since`
/// before now, given as seconds and nanoseconds, only those with one of `ids`
/// where `ids` is not empty.
///
/// A query is returned for every span that no reading of the clock can put
/// out of range, so for every span of up to nine quintillion seconds. `None`
/// comes only for a longer span, where the window begins at a second that
/// an `i64` cannot count. The clock is read through chrono, which gives up
/// on a clock set beyond its range of years.
pub fn status(ids: &Vec<String>, since_secs: u64, since_nanos: u32) -> (r: Option<StatusQuery>)
    ensures
        span_fits(since_secs as int, since_nanos as int) ==> r is Some,
        since_secs <= 9_000_000_000_000_000_000 ==> r is Some,
        r matches Some(q) ==> exists|now_secs: i64, now_nanos: u32|
            clock_reading(now_secs as int, now_nanos as int) && q@ == status_query(
                ids.deep_view(),
                #[trigger] window_start(
                    now_secs as int,
                    now_nanos as int,
                    since_secs as int,
                    since_nanos as int,
                ),
            ),
        r is None ==> !span_fits(since_secs as int, since_nanos as int),
{
    let now = utc_now();
    proof {
        lemma_window_start_bounds(
            now.0 as int,
            now.1 as int,
            since_secs as int,
            since_nanos as int,
        );
        if since_secs <= 9_000_000_000_000_000_000 {
            lemma_ordinary_span_fits(since_secs as int, since_nanos as int);
        }
    }
    match status_window_start(now.0, now.1, since_secs, since_nanos) {
        Some(start) => Some(status_query_at(ids, start)),
        None => None,
    }
}

} // verus!
