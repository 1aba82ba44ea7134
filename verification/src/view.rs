use vstd::prelude::*;
use vstd::string::*;
use crate::vibe::{Vibe, VibeCheck};

verus! {

/// The local calendar day of the instant `t` (Unix seconds) in the reference
/// zone, America/New_York, as a count of days. Two instants fall on the same
/// local calendar day exactly when their day counts agree. The zone is fixed
/// data compiled into the program, so this is a function of `t` alone.
pub uninterp spec fn nyc_day_of(t: int) -> int;

/// The rendering of the instant `t` in the reference zone, in the fixed
/// format `%a %b %-d %H:%M:%S %Z`. A function of `t` alone.
pub uninterp spec fn nyc_time_text_of(t: int) -> Seq<char>;

/// Relies on chrono's `DateTime::from_timestamp` and `with_timezone`, on
/// `Datelike::num_days_from_ce`, and on chrono-tz's America/New_York table:
/// the local calendar day of `t`, counted from the common era. For the few
/// timestamps chrono cannot represent it yields a fixed marker; either way
/// the result depends on `t` alone.
#[verifier::external_body]
fn nyc_day_number(t: i64) -> (d: i64)
    ensures
        d as int == nyc_day_of(t as int),
{
    match chrono::DateTime::<chrono::Utc>::from_timestamp(t, 0) {
        Some(dt) => chrono::Datelike::num_days_from_ce(
            &dt.with_timezone(&chrono_tz::America::New_York),
        ) as i64,
        None => i64::MIN,
    }
}

/// Relies on chrono's `DateTime::from_timestamp`, `with_timezone` and
/// `format`, and on chrono-tz: renders `t` as a local time in the reference
/// zone. For the few timestamps chrono cannot represent it yields the empty
/// string; either way the result depends on `t` alone.
#[verifier::external_body]
fn nyc_time_text(t: i64) -> (s: String)
    ensures
        s@ == nyc_time_text_of(t as int),
{
    match chrono::DateTime::<chrono::Utc>::from_timestamp(t, 0) {
        Some(dt) => dt.with_timezone(&chrono_tz::America::New_York).format(
            "%a %b %-d %H:%M:%S %Z",
        ).to_string(),
        None => String::new(),
    }
}

/// What the tracker shows for a record: a short label, an optional long-form
/// detail, and the observation time rendered in the reference zone.
pub struct ViewResult {
    pub label: String,
    pub detail: Option<String>,
    pub observed_local: String,
}

/// The label of the sentinel answer for an expired record.
pub open spec fn stale_label() -> Seq<char> {
    "Superposition"@
}

/// The detail of the sentinel answer for an expired record.
pub open spec fn stale_detail() -> Seq<char> {
    "Noodles is fast asleep. Until measured, he simultaneously does and does not have bones."@
}

/// The record is still valid at the moment `now`: both instants fall on the
/// same local calendar day of the reference zone. A record expires at local
/// midnight, however little wall time has elapsed.
pub open spec fn is_fresh(rec: VibeCheck, now: int) -> bool {
    nyc_day_of(rec.time as int) == nyc_day_of(now)
}

/// `r` is the correct answer for the record `rec` at the moment `now`: the
/// record's own label and detail while fresh, the fixed sentinel once stale,
/// and in either case the record's timestamp rendered in the reference zone.
pub open spec fn view_matches(rec: VibeCheck, now: int, r: ViewResult) -> bool {
    &&& r.observed_local@ == nyc_time_text_of(rec.time as int)
    &&& (if is_fresh(rec, now) {
        &&& r.label@ == rec.vibe.short_spec()
        &&& (r.detail is Some) == (rec.vibe.long_spec() is Some)
        &&& (r.detail matches Some(s) ==> rec.vibe.long_spec() matches Some(t) && s@ == t)
    } else {
        &&& r.label@ == stale_label()
        &&& (r.detail matches Some(s) && s@ == stale_detail())
    })
}

/// The decision core of the view, on plain day counts: the record's own
/// answer exactly when the two days agree, the sentinel otherwise.
pub fn view_for_days(vibe: Vibe, observed_local: String, obs_day: i64, now_day: i64) -> (r:
    ViewResult)
    ensures
        r.observed_local == observed_local,
        obs_day == now_day ==> {
            &&& r.label@ == vibe.short_spec()
            &&& (r.detail is Some) == (vibe.long_spec() is Some)
            &&& (r.detail matches Some(s) ==> vibe.long_spec() matches Some(t) && s@ == t)
        },
        obs_day != now_day ==> {
            &&& r.label@ == stale_label()
            &&& (r.detail matches Some(s) && s@ == stale_detail())
        },
{
    if obs_day == now_day {
        ViewResult { label: vibe.short(), detail: vibe.long(), observed_local }
    } else {
        ViewResult {
            label: String::from_str("Superposition"),
            detail: Some(
                String::from_str(
                    "Noodles is fast asleep. Until measured, he simultaneously does and does not have bones.",
                ),
            ),
            observed_local,
        }
    }
}

/// Derive the externally visible answer from one record: apply calendar-day
/// expiry in the reference zone, then render label, detail and local time.
/// Pure in the record and the given moment; no side effects.
pub fn current_view(rec: &VibeCheck, now: i64) -> (r: ViewResult)
    ensures
        view_matches(*rec, now as int, r),
{
    let text = nyc_time_text(rec.time);
    let obs_day = nyc_day_number(rec.time);
    let now_day = nyc_day_number(now);
    view_for_days(rec.vibe, text, obs_day, now_day)
}

/// Expiry is a calendar-day boundary, not a rolling span: whether a record is
/// fresh depends on the current moment only through its local calendar day,
/// never through the seconds elapsed since the observation.
pub proof fn lemma_expiry_is_day_boundary(rec: VibeCheck, now1: int, now2: int)
    requires
        nyc_day_of(now1) == nyc_day_of(now2),
    ensures
        is_fresh(rec, now1) == is_fresh(rec, now2),
{
}

} // verus!
