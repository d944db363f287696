//! Subscription plans: how long each plan runs, the record stored when a user
//! subscribes, and when a user counts as subscribed.

use vstd::prelude::*;

use crate::text::str_equal;
use crate::time::{
    current_time, format_rfc3339, in_rfc3339_years, is_after, parse_rfc3339, rfc3339_instant,
    rfc3339_text, Timestamp, NANOS_PER_SECOND,
};

verus! {

/// Number of days a plan runs, by its name: `plan_a` runs 30 days and
/// `plan_b` 60; any other name is not a plan of fixed length.
pub open spec fn spec_plan_length_days(plan_name: Seq<char>) -> Option<u32> {
    if plan_name == "plan_a"@ {
        Some(30u32)
    } else if plan_name == "plan_b"@ {
        Some(60u32)
    } else {
        None
    }
}

/// The end date of a plan of fixed length that starts at `start_date` can be
/// represented (else computing it fails).
pub open spec fn end_date_representable(plan_name: Seq<char>, start_date: Timestamp) -> bool {
    spec_plan_length_days(plan_name) matches Some(days) ==> start_date.can_add_days(days as int)
}

/// Length in days of the plan named `plan_name`, if it is a plan of fixed length.
pub fn plan_length_days(plan_name: &str) -> (r: Option<u32>)
    ensures
        r == spec_plan_length_days(plan_name@),
{
    if str_equal(plan_name, "plan_a") {
        Some(30)
    } else if str_equal(plan_name, "plan_b") {
        Some(60)
    } else {
        None
    }
}

/// When a subscription to `plan_name` that starts at `start_date` ends, given
/// the time `now`: the plan's length in days after the start, at the same time
/// of day; for a name that is no plan of fixed length, `now`.
pub fn end_date_at(plan_name: &str, start_date: Timestamp, now: Timestamp) -> (end: Timestamp)
    requires
        start_date.is_valid(),
        now.is_valid(),
        end_date_representable(plan_name@, start_date),
    ensures
        end.is_valid(),
        match spec_plan_length_days(plan_name@) {
            Some(days) => end == start_date.spec_plus_days(days as int),
            None => end == now,
        },
        spec_plan_length_days(plan_name@) is Some ==> start_date.secs < end.secs,
{
    match plan_length_days(plan_name) {
        Some(days) => {
            match start_date.checked_plus_days(days) {
                Some(end) => end,
                None => {
                    proof {
                        assert(false);
                    }
                    start_date
                },
            }
        },
        None => now,
    }
}

/// When a subscription to `plan_name` that starts at `start_date` ends: the
/// plan's length in days after the start; for a name that is no plan of fixed
/// length, the moment of the call, read from the system clock (`None` when the
/// clock shows a time that cannot be represented).
pub fn end_date_calculator(plan_name: &str, start_date: Timestamp) -> (end: Option<Timestamp>)
    requires
        start_date.is_valid(),
        end_date_representable(plan_name@, start_date),
    ensures
        spec_plan_length_days(plan_name@) matches Some(days) ==> end == Some(
            start_date.spec_plus_days(days as int),
        ),
        end matches Some(t) ==> t.is_valid(),
        spec_plan_length_days(plan_name@) is None ==> (end matches Some(t) ==> t.nanos
            < NANOS_PER_SECOND),
{
    match plan_length_days(plan_name) {
        Some(days) => start_date.checked_plus_days(days),
        None => match current_time() {
            Some(now) => Some(end_date_at(plan_name, start_date, now)),
            None => None,
        },
    }
}

/// What is stored for a new subscription: who subscribes, whose content it
/// unlocks, the plan, and the period it covers, as instants and as the RFC
/// 3339 text that is stored for them.
#[derive(Debug)]
pub struct SubscriptionRecord {
    pub user_id: i64,
    pub user_unlocked: i64,
    pub plan_name: String,
    pub start_date: Timestamp,
    pub end_date: Timestamp,
    pub start_date_text: String,
    pub end_date_text: String,
}

/// The record to store when `user_id` subscribes to `plan_name` for the
/// content of `user_unlocked`, starting at `start_date`; `None` when its end
/// date had to be read from a clock that shows an unrepresentable time.
pub fn new_subscription(
    user_id: i64,
    user_unlocked: i64,
    plan_name: &str,
    start_date: Timestamp,
) -> (rec: Option<SubscriptionRecord>)
    requires
        start_date.is_valid(),
        end_date_representable(plan_name@, start_date),
    ensures
        spec_plan_length_days(plan_name@) is Some ==> rec is Some,
        rec matches Some(rec) ==> {
            &&& rec.user_id == user_id
            &&& rec.user_unlocked == user_unlocked
            &&& rec.plan_name@ == plan_name@
            &&& rec.start_date == start_date
            &&& rec.end_date.is_valid()
            &&& match spec_plan_length_days(plan_name@) {
                Some(days) => rec.end_date == start_date.spec_plus_days(days as int),
                None => rec.end_date.nanos < NANOS_PER_SECOND,
            }
            &&& rec.start_date_text@ == rfc3339_text(start_date.secs, start_date.nanos)
            &&& rec.end_date_text@ == rfc3339_text(rec.end_date.secs, rec.end_date.nanos)
            &&& in_rfc3339_years(start_date) ==> rfc3339_instant(rec.start_date_text@) == Some(
                (start_date.secs, start_date.nanos),
            )
            &&& in_rfc3339_years(rec.end_date) ==> rfc3339_instant(rec.end_date_text@) == Some(
                (rec.end_date.secs, rec.end_date.nanos),
            )
            &&& in_rfc3339_years(rec.end_date) ==> forall|now: Timestamp|
                #[trigger] end_date_text_running(rec.end_date_text@, now) == is_after(
                    rec.end_date,
                    now,
                )
        },
{
    match end_date_calculator(plan_name, start_date) {
        Some(end_date) => {
            let start_date_text = format_rfc3339(start_date);
            let end_date_text = format_rfc3339(end_date);
            Some(
                SubscriptionRecord {
                    user_id,
                    user_unlocked,
                    plan_name: plan_name.to_owned(),
                    start_date,
                    end_date,
                    start_date_text,
                    end_date_text,
                },
            )
        },
        None => None,
    }
}

/// An end date stored as RFC 3339 text marks a running subscription when it
/// reads as an instant after `now`.
pub open spec fn end_date_text_running(text: Seq<char>, now: Timestamp) -> bool {
    match rfc3339_instant(text) {
        Some((secs, nanos)) => is_after(Timestamp { secs, nanos }, now),
        None => false,
    }
}

/// A stored end date, possibly missing, marks a running subscription.
pub open spec fn end_date_running(end_date: Option<String>, now: Timestamp) -> bool {
    match end_date {
        Some(text) => end_date_text_running(text@, now),
        None => false,
    }
}

/// Among the end dates stored for a subscriber, one that reads back as an
/// instant after `now` makes the subscriber count as subscribed at `now`; in
/// particular the end date text stored by `new_subscription` (for an end date
/// in the years 0 to 9999) does so at every time before that end date.
pub proof fn lemma_stored_end_date_subscribes(
    end_dates: Seq<Option<String>>,
    i: int,
    end_date: Timestamp,
    now: Timestamp,
)
    requires
        0 <= i < end_dates.len(),
        end_dates[i] matches Some(text) && rfc3339_instant(text@) == Some(
            (end_date.secs, end_date.nanos),
        ),
        is_after(end_date, now),
    ensures
        exists|j: int| 0 <= j < end_dates.len() && #[trigger] end_date_running(end_dates[j], now),
{
    assert(end_date_running(end_dates[i], now));
}

/// A subscriber counts as subscribed at `now` exactly when some stored end
/// date reads back as an instant strictly later than `now`: one whose whole
/// seconds exceed those of `now`, or, within the same second, whose fraction
/// does; end dates at or before `now`, missing or unreadable, never count.
pub proof fn lemma_subscribed_iff_later_end_date(end_dates: Seq<Option<String>>, now: Timestamp)
    ensures
        (exists|j: int| 0 <= j < end_dates.len() && #[trigger] end_date_running(end_dates[j], now))
            <==> (exists|j: int|
            0 <= j < end_dates.len() && #[trigger] end_date_later_than(end_dates[j], now)),
{
    assert forall|j: int| 0 <= j < end_dates.len() implies end_date_running(end_dates[j], now)
        == end_date_later_than(end_dates[j], now) by {
        match end_dates[j] {
            Some(text) => {
                match rfc3339_instant(text@) {
                    Some((secs, nanos)) => {
                        crate::time::lemma_is_after_is_time_order(
                            Timestamp { secs, nanos },
                            now,
                            now,
                        );
                    },
                    None => {},
                }
            },
            None => {},
        }
    }
    if exists|j: int| 0 <= j < end_dates.len() && #[trigger] end_date_running(end_dates[j], now) {
        let j = choose|j: int| 0 <= j < end_dates.len() && #[trigger] end_date_running(end_dates[j], now);
        assert(end_date_later_than(end_dates[j], now));
    }
    if exists|j: int| 0 <= j < end_dates.len() && #[trigger] end_date_later_than(end_dates[j], now) {
        let j = choose|j: int| 0 <= j < end_dates.len() && #[trigger] end_date_later_than(end_dates[j], now);
        assert(end_date_running(end_dates[j], now));
    }
}

/// A stored end date reads back as an instant whose seconds exceed those of
/// `now`, or, within the same second, whose nanoseconds do.
pub open spec fn end_date_later_than(end_date: Option<String>, now: Timestamp) -> bool {
    end_date matches Some(text) && rfc3339_instant(text@) matches Some((secs, nanos)) && (secs
        > now.secs || (secs == now.secs && nanos > now.nanos))
}

/// A user is subscribed at `now` when one of the end dates stored for the
/// subscription lies after `now`; a missing or unreadable end date counts
/// as ended.
pub fn subscribed_at(end_dates: &Vec<Option<String>>, now: Timestamp) -> (r: bool)
    ensures
        r == exists|i: int|
            0 <= i < end_dates@.len() && #[trigger] end_date_running(end_dates@[i], now),
{
    let mut i: usize = 0;
    while i < end_dates.len()
        invariant
            i <= end_dates@.len(),
            forall|j: int| 0 <= j < i ==> !#[trigger] end_date_running(end_dates@[j], now),
        decreases end_dates@.len() - i,
    {
        match &end_dates[i] {
            Some(text) => {
                match parse_rfc3339(text.as_str()) {
                    Some(t) => {
                        if t.secs > now.secs || (t.secs == now.secs && t.nanos > now.nanos) {
                            assert(end_date_running(end_dates@[i as int], now));
                            return true;
                        }
                    },
                    None => {},
                }
            },
            None => {},
        }
        i = i + 1;
    }
    false
}

} // verus!
