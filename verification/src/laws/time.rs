//! Laws of spans of time, timestamps and timers.

use vstd::prelude::*;

use crate::duration::Duration;
use crate::timeouts::{clock_reads, Timer, Timestamp};

verus! {

/// A span consists of the seconds and the additional nanoseconds it is made of, and its
/// milliseconds are those of both parts.
pub proof fn law_duration_has_its_parts(
    secs: u64,
    nanos: u32,
    duration: Duration,
    as_secs: u64,
    subsec_nanos: u32,
    as_millis: u128,
)
    requires
        nanos < 1_000_000_000,
        call_ensures(Duration::new, (secs, nanos), duration),
        call_ensures(Duration::as_secs, (&duration,), as_secs),
        call_ensures(Duration::subsec_nanos, (&duration,), subsec_nanos),
        call_ensures(Duration::as_millis, (&duration,), as_millis),
    ensures
        duration@ == secs * 1_000_000_000 + nanos,
        as_secs == secs,
        subsec_nanos == nanos,
        as_millis == secs * 1000 + nanos / 1_000_000,
{
}

/// A span of whole seconds has just so many seconds, and a thousand milliseconds for each.
pub proof fn law_duration_of_secs(
    secs: u64,
    duration: Duration,
    as_secs: u64,
    subsec_nanos: u32,
    as_millis: u128,
)
    requires
        call_ensures(Duration::from_secs, (secs,), duration),
        call_ensures(Duration::as_secs, (&duration,), as_secs),
        call_ensures(Duration::subsec_nanos, (&duration,), subsec_nanos),
        call_ensures(Duration::as_millis, (&duration,), as_millis),
    ensures
        duration@ == secs * 1_000_000_000,
        as_secs == secs,
        subsec_nanos == 0,
        as_millis == secs * 1000,
{
}

/// A span of whole milliseconds has just so many milliseconds, a thousand of which make a second.
pub proof fn law_duration_of_millis(
    millis: u64,
    duration: Duration,
    as_secs: u64,
    subsec_nanos: u32,
    as_millis: u128,
)
    requires
        call_ensures(Duration::from_millis, (millis,), duration),
        call_ensures(Duration::as_secs, (&duration,), as_secs),
        call_ensures(Duration::subsec_nanos, (&duration,), subsec_nanos),
        call_ensures(Duration::as_millis, (&duration,), as_millis),
    ensures
        duration@ == millis * 1_000_000,
        as_secs == millis / 1000,
        subsec_nanos == (millis % 1000) * 1_000_000,
        as_millis == millis,
{
}

/// A timestamp of whole seconds gives the seconds back and has a thousand milliseconds for each.
pub proof fn law_timestamp_of_secs(secs: u64, time: Timestamp, as_secs: u64, into_secs: u64)
    requires
        call_ensures(Timestamp::from_secs, (secs,), time),
        call_ensures(Timestamp::as_secs, (&time,), as_secs),
        call_ensures(Timestamp::into_secs, (time,), into_secs),
    ensures
        time.0 == secs * 1000,
        as_secs == secs,
        into_secs == secs,
{
}

/// A timestamp holds the milliseconds it is made of. They are given back, and so are their whole
/// seconds, up to what fits into 64 bits.
pub proof fn law_timestamp_of_millis(
    millis: u128,
    time: Timestamp,
    converted: Timestamp,
    as_millis: u64,
    as_secs: u64,
    into_secs: u64,
)
    requires
        call_ensures(Timestamp::from_millis, (millis,), time),
        call_ensures(<Timestamp as From<u128>>::from, (millis,), converted),
        call_ensures(Timestamp::as_millis, (&time,), as_millis),
        call_ensures(Timestamp::as_secs, (&time,), as_secs),
        call_ensures(Timestamp::into_secs, (time,), into_secs),
    ensures
        time.0 == millis,
        converted == time,
        as_millis == millis % 0x1_0000_0000_0000_0000,
        millis <= u64::MAX ==> as_millis == millis,
        as_secs == (millis / 1000) % 0x1_0000_0000_0000_0000,
        into_secs == as_secs,
{
}

/// The timestamp of the time which has elapsed since the UNIX epoch has its whole milliseconds.
pub proof fn law_timestamp_from_elapsed(
    secs: u64,
    nanos: u32,
    elapsed: Duration,
    time: Timestamp,
)
    requires
        nanos < 1_000_000_000,
        call_ensures(Duration::new, (secs, nanos), elapsed),
        call_ensures(Timestamp::from_elapsed, (elapsed,), time),
    ensures
        time.0 == secs * 1000 + nanos / 1_000_000,
{
}

/// The current moment is that of some reading of the clock, and there is none if and only if the
/// reading is before the UNIX epoch.
pub proof fn law_now_is_read_from_clock(res: Option<Timestamp>)
    requires
        call_ensures(Timestamp::now, (), res),
    ensures
        exists|elapsed: Option<(u64, u32)>|
            {
                &&& #[trigger] clock_reads(elapsed)
                &&& match elapsed {
                    Some((secs, nanos)) => {
                        &&& res matches Some(time)
                        &&& time.0 == secs * 1000 + nanos / 1_000_000
                    },
                    None => res is None,
                }
            },
{
}

/// A span moves a timestamp by its whole milliseconds, and moving back undoes that.
pub proof fn law_moving_by_duration(
    secs: u64,
    nanos: u32,
    duration: Duration,
    time: Timestamp,
    later: Timestamp,
    back: Timestamp,
)
    requires
        nanos < 1_000_000_000,
        time.0 + secs * 1000 + nanos / 1_000_000 <= u128::MAX,
        call_ensures(Duration::new, (secs, nanos), duration),
        call_ensures(<Timestamp as std::ops::Add<Duration>>::add, (time, duration), later),
        call_ensures(<Timestamp as std::ops::Sub<Duration>>::sub, (later, duration), back),
    ensures
        later.0 == time.0 + secs * 1000 + nanos / 1_000_000,
        back == time,
{
}

/// A timestamp is moved in place in the same way.
pub proof fn law_moving_in_place_by_duration(
    secs: u64,
    nanos: u32,
    duration: Duration,
    later: &mut Timestamp,
    back: &mut Timestamp,
    out: (),
)
    requires
        nanos < 1_000_000_000,
        call_ensures(Duration::new, (secs, nanos), duration),
        call_ensures(Timestamp::add_assign::<Duration>, (later, duration), out),
        *back == *final(later),
        call_ensures(Timestamp::sub_assign::<Duration>, (back, duration), out),
    ensures
        final(later).0 == old(later).0 + secs * 1000 + nanos / 1_000_000,
        *final(back) == *old(later),
{
}

/// Timestamps are added and subtracted by their milliseconds, in place and not.
pub proof fn law_moving_by_timestamp(
    time: Timestamp,
    by: Timestamp,
    later: Timestamp,
    back: Timestamp,
    later_in_place: &mut Timestamp,
    back_in_place: &mut Timestamp,
    out: (),
)
    requires
        time.0 + by.0 <= u128::MAX,
        call_ensures(<Timestamp as std::ops::Add>::add, (time, by), later),
        call_ensures(<Timestamp as std::ops::Sub>::sub, (later, by), back),
        *later_in_place == time,
        call_ensures(Timestamp::add_assign::<Timestamp>, (later_in_place, by), out),
        *back_in_place == *final(later_in_place),
        call_ensures(Timestamp::sub_assign::<Timestamp>, (back_in_place, by), out),
    ensures
        later.0 == time.0 + by.0,
        back == time,
        *final(later_in_place) == later,
        *final(back_in_place) == time,
{
}

/// A new timer tracks nothing.
pub proof fn law_new_timer_is_empty(timer: Timer, default: Timer, count: usize)
    requires
        call_ensures(Timer::new, (), timer),
        call_ensures(<Timer as Default>::default, (), default),
        call_ensures(Timer::count, (&timer,), count),
    ensures
        forall|t: u128| !(#[trigger] timer@.contains(t)) && !default@.contains(t),
        count == 0,
{
}

/// There are timeouts if and only if they count to more than none.
pub proof fn law_timeouts_are_counted(timer: Timer, count: usize, has_timeouts: bool)
    requires
        call_ensures(Timer::count, (&timer,), count),
        call_ensures(Timer::has_timeouts, (&timer,), has_timeouts),
    ensures
        count == timer@.len(),
        has_timeouts <==> count > 0,
        has_timeouts <==> exists|t: u128| #[trigger] timer@.contains(t),
{
    timer.law_finite();
    if has_timeouts {
        assert(timer@.contains(timer@.choose()));
    }
}

/// Setting a timeout tracks the moment which comes the whole milliseconds of the span later, and
/// changes nothing else.
pub proof fn law_timeout_is_set(
    timer: &mut Timer,
    secs: u64,
    nanos: u32,
    timeout: Duration,
    after: Timestamp,
    out: (),
)
    requires
        nanos < 1_000_000_000,
        after.0 + secs * 1000 + nanos / 1_000_000 <= u128::MAX,
        call_ensures(Duration::new, (secs, nanos), timeout),
        call_ensures(Timer::set_timeout, (timer, timeout, after), out),
    ensures
        forall|t: u128| #[trigger]
            final(timer)@.contains(t) <==> old(timer)@.contains(t) || t == after.0 + secs * 1000
                + nanos / 1_000_000,
{
}

/// Removal takes out just the timeouts which are not later than the moment, and counts each of them
/// once.
pub proof fn law_expired_timeouts_are_removed(timer: &mut Timer, time: Timestamp, fired: usize)
    requires
        call_ensures(Timer::remove_expired_by, (timer, time), fired),
    ensures
        forall|t: u128| #[trigger]
            final(timer)@.contains(t) <==> old(timer)@.contains(t) && time.0 < t,
        fired + final(timer)@.len() == old(timer)@.len(),
        fired > 0 <==> exists|t: u128| #[trigger] old(timer)@.contains(t) && t <= time.0,
{
    let before = *timer;
    before.law_finite();
    crate::timeouts::law_removal_loses_no_timeout(before@, time);
    let expired = crate::timeouts::expired_by(before@, time);
    before@.lemma_len_filter(|t: u128| t <= time.0);
    if fired > 0 {
        assert(expired.contains(expired.choose()));
        assert(before@.contains(expired.choose()));
    }
    if exists|t: u128| #[trigger] before@.contains(t) && t <= time.0 {
        let t = choose|t: u128| #[trigger] before@.contains(t) && t <= time.0;
        assert(expired.contains(t));
    }
}

/// The time to wait is that from the moment to the first of the timeouts, and nothing if that has
/// passed. There is nothing to wait for if and only if there are no timeouts.
///
/// What does not fit into 64 bits is left out of the two moments before their distance is taken.
pub proof fn law_waiting_for_first_timeout(
    timer: Timer,
    time: Timestamp,
    res: Option<Duration>,
    first: u128,
    as_millis: u128,
)
    requires
        call_ensures(Timer::next_expiring_from, (&timer, time), res),
        res matches Some(wait) ==> call_ensures(Duration::as_millis, (&wait,), as_millis),
    ensures
        res is None <==> forall|t: u128| !(#[trigger] timer@.contains(t)),
        timer@.contains(first) && (forall|t: u128| #[trigger] timer@.contains(t) ==> first <= t)
            ==> {
            &&& res is Some
            &&& first < time.0 ==> res->0@ == 0
            &&& time.0 <= first <= u64::MAX ==> {
                &&& res->0@ == (first - time.0) * 1_000_000
                &&& as_millis == first - time.0
            }
            &&& time.0 <= first ==> res->0@ == (first % 0x1_0000_0000_0000_0000 - time.0
                % 0x1_0000_0000_0000_0000) * 1_000_000
        },
{
    if res is None {
        assert(forall|t: u128| !(#[trigger] timer@.contains(t)));
    } else {
        assert(!timer@.is_empty());
        assert(timer@.contains(timer@.choose()));
    }
}

/// The time to wait can be told if and only if the first of the timeouts has passed, or if its
/// lower 64 bits are not below those of the moment.
pub proof fn law_waiting_can_be_told(timer: Timer, time: Timestamp, can_wait: bool, first: u128)
    requires
        call_ensures(Timer::can_wait_from, (&timer, time), can_wait),
    ensures
        (forall|t: u128| !(#[trigger] timer@.contains(t))) ==> can_wait,
        timer@.contains(first) && (forall|t: u128| #[trigger] timer@.contains(t) ==> first <= t)
            ==> (can_wait <==> first < time.0 || first % 0x1_0000_0000_0000_0000 >= time.0
            % 0x1_0000_0000_0000_0000),
{
    if timer@.contains(first) && (forall|t: u128| #[trigger] timer@.contains(t) ==> first <= t) {
        assert(crate::timeouts::is_first(timer@, first));
        assert(forall|other: u128| crate::timeouts::is_first(timer@, other) ==> other == first);
        assert(crate::timeouts::wait_millis(first, time) >= 0 <==> can_wait);
    }
}

/// A timeout which was set is among those which have fired by its moment, and not before.
pub proof fn law_set_timeout_fires(
    timer: &mut Timer,
    secs: u64,
    nanos: u32,
    timeout: Duration,
    after: Timestamp,
    out: (),
    waited: &mut Timer,
    now: Timestamp,
    fired: usize,
)
    requires
        nanos < 1_000_000_000,
        after.0 + secs * 1000 + nanos / 1_000_000 <= u128::MAX,
        call_ensures(Duration::new, (secs, nanos), timeout),
        call_ensures(Timer::set_timeout, (timer, timeout, after), out),
        *waited == *final(timer),
        call_ensures(Timer::remove_expired_by, (waited, now), fired),
    ensures
        ({
            let moment = (after.0 + secs * 1000 + nanos / 1_000_000) as u128;
            &&& now.0 >= moment ==> fired > 0 && !final(waited)@.contains(moment)
            &&& now.0 < moment ==> final(waited)@.contains(moment)
        }),
{
    let moment = (after.0 + secs * 1000 + nanos / 1_000_000) as u128;
    law_timeout_is_set(timer, secs, nanos, timeout, after, out);
    law_expired_timeouts_are_removed(waited, now, fired);
    assert((*waited)@.contains(moment));
}

} // verus!
