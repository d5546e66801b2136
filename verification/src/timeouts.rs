//! Absolute time and timers.

use std::collections::BTreeSet;
use vstd::prelude::*;

use crate::duration::{Duration, NANOS_PER_MILLI, NANOS_PER_SEC};

verus! {

/// UNIX timestamp which helps working with absolute time.
///
/// Holds the number of milliseconds since the UNIX epoch.
#[derive(Copy, Clone, PartialEq, Eq, PartialOrd, Ord, Hash, Debug, Structural)]
pub struct Timestamp(pub u128);

/// Declares the point in time which the system clock reads.
#[verifier::external_type_specification]
#[verifier::external_body]
pub struct ExSystemTime(std::time::SystemTime);

/// Reads the system clock with `std::time::SystemTime::now`.
///
/// Nothing is claimed of the reading.
#[verifier::external_body]
fn read_clock() -> std::time::SystemTime {
    std::time::SystemTime::now()
}

/// Seconds and additional nanoseconds from the UNIX epoch to `time`, as told by
/// `std::time::SystemTime::duration_since`; `None` if `time` is before the epoch.
///
/// Claims that the additional nanoseconds do not make up a whole second. What the two numbers are
/// depends on the reading of the clock and is left unsaid.
#[verifier::external_body]
fn since_unix_epoch(time: std::time::SystemTime) -> (res: Option<(u64, u32)>)
    ensures
        res matches Some(elapsed) ==> elapsed.1 < NANOS_PER_SEC,
{
    match time.duration_since(std::time::SystemTime::UNIX_EPOCH) {
        Ok(elapsed) => Some((elapsed.as_secs(), elapsed.subsec_nanos())),
        Err(_) => None,
    }
}

/// The latest moment which the system clock can read.
pub open spec fn clock_limit() -> int {
    u64::MAX * 1000 + 999
}

/// Whether the system clock may read `elapsed`: the seconds and additional nanoseconds which have
/// passed since the UNIX epoch, or nothing if it is set to a moment before the epoch.
pub closed spec fn clock_reads(elapsed: Option<(u64, u32)>) -> bool {
    exists|clock: std::time::SystemTime|
        {
            &&& #[trigger] call_ensures(read_clock, (), clock)
            &&& call_ensures(since_unix_epoch, (clock,), elapsed)
        }
}

/// The timestamp of a reading of the system clock: its whole milliseconds, unless the clock is set
/// to a moment before the UNIX epoch.
pub open spec fn reading(elapsed: Option<(u64, u32)>) -> Option<Timestamp> {
    match elapsed {
        Some((secs, nanos)) => Some(Timestamp((secs * 1000 + nanos / NANOS_PER_MILLI) as u128)),
        None => None,
    }
}

impl Timestamp {
    /// Creates timestamp matching the current moment.
    ///
    /// # Returns
    ///
    /// `None` if the system clock is set to a moment before the UNIX epoch.
    pub fn now() -> (res: Option<Timestamp>)
        ensures
            exists|elapsed: Option<(u64, u32)>| #[trigger]
                clock_reads(elapsed) && res == reading(elapsed),
            res matches Some(time) ==> time.0 <= clock_limit(),
    {
        let elapsed = since_unix_epoch(read_clock());
        assert(clock_reads(elapsed));
        match elapsed {
            Some(elapsed) => Some(Timestamp::from_elapsed(Duration::new(elapsed.0, elapsed.1))),
            None => None,
        }
    }

    /// Constructs timestamp from the time elapsed since the UNIX epoch, dropping what does not make
    /// up a whole millisecond.
    pub fn from_elapsed(elapsed: Duration) -> (res: Timestamp)
        ensures
            res.0 == elapsed@ / NANOS_PER_MILLI as nat,
            res.0 <= clock_limit(),
    {
        Timestamp(elapsed.as_millis())
    }

    /// Constructs timestamp from a given number of seconds since the UNIX epoch.
    pub fn from_secs(secs: u64) -> (res: Timestamp)
        ensures
            res.0 == secs * 1000,
    {
        Timestamp(secs as u128 * 1000)
    }

    /// Constructs timestamp from a given number of milliseconds since the UNIX epoch.
    pub fn from_millis(millis: u128) -> (res: Timestamp)
        ensures
            res.0 == millis,
    {
        Timestamp(millis)
    }

    /// Returns number of seconds since UNIX epoch. Superseded by [`Timestamp::as_secs`].
    pub fn into_secs(self) -> (secs: u64)
        ensures
            secs == (self.0 / 1000) % 0x1_0000_0000_0000_0000,
    {
        self.as_secs()
    }

    /// Returns number of seconds since UNIX epoch.
    ///
    /// Only the lower 64 bits of the number are kept.
    pub fn as_secs(&self) -> (secs: u64)
        ensures
            secs == (self.0 / 1000) % 0x1_0000_0000_0000_0000,
    {
        let secs: u128 = self.0 / 1000;
        assert(secs as u64 == secs % 0x1_0000_0000_0000_0000) by (bit_vector);
        #[verifier::truncate]
        (secs as u64)
    }

    /// Returns number of milliseconds since UNIX epoch.
    ///
    /// Only the lower 64 bits of the number are kept: there is enough space in them to store a UNIX
    /// timestamp in millisecond precision for millions of years.
    pub fn as_millis(&self) -> (millis: u64)
        ensures
            millis == self.0 % 0x1_0000_0000_0000_0000,
    {
        let millis: u128 = self.0;
        assert(millis as u64 == millis % 0x1_0000_0000_0000_0000) by (bit_vector);
        #[verifier::truncate]
        (millis as u64)
    }
}

impl std::ops::Add<Duration> for Timestamp {
    type Output = Timestamp;

    /// The moment which comes the whole milliseconds of `rhs` later.
    fn add(self, rhs: Duration) -> (res: Timestamp) {
        Timestamp(self.0 + rhs.as_millis())
    }
}

impl vstd::std_specs::ops::AddSpecImpl<Duration> for Timestamp {
    open spec fn obeys_add_spec() -> bool {
        true
    }

    open spec fn add_req(self, rhs: Duration) -> bool {
        self.0 + rhs@ / NANOS_PER_MILLI as nat <= u128::MAX
    }

    open spec fn add_spec(self, rhs: Duration) -> Timestamp {
        Timestamp((self.0 + rhs@ / NANOS_PER_MILLI as nat) as u128)
    }
}

impl std::ops::Sub<Duration> for Timestamp {
    type Output = Timestamp;

    /// The moment which comes the whole milliseconds of `rhs` earlier.
    fn sub(self, rhs: Duration) -> (res: Timestamp) {
        Timestamp(self.0 - rhs.as_millis())
    }
}

impl vstd::std_specs::ops::SubSpecImpl<Duration> for Timestamp {
    open spec fn obeys_sub_spec() -> bool {
        true
    }

    open spec fn sub_req(self, rhs: Duration) -> bool {
        rhs@ / NANOS_PER_MILLI as nat <= self.0
    }

    open spec fn sub_spec(self, rhs: Duration) -> Timestamp {
        Timestamp((self.0 - rhs@ / NANOS_PER_MILLI as nat) as u128)
    }
}

impl std::ops::Add for Timestamp {
    type Output = Timestamp;

    /// The sum of the milliseconds.
    fn add(self, rhs: Timestamp) -> (res: Timestamp) {
        Timestamp(self.0 + rhs.0)
    }
}

impl vstd::std_specs::ops::AddSpecImpl for Timestamp {
    open spec fn obeys_add_spec() -> bool {
        true
    }

    open spec fn add_req(self, rhs: Timestamp) -> bool {
        self.0 + rhs.0 <= u128::MAX
    }

    open spec fn add_spec(self, rhs: Timestamp) -> Timestamp {
        Timestamp((self.0 + rhs.0) as u128)
    }
}

impl std::ops::Sub for Timestamp {
    type Output = Timestamp;

    /// The difference of the milliseconds.
    fn sub(self, rhs: Timestamp) -> (res: Timestamp) {
        Timestamp(self.0 - rhs.0)
    }
}

impl vstd::std_specs::ops::SubSpecImpl for Timestamp {
    open spec fn obeys_sub_spec() -> bool {
        true
    }

    open spec fn sub_req(self, rhs: Timestamp) -> bool {
        rhs.0 <= self.0
    }

    open spec fn sub_spec(self, rhs: Timestamp) -> Timestamp {
        Timestamp((self.0 - rhs.0) as u128)
    }
}

impl From<u128> for Timestamp {
    /// Takes the number of milliseconds since the UNIX epoch.
    fn from(millis: u128) -> (res: Timestamp) {
        Timestamp(millis)
    }
}

impl vstd::std_specs::convert::FromSpecImpl<u128> for Timestamp {
    open spec fn obeys_from_spec() -> bool {
        true
    }

    open spec fn from_spec(millis: u128) -> Timestamp {
        Timestamp(millis)
    }
}

/// What a timestamp can be moved by.
pub trait Span {
    /// The whole milliseconds of the span.
    spec fn millis(&self) -> nat;

    /// The whole milliseconds of the span.
    fn whole_millis(&self) -> (millis: u128)
        ensures
            millis == self.millis(),
    ;
}

impl Span for Duration {
    open spec fn millis(&self) -> nat {
        self@ / NANOS_PER_MILLI as nat
    }

    fn whole_millis(&self) -> (millis: u128) {
        self.as_millis()
    }
}

impl Span for Timestamp {
    open spec fn millis(&self) -> nat {
        self.0 as nat
    }

    fn whole_millis(&self) -> (millis: u128) {
        self.0
    }
}

impl Timestamp {
    /// Moves the timestamp the whole milliseconds of `rhs` later.
    pub fn add_assign<S: Span>(&mut self, rhs: S)
        requires
            old(self).0 + rhs.millis() <= u128::MAX,
        ensures
            final(self).0 == old(self).0 + rhs.millis(),
    {
        self.0 = self.0 + rhs.whole_millis();
    }

    /// Moves the timestamp the whole milliseconds of `rhs` earlier.
    pub fn sub_assign<S: Span>(&mut self, rhs: S)
        requires
            rhs.millis() <= old(self).0,
        ensures
            final(self).0 == old(self).0 - rhs.millis(),
    {
        self.0 = self.0 - rhs.whole_millis();
    }
}

/// Returns the least number of a set with `BTreeSet::first`.
///
/// Claims that there is none if and only if the set is empty, and that the number belongs to the
/// set with no other number of the set below it.
#[verifier::external_body]
fn least(set: &BTreeSet<u128>) -> (res: Option<u128>)
    ensures
        match res {
            Some(min) => set@.contains(min) && forall|t: u128| #[trigger]
                set@.contains(t) ==> min <= t,
            None => set@.is_empty(),
        },
{
    set.first().copied()
}

/// Splits a set in two at the number `at` with `BTreeSet::split_off`.
///
/// Claims that the returned set takes over the numbers which are not below `at`, and that the
/// numbers below `at` stay.
#[verifier::external_body]
fn split_off(set: &mut BTreeSet<u128>, at: u128) -> (res: BTreeSet<u128>)
    ensures
        final(set)@ == old(set)@.filter(|t: u128| t < at),
        res@ == old(set)@.filter(|t: u128| at <= t),
{
    set.split_off(&at)
}

/// Manages timers and triggers timeouts.
///
/// Its view is the set of the moments at which the timeouts expire, as milliseconds since the UNIX
/// epoch.
#[derive(Debug)]
pub struct Timer {
    /// Timeouts are durations since the UNIX epoch.
    timeouts: BTreeSet<u128>,
}

impl View for Timer {
    type V = Set<u128>;

    closed spec fn view(&self) -> Set<u128> {
        self.timeouts@
    }
}

/// The timeouts of a set which expire by the moment `time`, inclusive.
pub open spec fn expired_by(timeouts: Set<u128>, time: Timestamp) -> Set<u128> {
    timeouts.filter(|t: u128| t <= time.0)
}

/// The timeouts of a set which expire after the moment `time`.
pub open spec fn unexpired_by(timeouts: Set<u128>, time: Timestamp) -> Set<u128> {
    timeouts.filter(|t: u128| time.0 < t)
}

/// Whether `first` is the timeout of a set which expires before all the others.
pub open spec fn is_first(timeouts: Set<u128>, first: u128) -> bool {
    timeouts.contains(first) && forall|t: u128| #[trigger] timeouts.contains(t) ==> first <= t
}

/// The number of milliseconds to wait at the moment `time` for a timeout which expires at `first`.
///
/// The lower 64 bits of the two timestamps are subtracted.
pub open spec fn wait_millis(first: u128, time: Timestamp) -> int {
    if first >= time.0 {
        first % 0x1_0000_0000_0000_0000 - time.0 % 0x1_0000_0000_0000_0000
    } else {
        0
    }
}

/// Whether the time to wait at the moment `time` for the first timeout can be told.
///
/// It can always be told if the timestamps fit into 64 bits.
pub open spec fn can_wait(timeouts: Set<u128>, time: Timestamp) -> bool {
    forall|first: u128| is_first(timeouts, first) ==> #[trigger] wait_millis(first, time) >= 0
}

/// Whether `wait` is the time to wait at the moment `time` for the first of the timeouts.
pub open spec fn is_wait(timeouts: Set<u128>, time: Timestamp, wait: Duration) -> bool {
    exists|first: u128|
        is_first(timeouts, first) && wait@ == #[trigger] wait_millis(first, time)
            * NANOS_PER_MILLI
}

impl Timer {
    /// Create a new timer containing no timeouts.
    pub fn new() -> (res: Timer)
        ensures
            res@ == Set::<u128>::empty(),
    {
        Timer { timeouts: BTreeSet::new() }
    }

    /// Return the number of timeouts being tracked.
    pub fn count(&self) -> (count: usize)
        ensures
            count == self@.len(),
    {
        self.timeouts.len()
    }

    /// Check whether there are timeouts being tracked.
    pub fn has_timeouts(&self) -> (res: bool)
        ensures
            res == !self@.is_empty(),
    {
        !self.timeouts.is_empty()
    }

    /// Register a new timeout relative to a certain point in time.
    pub fn set_timeout(&mut self, timeout: Duration, after: Timestamp)
        requires
            after.0 + timeout@ / NANOS_PER_MILLI as nat <= u128::MAX,
        ensures
            final(self)@ == old(self)@.insert(
                (after.0 + timeout@ / NANOS_PER_MILLI as nat) as u128,
            ),
    {
        let time = after + Timestamp(timeout.as_millis());
        self.timeouts.insert(time.0);
    }

    /// Check whether [`Timer::next_expiring_from`] can tell the time to wait at a certain moment.
    pub fn can_wait_from(&self, time: Timestamp) -> (res: bool)
        ensures
            res == can_wait(self@, time),
    {
        match least(&self.timeouts) {
            Some(last) => {
                let last = Timestamp(last);
                assert(is_first(self@, last.0));
                assert(forall|first: u128| is_first(self@, first) ==> first == last.0);
                let res = last.0 < time.0 || last.as_millis() >= time.as_millis();
                assert(res == (wait_millis(last.0, time) >= 0));
                res
            },
            None => true,
        }
    }

    /// Get the time to wait at a certain moment for the first timeout to expire: nothing if it has
    /// expired already.
    ///
    /// # Returns
    ///
    /// `None` if there are no timeouts.
    pub fn next_expiring_from(&self, time: Timestamp) -> (res: Option<Duration>)
        requires
            can_wait(self@, time),
        ensures
            res is None <==> self@.is_empty(),
            res matches Some(wait) ==> is_wait(self@, time, wait),
    {
        let last = match least(&self.timeouts) {
            Some(last) => Timestamp(last),
            None => return None,
        };
        assert(is_first(self@, last.0));
        assert(wait_millis(last.0, time) >= 0);
        Some(
            if last.0 >= time.0 {
                Duration::from_millis(last.as_millis() - time.as_millis())
            } else {
                Duration::from_secs(0)
            },
        )
    }

    /// Removes timeouts which expire by a certain moment of time (inclusive), returning total
    /// number of timeouts which were removed.
    pub fn remove_expired_by(&mut self, time: Timestamp) -> (fired: usize)
        ensures
            final(self)@ == unexpired_by(old(self)@, time),
            fired == expired_by(old(self)@, time).len(),
    {
        // No timeout is later than the last moment.
        if time.0 == u128::MAX {
            assert(self.timeouts@ =~= expired_by(old(self)@, time));
            let fired = self.timeouts.len();
            self.timeouts = BTreeSet::new();
            assert(self.timeouts@ =~= unexpired_by(old(self)@, time));
            return fired;
        }
        // Splitting keeps the timeouts which are set for exactly the given moment with the later
        // ones, hence the split is done one millisecond later.
        let at = time + Timestamp::from_millis(1);
        let unexpired = split_off(&mut self.timeouts, at.0);
        assert(self.timeouts@ =~= expired_by(old(self)@, time));
        assert(unexpired@ =~= unexpired_by(old(self)@, time));
        let fired = self.timeouts.len();
        self.timeouts = unexpired;
        fired
    }
}

impl Default for Timer {
    fn default() -> (res: Timer)
        ensures
            res@ == Set::<u128>::empty(),
    {
        Timer::new()
    }
}

impl Timer {
    /// A timer tracks finitely many timeouts.
    pub proof fn law_finite(&self)
        ensures
            self@.finite(),
    {
        broadcast use vstd::std_specs::btree::axiom_spec_btree_keys_iter;

        let keys = vstd::std_specs::iter::IteratorSpec::remaining(
            &vstd::std_specs::btree::spec_btree_keys_iter(&self.timeouts),
        );
        assert(keys.unref().to_set() == self@);
        vstd::seq_lib::seq_to_set_is_finite(keys.unref());
    }
}

/// A timeout of a certain duration which is set at a certain moment expires exactly when its whole
/// milliseconds have passed, and not before.
pub proof fn law_timeout_expires_in_time(
    timeouts: Set<u128>,
    timeout: Duration,
    after: Timestamp,
    time: Timestamp,
)
    requires
        after.0 + timeout@ / NANOS_PER_MILLI as nat <= u128::MAX,
    ensures
        ({
            let moment = (after.0 + timeout@ / NANOS_PER_MILLI as nat) as u128;
            let set = timeouts.insert(moment);
            &&& expired_by(set, time).contains(moment) <==> time.0 - after.0 >= timeout@
                / NANOS_PER_MILLI as nat
            &&& unexpired_by(set, time).contains(moment) <==> time.0 - after.0 < timeout@
                / NANOS_PER_MILLI as nat
        }),
{
}

/// Setting a timeout which is already tracked changes nothing, and setting another one adds one to
/// the number of timeouts.
pub proof fn law_same_timeout_is_tracked_once(timeouts: Set<u128>, moment: u128)
    requires
        timeouts.finite(),
    ensures
        timeouts.contains(moment) ==> timeouts.insert(moment) == timeouts,
        !timeouts.contains(moment) ==> timeouts.insert(moment).len() == timeouts.len() + 1,
{
    if timeouts.contains(moment) {
        assert(timeouts.insert(moment) =~= timeouts);
    }
}

/// Each timeout is either removed or kept by the removal of the expired ones, never both: the
/// number of the removed timeouts and of the kept ones make up the number of all.
pub proof fn law_removal_loses_no_timeout(timeouts: Set<u128>, time: Timestamp)
    requires
        timeouts.finite(),
    ensures
        expired_by(timeouts, time).disjoint(unexpired_by(timeouts, time)),
        expired_by(timeouts, time).union(unexpired_by(timeouts, time)) == timeouts,
        expired_by(timeouts, time).len() + unexpired_by(timeouts, time).len() == timeouts.len(),
{
    let expired = expired_by(timeouts, time);
    let unexpired = unexpired_by(timeouts, time);
    assert(expired.union(unexpired) =~= timeouts);
    timeouts.lemma_len_filter(|t: u128| t <= time.0);
    timeouts.lemma_len_filter(|t: u128| time.0 < t);
    vstd::set_lib::lemma_set_disjoint_lens(expired, unexpired);
}

/// Removing the expired timeouts at one moment and then at a later one removes the same timeouts
/// as removing them at the later moment alone, none of them twice.
pub proof fn law_removals_add_up(timeouts: Set<u128>, earlier: Timestamp, later: Timestamp)
    requires
        timeouts.finite(),
        earlier.0 <= later.0,
    ensures
        unexpired_by(unexpired_by(timeouts, earlier), later) == unexpired_by(timeouts, later),
        expired_by(timeouts, earlier).len() + expired_by(
            unexpired_by(timeouts, earlier),
            later,
        ).len() == expired_by(timeouts, later).len(),
{
    let kept = unexpired_by(timeouts, earlier);
    assert(unexpired_by(kept, later) =~= unexpired_by(timeouts, later));
    let first = expired_by(timeouts, earlier);
    let second = expired_by(kept, later);
    timeouts.lemma_len_filter(|t: u128| t <= earlier.0);
    timeouts.lemma_len_filter(|t: u128| earlier.0 < t);
    kept.lemma_len_filter(|t: u128| t <= later.0);
    assert(first.union(second) =~= expired_by(timeouts, later));
    vstd::set_lib::lemma_set_disjoint_lens(first, second);
}

/// There is always a timeout which expires first, unless there are no timeouts at all.
pub proof fn law_some_timeout_is_first(timeouts: Set<u128>) -> (first: u128)
    requires
        timeouts.finite(),
        !timeouts.is_empty(),
    ensures
        is_first(timeouts, first),
    decreases timeouts.len(),
{
    let some = timeouts.choose();
    let rest = timeouts.remove(some);
    if rest.is_empty() {
        assert forall|t: u128| #[trigger] timeouts.contains(t) implies some <= t by {
            assert(rest.contains(t) || t == some);
        }
        some
    } else {
        let first = law_some_timeout_is_first(rest);
        let res = if first <= some {
            first
        } else {
            some
        };
        assert forall|t: u128| #[trigger] timeouts.contains(t) implies res <= t by {
            assert(rest.contains(t) || t == some);
        }
        res
    }
}

/// Waiting for the advised time makes a timeout expire, and no timeout expires before that, as long
/// as the timestamps fit into 64 bits.
pub proof fn law_waiting_makes_timeout_expire(timeouts: Set<u128>, first: u128, time: Timestamp)
    requires
        is_first(timeouts, first),
        first <= u64::MAX,
        time.0 <= u64::MAX,
    ensures
        wait_millis(first, time) >= 0,
        expired_by(timeouts, Timestamp((time.0 + wait_millis(first, time)) as u128)).contains(
            first,
        ),
        forall|moment: Timestamp|
            time.0 <= moment.0 < time.0 + wait_millis(first, time) ==> (#[trigger] expired_by(
                timeouts,
                moment,
            )).is_empty(),
{
    assert forall|moment: Timestamp|
        time.0 <= moment.0 < time.0 + wait_millis(first, time) implies (#[trigger] expired_by(
        timeouts,
        moment,
    )).is_empty() by {
        assert(expired_by(timeouts, moment) =~= Set::empty());
    }
}

/// There is no need to wait if and only if some timeout has expired, as long as the timestamps fit
/// into 64 bits.
pub proof fn law_no_waiting_for_expired(timeouts: Set<u128>, first: u128, time: Timestamp)
    requires
        is_first(timeouts, first),
        first <= u64::MAX,
        time.0 <= u64::MAX,
    ensures
        wait_millis(first, time) == 0 <==> !expired_by(timeouts, time).is_empty(),
{
    if wait_millis(first, time) == 0 {
        assert(expired_by(timeouts, time).contains(first));
    } else {
        assert(expired_by(timeouts, time) =~= Set::empty());
    }
}

/// The time to wait becomes shorter by just the time which has passed, until there is nothing left
/// to wait for, as long as the timestamps fit into 64 bits.
pub proof fn law_waiting_becomes_shorter(first: u128, time: Timestamp, passed: nat)
    requires
        first <= u64::MAX,
        time.0 + passed <= u64::MAX,
    ensures
        wait_millis(first, Timestamp((time.0 + passed) as u128)) == if passed <= wait_millis(
            first,
            time,
        ) {
            wait_millis(first, time) - passed
        } else {
            0
        },
{
}

} // verus!
