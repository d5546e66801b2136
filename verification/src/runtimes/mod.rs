//! Reactor runtimes.
//!
//! A runtime manages the resources of a reactor and calls its service. What is done in which order
//! is decided by the [`EventLoop`], which does all the work with the runtime but the `poll`
//! syscall; the syscall is left to the driver of the loop.

use vstd::prelude::*;

pub mod controller;
pub mod engine;
pub mod event_loop;
pub mod file;
pub mod interests;
pub mod net;

pub use controller::{Controller, Ctl};
pub use engine::Engine;
pub use event_loop::{EventLoop, Phase};

use crate::duration::{Duration, NANOS_PER_MILLI};
use crate::error::IoError;
use crate::poller::{IoFail, IoType, Poll};
use crate::resource::{ResourceId, WAKER};
use crate::timeouts::{can_wait, expired_by, is_first, is_wait, wait_millis, Timer, Timestamp};

verus! {

/// Reactor errors
#[derive(Debug)]
pub enum Error<E> {
    /// Handling of a resource has failed.
    Handler(E),
    /// Polling multiple resources has failed.
    Poll(IoError),
}

/// Handler for a service run by a reactor.
///
/// Reactor reads actions of the service on each turn of the event loop using the iterator
/// interface.
pub trait ReactorHandler: Send + Iterator<Item = Self::Action> {
    /// A command which may be sent to the handler from outside the reactor, including other
    /// threads.
    ///
    /// The handler object is owned by the reactor runtime and executes always in the context of the
    /// reactor runtime thread. Thus, if other (micro)services within the app needs to communicate
    /// to the handler they have to use this data type, which usually is an enumeration for a set of
    /// commands supported by the handler.
    ///
    /// The commands are sent by using reactor [`Controller`] API.
    type Command: Send;

    /// I/O action generated within the service handler.
    type Action;

    /// Error type returned by the service handler.
    type Error;

    /// Method called by the reactor on any kind of error during the event loop, including errors of
    /// the poll syscall or I/O errors returned as a part of the poll result events.
    ///
    /// See [`enum@Error`] for the details on errors which may happen.
    fn handle_error(&mut self, err: Error<Self::Error>);

    /// Method called by the reactor on the start of each event loop once the poll has returned.
    fn tick(&mut self, time: Timestamp);

    /// Method called by the reactor when a previously set timeout is fired.
    fn handle_timer(&mut self);

    /// Method called by the reactor when a [`Self::Command`] is received for the handler.
    ///
    /// The commands are sent via [`Controller`] from outside the reactor, including other threads.
    fn handle_command(&mut self, cmd: Self::Command);
}

/// Conditions under which the reactor can't go on: they are bugs of the service or of the poll
/// engine, or a broken environment.
#[derive(Copy, Clone, PartialEq, Eq, Debug, Structural)]
pub enum Failure {
    /// The system clock is set to a moment before the UNIX epoch.
    SystemTime,
    /// A moment of time is out of the range of timestamps.
    TimeOverflow,
    /// Polling of the waker has failed.
    Waker(IoFail),
    /// The poll has reported a resource which is not a known waker, listener or transport.
    UnknownResource(ResourceId),
    /// All the numbers for resources are used up.
    ResourceOverflow,
    /// Write to a resource which is read-only or not ready for a write operation.
    NotReady(ResourceId),
    /// The control channel is broken.
    ControlChannel,
}

/// What has become of an event of the poll.
#[derive(Copy, Clone, PartialEq, Eq, Debug, Structural)]
pub enum Handled {
    /// There are no more events.
    Drained,
    /// The event has awoken the reactor.
    Awoken,
    /// The event was handled by the resource it belongs to.
    Dispatched,
    /// The event has revealed that the reactor can't go on.
    Broken(Failure),
}

/// What has become of an attempt to receive a command.
#[derive(Copy, Clone, PartialEq, Eq, Debug, Structural)]
pub enum Received {
    /// There are no more commands.
    Drained,
    /// A command was handed over to the service.
    Command,
    /// The request for shutting down was received.
    Shutdown,
    /// The control channel is broken.
    Disconnected,
}

/// What has become of an action of the service.
#[derive(Debug)]
pub enum Outcome<E> {
    /// The action is done and tells whether the reactor must proceed operating.
    Proceed(bool),
    /// The action has failed, and the service has to be told so.
    Failed(E),
    /// The action has revealed that the reactor can't go on.
    Broken(Failure),
}

/// What has become of the next action of the service.
#[derive(Copy, Clone, PartialEq, Eq, Debug, Structural)]
pub enum Performed {
    /// There are no more actions.
    Drained,
    /// The action is done and tells whether the reactor must proceed operating.
    Proceed(bool),
    /// The action has failed, and the service was told so.
    Failed,
    /// The action has revealed that the reactor can't go on.
    Broken(Failure),
}

/// Whether the waker is among the events.
pub open spec fn awakes(events: Seq<(ResourceId, Result<IoType, IoFail>)>) -> bool {
    exists|i: int| 0 <= i < events.len() && (#[trigger] events[i]).0.0 == WAKER
}

/// What becomes of an event of the poll, depending on whether there is a resource with its number.
pub open spec fn handling(
    event: (ResourceId, Result<IoType, IoFail>),
    known: bool,
) -> Handled {
    let (id, res) = event;
    if id.0 == WAKER {
        match res {
            Ok(_) => Handled::Awoken,
            Err(fail) => Handled::Broken(Failure::Waker(fail)),
        }
    } else if known {
        Handled::Dispatched
    } else {
        Handled::Broken(Failure::UnknownResource(id))
    }
}

/// Whether no two events belong to the same resource.
pub open spec fn distinct(events: Seq<(ResourceId, Result<IoType, IoFail>)>) -> bool {
    forall|i: int, j: int|
        0 <= i < j < events.len() ==> (#[trigger] events[i]).0 != (#[trigger] events[j]).0
}

/// Trait for specific reactor runtime implementations.
///
/// Reactor runtime runs inside the reactor thread and manages resources inside the reactor.
pub trait ReactorRuntime<P: Poll>: Sized {
    /// Internal consistency of the runtime.
    spec fn inv(&self) -> bool;

    /// The poll engine.
    spec fn polls_with(&self) -> P;

    /// Whether there is a resource with the given number.
    spec fn knows(&self, id: u64) -> bool;

    /// Accessor for poller, used for running a `poll` syscall with it.
    fn poller(&mut self) -> (res: &mut P)
        ensures
            *res == old(self).polls_with(),
            final(self).polls_with() == *final(res),
            old(self).inv() && final(res).inv() && final(res).registered() == res.registered()
                ==> final(self).inv(),
    ;

    /// Tells the poll engine about the interests of all the resources and finds the time for which
    /// to poll at most at the moment `time`.
    ///
    /// # Returns
    ///
    /// `None` if the moment is too far away from the first timeout.
    fn prepare_poll(&mut self, time: Timestamp) -> (res: Option<Duration>)
        requires
            old(self).inv(),
        ensures
            final(self).inv(),
            final(self).polls_with().pending() == old(self).polls_with().pending(),
            final(self).polls_with().given() == old(self).polls_with().given(),
            forall|id: u64| #[trigger] final(self).knows(id) == old(self).knows(id),
    ;

    /// Handles the outcome `res` of the poll at the moment `now`: calls the service, removes the
    /// expired timeouts, and tells the service if there were any and if the poll has failed.
    ///
    /// # Returns
    ///
    /// Number of the removed timeouts.
    fn finish_poll(&mut self, now: Timestamp, res: Result<usize, IoError>) -> (fired: usize)
        requires
            old(self).inv(),
        ensures
            final(self).inv(),
            final(self).polls_with() == old(self).polls_with(),
            forall|id: u64| #[trigger] final(self).knows(id) == old(self).knows(id),
    ;

    /// Handles the next event of the poll.
    fn handle_event(&mut self, time: Timestamp) -> (res: Handled)
        requires
            old(self).inv(),
        ensures
            final(self).inv(),
            final(self).polls_with().given() == old(self).polls_with().given(),
            ({
                let before = old(self).polls_with().pending();
                let after = final(self).polls_with().pending();
                if before.len() == 0 {
                    after == before && res is Drained
                } else {
                    &&& after == before.drop_first()
                    &&& res == handling(before[0], old(self).knows(before[0].0.0))
                    &&& forall|id: u64|
                        id != before[0].0.0 ==> #[trigger] final(self).knows(id) == old(self).knows(
                            id,
                        )
                }
            }),
    ;

    /// Handles all the events of the poll.
    ///
    /// # Returns
    ///
    /// Whether it was awakened by a waker; or the reason why the reactor can't go on, with the
    /// remaining events not handled.
    fn handle_events(&mut self, time: Timestamp) -> (res: Result<bool, Failure>)
        requires
            old(self).inv(),
        ensures
            final(self).inv(),
            final(self).polls_with().given() == old(self).polls_with().given(),
            ({
                let before = old(self).polls_with().pending();
                let after = final(self).polls_with().pending();
                match res {
                    Ok(awoken) => after.len() == 0 && awoken == awakes(before),
                    Err(failure) => {
                        &&& after.len() < before.len()
                        &&& after == before.skip(before.len() - after.len())
                        &&& ({
                            let (last, polled) = before[before.len() - after.len() - 1];
                            if last.0 == WAKER {
                                polled matches Err(fail) && failure == Failure::Waker(fail)
                            } else {
                                failure == Failure::UnknownResource(last)
                            }
                        })
                    },
                }
            }),
            distinct(old(self).polls_with().pending()) ==> (res is Ok <==> forall|i: int|
                0 <= i < old(self).polls_with().pending().len() ==> handling(
                    #[trigger] old(self).polls_with().pending()[i],
                    old(self).knows(old(self).polls_with().pending()[i].0.0),
                ) !is Broken),
            exists|states: Seq<Self>, handled: Seq<Handled>|
                {
                    &&& #[trigger] states.len() == #[trigger] handled.len() + 1
                    &&& states.first() == *old(self)
                    &&& states.last() == *final(self)
                    &&& forall|i: int|
                        0 <= i < handled.len() ==> {
                            &&& #[trigger] handled[i] is Drained || handled[i] is Broken ==> i
                                == handled.len() - 1
                            &&& exists|runtime: &mut Self, each: Handled|
                                {
                                    &&& *runtime == states[i]
                                    &&& *final(runtime) == states[i + 1]
                                    &&& each == handled[i]
                                    &&& #[trigger] call_ensures(
                                        Self::handle_event,
                                        (runtime, time),
                                        each,
                                    )
                                }
                        }
                    &&& handled.len() > 0
                    &&& match res {
                        Ok(_) => handled.last() is Drained,
                        Err(failure) => handled.last() == Handled::Broken(failure),
                    }
                },
    {
        let mut awoken = false;
        let ghost mut states: Seq<Self> = seq![*self];
        let ghost mut handled: Seq<Handled> = seq![];
        loop
            invariant
                self.inv(),
                self.polls_with().given() == old(self).polls_with().given(),
                states.len() == handled.len() + 1,
                states.first() == *old(self),
                states.last() == *self,
                handled.len() <= old(self).polls_with().pending().len(),
                self.polls_with().pending() == old(self).polls_with().pending().skip(
                    handled.len() as int,
                ),
                awoken == awakes(old(self).polls_with().pending().take(handled.len() as int)),
                distinct(old(self).polls_with().pending()) ==> forall|i: int|
                    handled.len() <= i < old(self).polls_with().pending().len() ==> self.knows(
                        (#[trigger] old(self).polls_with().pending()[i]).0.0,
                    ) == old(self).knows(old(self).polls_with().pending()[i].0.0),
                distinct(old(self).polls_with().pending()) ==> forall|i: int|
                    0 <= i < handled.len() ==> handling(
                        #[trigger] old(self).polls_with().pending()[i],
                        old(self).knows(old(self).polls_with().pending()[i].0.0),
                    ) !is Broken,
                forall|i: int|
                    0 <= i < handled.len() ==> {
                        &&& !(#[trigger] handled[i] is Drained) && !(handled[i] is Broken)
                        &&& exists|runtime: &mut Self, each: Handled|
                            {
                                &&& *runtime == states[i]
                                &&& *final(runtime) == states[i + 1]
                                &&& each == handled[i]
                                &&& #[trigger] call_ensures(
                                    Self::handle_event,
                                    (runtime, time),
                                    each,
                                )
                            }
                    },
            decreases self.polls_with().pending().len(),
        {
            let ghost pending = old(self).polls_with().pending();
            let ghost count = handled.len() as int;
            let ghost states_before = states;
            let ghost handled_before = handled;
            let each = self.handle_event(time);
            proof {
                states = states.push(*self);
                handled = handled.push(each);
                assert forall|i: int| 0 <= i < handled.len() implies {
                    &&& #[trigger] handled[i] is Drained || handled[i] is Broken ==> i
                        == handled.len() - 1
                    &&& exists|runtime: &mut Self, each: Handled|
                        {
                            &&& *runtime == states[i]
                            &&& *final(runtime) == states[i + 1]
                            &&& each == handled[i]
                            &&& #[trigger] call_ensures(Self::handle_event, (runtime, time), each)
                        }
                } by {
                    if i < count {
                        assert(handled[i] == handled_before[i]);
                        assert(states[i] == states_before[i]);
                        assert(states[i + 1] == states_before[i + 1]);
                    } else {
                        assert(states[i] == states_before.last());
                        assert(states[i + 1] == *self);
                    }
                }
                assert(states.first() == states_before.first());
                assert(states.last() == *self);
                assert(states.len() == handled.len() + 1);
                assert(pending.take(pending.len() as int) =~= pending);
                if count < pending.len() {
                    assert(pending.take(count + 1) =~= pending.take(count).push(pending[count]));
                    assert(pending.take(count + 1)[count] == pending[count]);
                    assert forall|i: int| 0 <= i < count implies pending.take(count + 1)[i]
                        == #[trigger] pending.take(count)[i] by {}
                    assert(pending.skip(count).drop_first() =~= pending.skip(count + 1));
                }
            }
            match each {
                Handled::Drained => {
                    assert(handled.last() is Drained);
                    return Ok(awoken);
                },
                Handled::Awoken => {
                    awoken = true;
                },
                Handled::Dispatched => {},
                Handled::Broken(failure) => {
                    assert(handled.last() == Handled::Broken(failure));
                    return Err(failure);
                },
            }
        }
    }

    /// Receives the next command, if there is one, and hands it over to the service.
    fn receive_command(&mut self) -> (res: Received)
        requires
            old(self).inv(),
        ensures
            final(self).inv(),
            final(self).polls_with() == old(self).polls_with(),
            forall|id: u64| #[trigger] final(self).knows(id) == old(self).knows(id),
    ;

    /// Handles the next action of the service, if there is one.
    fn handle_next_action(&mut self, time: Timestamp) -> (res: Performed)
        requires
            old(self).inv(),
        ensures
            final(self).inv(),
            final(self).polls_with().pending() == old(self).polls_with().pending(),
            old(self).polls_with().given().subset_of(final(self).polls_with().given()),
    ;
}

/// Whether `timeout` is the time for which to poll at most at the moment `time`: until the first
/// timeout expires, or for `wait` nanoseconds if there are no timeouts.
pub open spec fn is_poll_timeout(
    timeouts: Set<u128>,
    time: Timestamp,
    wait: nat,
    timeout: Duration,
) -> bool {
    if timeouts.is_empty() {
        timeout@ == wait
    } else {
        is_wait(timeouts, time, timeout)
    }
}

/// Finds the time for which to poll at most at the moment `time`, which is `wait` if there are no
/// timeouts.
///
/// # Returns
///
/// `None` if the moment is too far away from the first timeout.
pub fn poll_timeout(timeouts: &Timer, time: Timestamp, wait: Duration) -> (res: Option<Duration>)
    ensures
        res is Some <==> can_wait(timeouts@, time),
        res matches Some(timeout) ==> is_poll_timeout(timeouts@, time, wait@, timeout),
{
    if !timeouts.can_wait_from(time) {
        return None;
    }
    match timeouts.next_expiring_from(time) {
        Some(timeout) => Some(timeout),
        None => Some(wait),
    }
}

/// A poll which is started at the moment `time` ends by the time at which any of the timeouts
/// expires, or at once if it has expired already, as long as the timestamps fit into 64 bits.
pub proof fn law_poll_ends_in_time(
    timeouts: Set<u128>,
    moment: u128,
    time: Timestamp,
    wait: nat,
    timeout: Duration,
)
    requires
        forall|t: u128| #[trigger] timeouts.contains(t) ==> t <= u64::MAX,
        timeouts.contains(moment),
        time.0 <= u64::MAX,
        is_poll_timeout(timeouts, time, wait, timeout),
    ensures
        time.0 * NANOS_PER_MILLI + timeout@ <= if moment >= time.0 {
            moment * NANOS_PER_MILLI
        } else {
            time.0 * NANOS_PER_MILLI
        },
{
    assert(timeouts.contains(moment));
    let first = choose|first: u128|
        is_first(timeouts, first) && timeout@ == #[trigger] wait_millis(first, time)
            * NANOS_PER_MILLI;
    assert(timeouts.contains(first));
    assert(first <= moment);
}

/// The service is told about a timer which was set, unless that has happened already: the timeout
/// is among those which have fired once its moment has come.
pub proof fn law_timer_fires(timeouts: Set<u128>, moment: u128, now: Timestamp)
    requires
        timeouts.finite(),
        timeouts.contains(moment),
        moment <= now.0,
    ensures
        expired_by(timeouts, now).len() > 0,
{
    assert(expired_by(timeouts, now).contains(moment));
    timeouts.lemma_len_filter(|t: u128| t <= now.0);
}

} // verus!
