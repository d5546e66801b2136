//! Laws of the parts which all the reactor runtimes share.

use std::collections::HashMap;
use vstd::prelude::*;

use crate::duration::Duration;
use crate::error::IoError;
use crate::poller::{IoType, Poll, Waker, WakerSend};
use crate::resource::{Resource, ResourceId};
use crate::runtimes::controller::{ctl_recv, is_unlimited, Controller, Ctl, ReceiveError};
use crate::runtimes::interests::{resource_interests, set_interests};
use crate::runtimes::{
    poll_timeout, Engine, Error, EventLoop, Failure, Handled, Performed, Phase, ReactorHandler,
    ReactorRuntime, Received,
};
use crate::timeouts::{Timer, Timestamp};

verus! {

/// Each collected interest is that which a resource has stated, and no resource states two.
pub proof fn law_interests_are_collected<R: Resource>(
    resources: HashMap<u64, R>,
    res: Vec<(ResourceId, IoType)>,
    i: int,
    j: int,
)
    requires
        call_ensures(resource_interests::<R>, (&resources,), res),
    ensures
        0 <= i < res@.len() ==> {
            &&& resources@.contains_key(res@[i].0.0)
            &&& call_ensures(R::interests, (&resources@[res@[i].0.0],), res@[i].1)
        },
        0 <= i < j < res@.len() ==> res@[i].0.0 != res@[j].0.0,
{
    if 0 <= i < j < res@.len() {
        assert(res@[i].0 != res@[j].0);
    }
}

/// Every polled resource is polled for just what it has stated to be interested in. Nothing else
/// changes.
pub proof fn law_interests_are_told<R: Resource, P: Poll>(
    resources: HashMap<u64, R>,
    poller: &mut P,
    out: (),
    id: u64,
)
    requires
        call_ensures(set_interests::<R, P>, (&resources, poller), out),
    ensures
        final(poller).registered().contains_key(id) <==> old(poller).registered().contains_key(id),
        old(poller).registered().contains_key(id) ==> {
            &&& final(poller).registered()[id].0 == old(poller).registered()[id].0
            &&& resources@.contains_key(id) ==> call_ensures(
                R::interests,
                (&resources@[id],),
                final(poller).registered()[id].1,
            )
            &&& !resources@.contains_key(id) ==> final(poller).registered()[id]
                == old(poller).registered()[id]
        },
        final(poller).pending() == old(poller).pending(),
        final(poller).given() == old(poller).given(),
{
    assert(final(poller).registered().dom().contains(id) == (*poller).registered().dom().contains(
        id,
    ));
}

/// A poll lasts until the first of the timeouts, no time if that has passed, and as long as it may
/// if there are no timeouts. What does not fit into 64 bits is left out of the moments.
pub proof fn law_poll_lasts_until_timeout(
    timer: Timer,
    time: Timestamp,
    wait: Duration,
    res: Option<Duration>,
    first: u128,
)
    requires
        call_ensures(poll_timeout, (&timer, time, wait), res),
    ensures
        (forall|t: u128| !(#[trigger] timer@.contains(t))) ==> (res matches Some(timeout)
            && timeout@ == wait@),
        timer@.contains(first) && (forall|t: u128| #[trigger] timer@.contains(t) ==> first <= t)
            ==> {
            &&& first < time.0 ==> (res matches Some(timeout) && timeout@ == 0)
            &&& time.0 <= first <= u64::MAX ==> (res matches Some(timeout) && timeout@ == (first
                - time.0) * 1_000_000)
            &&& time.0 <= first ==> (res is None <==> first % 0x1_0000_0000_0000_0000 < time.0
                % 0x1_0000_0000_0000_0000)
            &&& time.0 <= first ==> (res matches Some(timeout) ==> timeout@ == (first
                % 0x1_0000_0000_0000_0000 - time.0 % 0x1_0000_0000_0000_0000) * 1_000_000)
        },
{
    if forall|t: u128| !(#[trigger] timer@.contains(t)) {
        assert(timer@ =~= Set::empty());
    }
    if timer@.contains(first) && (forall|t: u128| #[trigger] timer@.contains(t) ==> first <= t) {
        assert(crate::timeouts::is_first(timer@, first));
        assert(forall|other: u128| crate::timeouts::is_first(timer@, other) ==> other == first);
        assert(crate::timeouts::wait_millis(first, time) >= 0 <==> res is Some);
    }
}

/// The next event is handled by the one it belongs to, the waker or a resource. The reactor can't
/// go on if the poll of the waker has failed, or if the event belongs to none of them.
pub proof fn law_event_reaches_its_resource<P: Poll, R: ReactorRuntime<P>>(
    runtime: &mut R,
    time: Timestamp,
    res: Handled,
)
    requires
        call_ensures(R::handle_event, (runtime, time), res),
    ensures
        res is Drained <==> old(runtime).polls_with().pending().len() == 0,
        old(runtime).polls_with().pending().len() > 0 ==> {
            let (id, result) = old(runtime).polls_with().pending()[0];
            &&& res is Awoken <==> id.0 == 0xffff_ffff_ffff_ffff && result is Ok
            &&& id.0 == 0xffff_ffff_ffff_ffff ==> (result matches Err(fail) ==> res
                == Handled::Broken(Failure::Waker(fail)))
            &&& id.0 != 0xffff_ffff_ffff_ffff ==> {
                &&& res is Dispatched <==> old(runtime).knows(id.0)
                &&& res == Handled::Broken(Failure::UnknownResource(id)) <==> !old(runtime).knows(
                    id.0,
                )
            }
            &&& final(runtime).polls_with().pending().len()
                == old(runtime).polls_with().pending().len() - 1
            &&& forall|i: int|
                0 <= i < final(runtime).polls_with().pending().len()
                    ==> #[trigger] final(runtime).polls_with().pending()[i]
                        == old(runtime).polls_with().pending()[i + 1]
        },
{
}

/// The reactor was awoken if and only if the waker is among the events, at whatever position. All
/// the events are handled then.
pub proof fn law_reactor_is_awoken<P: Poll, R: ReactorRuntime<P>>(
    runtime: &mut R,
    time: Timestamp,
    awoken: bool,
)
    requires
        call_ensures(R::handle_events, (runtime, time), Ok::<bool, Failure>(awoken)),
    ensures
        awoken <==> exists|i: int|
            {
                &&& 0 <= i < old(runtime).polls_with().pending().len()
                &&& (#[trigger] old(runtime).polls_with().pending()[i]).0.0
                    == 0xffff_ffff_ffff_ffff
            },
        final(runtime).polls_with().pending().len() == 0,
{
}

/// Handling of the events ends early just after the first one which reveals that the reactor can't
/// go on, and tells why: the poll of the waker has failed, or there is no resource with the number.
/// The events after it are not handled.
pub proof fn law_handling_ends_at_failure<P: Poll, R: ReactorRuntime<P>>(
    runtime: &mut R,
    time: Timestamp,
    res: Result<bool, Failure>,
)
    requires
        call_ensures(R::handle_events, (runtime, time), res),
        forall|i: int, j: int|
            0 <= i < j < runtime.polls_with().pending().len() ==> (
            #[trigger] runtime.polls_with().pending()[i]).0 != (
            #[trigger] runtime.polls_with().pending()[j]).0,
    ensures
        res is Ok <==> forall|i: int|
            0 <= i < old(runtime).polls_with().pending().len() ==> {
                let (id, result) = #[trigger] old(runtime).polls_with().pending()[i];
                if id.0 == 0xffff_ffff_ffff_ffff {
                    result is Ok
                } else {
                    old(runtime).knows(id.0)
                }
            },
        res is Err ==> {
            let before = old(runtime).polls_with().pending();
            let after = final(runtime).polls_with().pending();
            &&& after.len() < before.len()
            &&& forall|i: int|
                0 <= i < after.len() ==> #[trigger] after[i] == before[before.len() - after.len()
                    + i]
        },
        res matches Err(failure) ==> {
            let before = old(runtime).polls_with().pending();
            let after = final(runtime).polls_with().pending();
            let (id, result) = before[before.len() - after.len() - 1];
            if id.0 == 0xffff_ffff_ffff_ffff {
                result matches Err(fail) && failure == Failure::Waker(fail)
            } else {
                failure == Failure::UnknownResource(id)
            }
        },
{
    let before = (*runtime).polls_with().pending();
    assert(crate::runtimes::distinct(before));
    if res is Ok {
        assert forall|i: int| 0 <= i < before.len() implies {
            let (id, result) = #[trigger] before[i];
            if id.0 == 0xffff_ffff_ffff_ffff {
                result is Ok
            } else {
                (*runtime).knows(id.0)
            }
        } by {
            assert(crate::runtimes::handling(before[i], (*runtime).knows(before[i].0.0))
                !is Broken);
        }
    }
}

/// A command which can't be sent is an error, and the reactor is not awoken then. Otherwise the
/// reactor is awoken, and that is the result.
pub proof fn law_command_is_sent<C, W: WakerSend>(
    controller: Controller<C, W>,
    command: C,
    res: Result<(), IoError>,
)
    requires
        call_ensures(Controller::<C, W>::cmd, (&controller, command), res),
    ensures
        exists|sent: Result<(), crossbeam_channel::SendError<Ctl<C>>>|
            {
                &&& #[trigger] call_ensures(
                    crossbeam_channel::Sender::<Ctl<C>>::send,
                    (&controller.ctl_send(), Ctl::Cmd(command)),
                    sent,
                )
                &&& sent is Err ==> (res matches Err(err) && err.kind is BrokenPipe
                    && err.source is None)
                &&& sent is Ok ==> call_ensures(W::wake, (&controller.waker(),), res)
            },
{
}

/// Shutting down sends the request and awakes the reactor. It fails only if neither works, and then
/// gives the controller back.
pub proof fn law_shutdown_is_requested<C, W: WakerSend>(
    controller: Controller<C, W>,
    res: Result<(), Controller<C, W>>,
)
    requires
        call_ensures(Controller::<C, W>::shutdown, (controller,), res),
    ensures
        exists|
            sent: Result<(), crossbeam_channel::SendError<Ctl<C>>>,
            woken: Result<(), IoError>,
        |
            {
                &&& #[trigger] call_ensures(
                    crossbeam_channel::Sender::<Ctl<C>>::send,
                    (&controller.ctl_send(), Ctl::<C>::Shutdown),
                    sent,
                )
                &&& #[trigger] call_ensures(W::wake, (&controller.waker(),), woken)
                &&& res is Err <==> sent is Err && woken is Err
                &&& res matches Err(same) ==> same == controller
            },
{
}

/// A controller sends into the channel and awakes with the waker it is made of, and so do its
/// clones.
pub proof fn law_controller_keeps_its_parts<C, W: WakerSend>(
    ctl_send: crossbeam_channel::Sender<Ctl<C>>,
    waker: W,
    controller: Controller<C, W>,
    clone: Controller<C, W>,
    woken: Result<(), IoError>,
)
    requires
        call_ensures(Controller::<C, W>::new, (ctl_send, waker), controller),
        call_ensures(<Controller<C, W> as Clone>::clone, (&controller,), clone),
        call_ensures(Controller::<C, W>::wake, (&controller,), woken),
    ensures
        controller.ctl_send() == ctl_send,
        controller.waker() == waker,
        call_ensures(
            <crossbeam_channel::Sender<Ctl<C>> as Clone>::clone,
            (&ctl_send,),
            clone.ctl_send(),
        ),
        call_ensures(W::clone, (&waker,), clone.waker()),
        call_ensures(W::wake, (&waker,), woken),
{
}

/// The service is told once that timeouts have fired if and only if some timeout is not later than
/// the moment. Just those are removed.
pub proof fn law_service_is_told_of_timeouts<H: ReactorHandler, P, W: Waker>(
    engine: &mut Engine<H, P, W>,
    now: Timestamp,
    fired: usize,
)
    requires
        call_ensures(Engine::<H, P, W>::expire, (engine, now), fired),
    ensures
        forall|t: u128| #[trigger]
            final(engine).timeouts@.contains(t) <==> old(engine).timeouts@.contains(t) && now.0 < t,
        fired + final(engine).timeouts@.len() == old(engine).timeouts@.len(),
        if exists|t: u128| #[trigger] old(engine).timeouts@.contains(t) && t <= now.0 {
            &&& fired > 0
            &&& exists|service: &mut H, out: ()|
                {
                    &&& *service == old(engine).service
                    &&& *final(service) == final(engine).service
                    &&& #[trigger] call_ensures(H::handle_timer, (service,), out)
                }
        } else {
            &&& fired == 0
            &&& final(engine).service == old(engine).service
        },
        final(engine).poller == old(engine).poller,
        final(engine).controller == old(engine).controller,
        final(engine).ctl_recv == old(engine).ctl_recv,
        final(engine).waker == old(engine).waker,
{
    let before = (*engine).timeouts;
    before.law_finite();
    crate::timeouts::law_removal_loses_no_timeout(before@, now);
    let expired = crate::timeouts::expired_by(before@, now);
    before@.lemma_len_filter(|t: u128| t <= now.0);
    if fired > 0 {
        assert(expired.contains(expired.choose()));
        assert(before@.contains(expired.choose()));
    }
    if exists|t: u128| #[trigger] before@.contains(t) && t <= now.0 {
        let t = choose|t: u128| #[trigger] before@.contains(t) && t <= now.0;
        assert(expired.contains(t));
    }
}

/// The service is told of a poll if and only if it has failed, with the very error.
pub proof fn law_service_is_told_of_failed_poll<H: ReactorHandler, P, W: Waker>(
    engine: &mut Engine<H, P, W>,
    res: Result<usize, IoError>,
    out: (),
)
    requires
        call_ensures(Engine::<H, P, W>::report_poll, (engine, res), out),
    ensures
        res is Ok ==> final(engine).service == old(engine).service,
        res matches Err(err) ==> exists|service: &mut H, told: ()|
            {
                &&& *service == old(engine).service
                &&& *final(service) == final(engine).service
                &&& #[trigger] call_ensures(H::handle_error, (service, Error::Poll(err)), told)
            },
        final(engine).poller == old(engine).poller,
        final(engine).timeouts == old(engine).timeouts,
        final(engine).controller == old(engine).controller,
        final(engine).ctl_recv == old(engine).ctl_recv,
        final(engine).waker == old(engine).waker,
{
}

/// Once the poll is done, the service is called first at the moment after the poll, then the
/// timeouts are handled at that moment, and then the outcome of the poll.
pub proof fn law_poll_is_finished<H: ReactorHandler, P, W: Waker>(
    engine: &mut Engine<H, P, W>,
    now: Timestamp,
    res: Result<usize, IoError>,
    fired: usize,
)
    requires
        call_ensures(Engine::<H, P, W>::finish_poll, (engine, now, res), fired),
    ensures
        exists|
            service: &mut H,
            out: (),
            expired: &mut Engine<H, P, W>,
            reported: &mut Engine<H, P, W>,
            end: (),
        |
            {
                &&& *service == old(engine).service
                &&& #[trigger] call_ensures(H::tick, (service, now), out)
                &&& *expired == (Engine { service: *final(service), ..*old(engine) })
                &&& #[trigger] call_ensures(Engine::<H, P, W>::expire, (expired, now), fired)
                &&& *reported == *final(expired)
                &&& #[trigger] call_ensures(Engine::<H, P, W>::report_poll, (reported, res), end)
                &&& *final(reported) == *final(engine)
            },
{
}

/// A command which was received is handed over to the service, once and as it is. Nothing else that
/// is received reaches the service.
pub proof fn law_command_reaches_service<H: ReactorHandler, P, W: Waker>(
    engine: &mut Engine<H, P, W>,
    received: Result<Ctl<H::Command>, ReceiveError>,
    res: Received,
)
    requires
        call_ensures(Engine::<H, P, W>::handle_received, (engine, received), res),
    ensures
        match received {
            Ok(Ctl::Cmd(cmd)) => {
                &&& res is Command
                &&& exists|service: &mut H, out: ()|
                    {
                        &&& *service == old(engine).service
                        &&& *final(service) == final(engine).service
                        &&& #[trigger] call_ensures(H::handle_command, (service, cmd), out)
                    }
            },
            Ok(Ctl::Shutdown) => res is Shutdown && final(engine).service == old(engine).service,
            Err(err) => {
                &&& final(engine).service == old(engine).service
                &&& res is Drained <==> err is Empty
                &&& res is Disconnected <==> err is Disconnected
            },
        },
        final(engine).poller == old(engine).poller,
        final(engine).timeouts == old(engine).timeouts,
        final(engine).controller == old(engine).controller,
        final(engine).ctl_recv == old(engine).ctl_recv,
        final(engine).waker == old(engine).waker,
{
}

/// What was read from the channel is handled, and nothing else is read: neither a command nor a
/// request is lost on the way.
pub proof fn law_received_command_is_handled<H: ReactorHandler, P, W: Waker>(
    engine: &mut Engine<H, P, W>,
    res: Received,
)
    requires
        call_ensures(Engine::<H, P, W>::receive_command, (engine,), res),
    ensures
        exists|
            receiver: &mut crossbeam_channel::Receiver<Ctl<H::Command>>,
            received: Result<Ctl<H::Command>, crossbeam_channel::TryRecvError>,
        |
            {
                &&& *receiver == old(engine).ctl_recv
                &&& *final(receiver) == final(engine).ctl_recv
                &&& #[trigger] call_ensures(ctl_recv::<H::Command>, (receiver,), received)
                &&& match received {
                    Ok(Ctl::Cmd(cmd)) => {
                        &&& res is Command
                        &&& exists|service: &mut H, out: ()|
                            {
                                &&& *service == old(engine).service
                                &&& *final(service) == final(engine).service
                                &&& #[trigger] call_ensures(H::handle_command, (service, cmd), out)
                            }
                    },
                    Ok(Ctl::Shutdown) => res is Shutdown && final(engine).service
                        == old(engine).service,
                    Err(err) => exists|empty: bool|
                        {
                            &&& #[trigger] call_ensures(
                                crossbeam_channel::TryRecvError::is_empty,
                                (&err,),
                                empty,
                            )
                            &&& res is Drained <==> empty
                            &&& res is Disconnected <==> !empty
                            &&& final(engine).service == old(engine).service
                        },
                }
            },
        final(engine).poller == old(engine).poller,
        final(engine).timeouts == old(engine).timeouts,
        final(engine).controller == old(engine).controller,
        final(engine).waker == old(engine).waker,
{
}

/// An error of a resource is told to the service as it is.
pub proof fn law_service_is_told_of_error<H: ReactorHandler, P, W: Waker>(
    engine: &mut Engine<H, P, W>,
    err: H::Error,
    out: (),
)
    requires
        call_ensures(Engine::<H, P, W>::report_error, (engine, err), out),
    ensures
        exists|service: &mut H, told: ()|
            {
                &&& *service == old(engine).service
                &&& *final(service) == final(engine).service
                &&& #[trigger] call_ensures(H::handle_error, (service, Error::Handler(err)), told)
            },
        final(engine).poller == old(engine).poller,
        final(engine).timeouts == old(engine).timeouts,
{
}

/// The first turn is about to start in a new event loop.
pub proof fn law_event_loop_starts(event_loop: EventLoop, phase: Phase)
    requires
        call_ensures(EventLoop::new, (), event_loop),
        call_ensures(EventLoop::phase, (&event_loop,), phase),
    ensures
        event_loop@ is Start,
        phase is Start,
{
}

/// The outcome of the poll is kept until it is handled.
pub proof fn law_poll_outcome_is_kept(
    event_loop: &mut EventLoop,
    res: Result<usize, IoError>,
    out: (),
)
    requires
        event_loop@ is Poll,
        call_ensures(EventLoop::finish, (event_loop, res), out),
    ensures
        final(event_loop)@ is Polled,
        final(event_loop).outcome() == res,
{
}

/// A turn reads the clock before and after the poll, and works with these moments. The reactor
/// can't go on if the clock is before the UNIX epoch.
pub proof fn law_clock_is_read<P: Poll, R: ReactorRuntime<P>>(
    event_loop: &mut EventLoop,
    runtime: &mut R,
    out: (),
)
    requires
        event_loop@ is Start || event_loop@ is Polled,
        call_ensures(EventLoop::perform::<P, R>, (event_loop, runtime), out),
    ensures
        *final(runtime) == *old(runtime),
        exists|time: Option<Timestamp>|
            {
                &&& #[trigger] call_ensures(Timestamp::now, (), time)
                &&& match time {
                    None => final(event_loop)@ == Phase::Broken(Failure::SystemTime),
                    Some(time) => if old(event_loop)@ is Start {
                        final(event_loop)@ == (Phase::Prepare { time })
                    } else {
                        final(event_loop)@ == (Phase::Finish { now: time })
                    },
                }
            },
        final(event_loop).outcome() == old(event_loop).outcome(),
{
}

/// The poll is prepared at the moment before it, and lasts at most as long as the runtime says.
pub proof fn law_poll_is_prepared<P: Poll, R: ReactorRuntime<P>>(
    event_loop: &mut EventLoop,
    runtime: &mut R,
    time: Timestamp,
    out: (),
)
    requires
        event_loop@ == (Phase::Prepare { time }),
        call_ensures(EventLoop::perform::<P, R>, (event_loop, runtime), out),
    ensures
        exists|prepared: &mut R, timeout: Option<Duration>|
            {
                &&& *prepared == *old(runtime)
                &&& *final(prepared) == *final(runtime)
                &&& #[trigger] call_ensures(R::prepare_poll, (prepared, time), timeout)
                &&& match timeout {
                    None => final(event_loop)@ == Phase::Broken(Failure::TimeOverflow),
                    Some(timeout) => final(event_loop)@ == (Phase::Poll { timeout }),
                }
            },
{
}

/// The outcome of the poll is handled at the moment after it, and then the events are at the same
/// moment.
pub proof fn law_poll_outcome_is_handled<P: Poll, R: ReactorRuntime<P>>(
    event_loop: &mut EventLoop,
    runtime: &mut R,
    now: Timestamp,
    out: (),
)
    requires
        event_loop@ == (Phase::Finish { now }),
        call_ensures(EventLoop::perform::<P, R>, (event_loop, runtime), out),
    ensures
        exists|finished: &mut R, fired: usize|
            {
                &&& *finished == *old(runtime)
                &&& *final(finished) == *final(runtime)
                &&& #[trigger] call_ensures(
                    R::finish_poll,
                    (finished, now, old(event_loop).outcome()),
                    fired,
                )
            },
        final(event_loop)@ == (Phase::Events { now }),
{
}

/// The events are handled at the moment after the poll. The commands are received if and only if
/// the reactor was awoken; otherwise the actions come next. Either is done at the same moment.
pub proof fn law_commands_follow_awakening<P: Poll, R: ReactorRuntime<P>>(
    event_loop: &mut EventLoop,
    runtime: &mut R,
    now: Timestamp,
    out: (),
)
    requires
        event_loop@ == (Phase::Events { now }),
        call_ensures(EventLoop::perform::<P, R>, (event_loop, runtime), out),
    ensures
        exists|handled: &mut R, res: Result<bool, Failure>|
            {
                &&& *handled == *old(runtime)
                &&& *final(handled) == *final(runtime)
                &&& #[trigger] call_ensures(R::handle_events, (handled, now), res)
                &&& match res {
                    Ok(awoken) => if awoken {
                        final(event_loop)@ == (Phase::Commands { now })
                    } else {
                        final(event_loop)@ == (Phase::Actions { now, proceed: true })
                    },
                    Err(failure) => final(event_loop)@ == Phase::Broken(failure),
                }
            },
{
}

/// Commands are received until there are no more of them, and then the actions come. The request
/// for shutting down ends the event loop at once.
pub proof fn law_commands_are_received<P: Poll, R: ReactorRuntime<P>>(
    event_loop: &mut EventLoop,
    runtime: &mut R,
    now: Timestamp,
    out: (),
)
    requires
        event_loop@ == (Phase::Commands { now }),
        call_ensures(EventLoop::perform::<P, R>, (event_loop, runtime), out),
    ensures
        exists|told: &mut R, res: Received|
            {
                &&& *told == *old(runtime)
                &&& *final(told) == *final(runtime)
                &&& #[trigger] call_ensures(R::receive_command, (told,), res)
                &&& match res {
                    Received::Command => final(event_loop)@ == (Phase::Commands { now }),
                    Received::Drained => final(event_loop)@ == (Phase::Actions {
                        now,
                        proceed: true,
                    }),
                    Received::Shutdown => final(event_loop)@ == Phase::Stop,
                    Received::Disconnected => final(event_loop)@ == Phase::Broken(
                        Failure::ControlChannel,
                    ),
                }
            },
{
}

/// Actions are handled at the moment after the poll until there are no more of them. The next turn
/// starts then, unless one of the actions has told to terminate.
pub proof fn law_actions_are_handled<P: Poll, R: ReactorRuntime<P>>(
    event_loop: &mut EventLoop,
    runtime: &mut R,
    now: Timestamp,
    proceed: bool,
    out: (),
)
    requires
        event_loop@ == (Phase::Actions { now, proceed }),
        call_ensures(EventLoop::perform::<P, R>, (event_loop, runtime), out),
    ensures
        exists|acted: &mut R, res: Performed|
            {
                &&& *acted == *old(runtime)
                &&& *final(acted) == *final(runtime)
                &&& #[trigger] call_ensures(R::handle_next_action, (acted, now), res)
                &&& match res {
                    Performed::Proceed(true) | Performed::Failed => final(event_loop)@ == (
                    Phase::Actions { now, proceed }),
                    Performed::Proceed(false) => final(event_loop)@ == (Phase::Actions {
                        now,
                        proceed: false,
                    }),
                    Performed::Drained => if proceed {
                        final(event_loop)@ is Start
                    } else {
                        final(event_loop)@ is Stop
                    },
                    Performed::Broken(failure) => final(event_loop)@ == Phase::Broken(failure),
                }
            },
{
}

/// A new engine is made of what it is given and has no timeouts.
pub proof fn law_engine_is_made_of_its_parts<H: ReactorHandler, P, W: Waker>(
    service: H,
    poller: P,
    controller: Controller<H::Command, W::Send>,
    receiver: crossbeam_channel::Receiver<Ctl<H::Command>>,
    waker: W::Recv,
    engine: Engine<H, P, W>,
)
    requires
        call_ensures(
            Engine::<H, P, W>::new,
            (service, poller, controller, receiver, waker),
            engine,
        ),
    ensures
        engine.service == service,
        engine.poller == poller,
        engine.controller == controller,
        engine.ctl_recv == receiver,
        engine.waker == waker,
        engine.timeouts@.len() == 0,
{
}

/// The service is told of the moment once at a tick, and nothing else changes.
pub proof fn law_service_is_told_of_moment<H: ReactorHandler, P, W: Waker>(
    engine: &mut Engine<H, P, W>,
    now: Timestamp,
    out: (),
)
    requires
        call_ensures(Engine::<H, P, W>::tick, (engine, now), out),
    ensures
        exists|service: &mut H, told: ()|
            {
                &&& *service == old(engine).service
                &&& *final(service) == final(engine).service
                &&& #[trigger] call_ensures(H::tick, (service, now), told)
            },
        final(engine).poller == old(engine).poller,
        final(engine).controller == old(engine).controller,
        final(engine).ctl_recv == old(engine).ctl_recv,
        final(engine).waker == old(engine).waker,
        final(engine).timeouts == old(engine).timeouts,
{
}

/// The next action is that which the service gives when asked once, and nothing else changes.
pub proof fn law_action_comes_from_service<H: ReactorHandler, P, W: Waker>(
    engine: &mut Engine<H, P, W>,
    action: Option<H::Action>,
)
    requires
        call_ensures(Engine::<H, P, W>::next_action, (engine,), action),
    ensures
        exists|service: &mut H|
            {
                &&& *service == old(engine).service
                &&& *final(service) == final(engine).service
                &&& #[trigger] call_ensures(<H as Iterator>::next, (service,), action)
            },
        final(engine).poller == old(engine).poller,
        final(engine).controller == old(engine).controller,
        final(engine).ctl_recv == old(engine).ctl_recv,
        final(engine).waker == old(engine).waker,
        final(engine).timeouts == old(engine).timeouts,
{
}

/// What the channel gives is received as it is. If it gives nothing then the channel is told to be
/// empty or to be disconnected, just as its error says. Nothing but the channel changes.
pub proof fn law_command_comes_from_channel<H: ReactorHandler, P, W: Waker>(
    engine: &mut Engine<H, P, W>,
    res: Result<Ctl<H::Command>, ReceiveError>,
)
    requires
        call_ensures(Engine::<H, P, W>::receive, (engine,), res),
    ensures
        exists|
            receiver: &mut crossbeam_channel::Receiver<Ctl<H::Command>>,
            received: Result<Ctl<H::Command>, crossbeam_channel::TryRecvError>,
        |
            {
                &&& *receiver == old(engine).ctl_recv
                &&& *final(receiver) == final(engine).ctl_recv
                &&& #[trigger] call_ensures(ctl_recv::<H::Command>, (receiver,), received)
                &&& res is Ok <==> received is Ok
                &&& received matches Ok(ctl) ==> res == Ok::<Ctl<H::Command>, ReceiveError>(ctl)
                &&& received matches Err(err) ==> {
                    ||| {
                        &&& res == Err::<Ctl<H::Command>, ReceiveError>(ReceiveError::Empty)
                        &&& call_ensures(
                            crossbeam_channel::TryRecvError::is_empty,
                            (&err,),
                            true,
                        )
                    }
                    ||| {
                        &&& res == Err::<Ctl<H::Command>, ReceiveError>(ReceiveError::Disconnected)
                        &&& call_ensures(
                            crossbeam_channel::TryRecvError::is_empty,
                            (&err,),
                            false,
                        )
                    }
                }
            },
        final(engine).service == old(engine).service,
        final(engine).poller == old(engine).poller,
        final(engine).controller == old(engine).controller,
        final(engine).waker == old(engine).waker,
        final(engine).timeouts == old(engine).timeouts,
{
}

/// A channel is found to be unlimited just if it tells no capacity.
pub proof fn law_unlimited_channel_has_no_capacity<T>(
    sender: crossbeam_channel::Sender<T>,
    res: bool,
)
    requires
        call_ensures(is_unlimited::<T>, (&sender,), res),
    ensures
        exists|capacity: Option<usize>|
            {
                &&& #[trigger] call_ensures(
                    crossbeam_channel::Sender::<T>::capacity,
                    (&sender,),
                    capacity,
                )
                &&& res <==> capacity is None
            },
{
}

} // verus!
