//! Laws of the networking runtime.

use vstd::prelude::*;

use crate::duration::Duration;
use crate::error::IoError;
use crate::poller::{IoFail, IoType, Poll, Waker, WakerRecv};
use crate::resource::{Io, Resource, ResourceId, ResourceType, WriteAtomic, WriteError};
use crate::runtimes::controller::{Controller, Ctl};
use crate::runtimes::net::{Action, Error, Handler, Runtime};
use crate::runtimes::{self, Engine, Failure, Handled, Outcome, Performed, ReactorRuntime, Received};
use crate::text::decimal;
use crate::timeouts::{Timer, Timestamp};

verus! {

/// A registered listener is polled for reads under a number which was never given before, and is in
/// the reactor under that number as it is. The service is told so afterwards. Nothing else changes.
pub proof fn law_listener_is_registered<H: Handler, P: Poll, W: Waker>(
    runtime: &mut Runtime<H, P, W>,
    listener: H::Listener,
    time: Timestamp,
    res: Outcome<Error<H::Listener, H::Transport>>,
)
    requires
        call_ensures(
            Runtime::<H, P, W>::handle_action,
            (runtime, Action::RegisterListener(listener), time),
            res,
        ),
    ensures
        !old(runtime).engine().poller.has_room() ==> {
            &&& res == Outcome::<Error<H::Listener, H::Transport>>::Broken(
                Failure::ResourceOverflow,
            )
            &&& *final(runtime) == *old(runtime)
        },
        old(runtime).engine().poller.has_room() ==> {
            &&& res == Outcome::<Error<H::Listener, H::Transport>>::Proceed(true)
            &&& exists|fd: i32, id: ResourceId, service: &mut H, out: ()|
                {
                    &&& #[trigger] call_ensures(H::Listener::as_raw_fd, (&listener,), fd)
                    &&& id.0 != 0xffff_ffff_ffff_ffff
                    &&& !old(runtime).engine().poller.given().contains(id.0)
                    &&& !old(runtime).registered().contains_key(id.0)
                    &&& final(runtime).registered().contains_key(id.0)
                    &&& final(runtime).registered()[id.0] == (
                        fd,
                        IoType { read: true, write: false },
                    )
                    &&& final(runtime).listeners().contains_key(id.0)
                    &&& final(runtime).listeners()[id.0] == listener
                    &&& forall|k: u64|
                        k != id.0 ==> {
                            &&& #[trigger] final(runtime).listeners().contains_key(k)
                                == old(runtime).listeners().contains_key(k)
                            &&& old(runtime).listeners().contains_key(k)
                                ==> final(runtime).listeners()[k]
                                == old(runtime).listeners()[k]
                        }
                    &&& forall|k: u64|
                        k != id.0 ==> {
                            &&& #[trigger] final(runtime).registered().contains_key(k)
                                == old(runtime).registered().contains_key(k)
                            &&& old(runtime).registered().contains_key(k)
                                ==> final(runtime).registered()[k] == old(runtime).registered()[k]
                        }
                    &&& *service == old(runtime).engine().service
                    &&& *final(service) == final(runtime).engine().service
                    &&& #[trigger] call_ensures(
                        H::handle_registered,
                        (service, fd, id, ResourceType::Listener),
                        out,
                    )
                }
        },
        final(runtime).transports() == old(runtime).transports(),
        final(runtime).pending() == old(runtime).pending(),
        final(runtime).engine().controller == old(runtime).engine().controller,
        final(runtime).engine().ctl_recv == old(runtime).engine().ctl_recv,
        final(runtime).engine().waker == old(runtime).engine().waker,
        final(runtime).engine().timeouts == old(runtime).engine().timeouts,
{
}

/// An unregistered listener is in the reactor no more and is not polled. It is handed over to the
/// service as it is. If there is no such listener then nothing changes.
pub proof fn law_listener_is_handed_over<H: Handler, P: Poll, W: Waker>(
    runtime: &mut Runtime<H, P, W>,
    id: ResourceId,
    time: Timestamp,
    res: Outcome<Error<H::Listener, H::Transport>>,
)
    requires
        call_ensures(
            Runtime::<H, P, W>::handle_action,
            (runtime, Action::UnregisterListener(id), time),
            res,
        ),
    ensures
        res == Outcome::<Error<H::Listener, H::Transport>>::Proceed(true),
        !old(runtime).listeners().contains_key(id.0) ==> *final(runtime) == *old(runtime),
        old(runtime).listeners().contains_key(id.0) ==> {
            &&& !final(runtime).listeners().contains_key(id.0)
            &&& !final(runtime).registered().contains_key(id.0)
            &&& exists|service: &mut H, out: ()|
                {
                    &&& *service == old(runtime).engine().service
                    &&& *final(service) == final(runtime).engine().service
                    &&& #[trigger] call_ensures(
                        H::handover_listener,
                        (service, id, old(runtime).listeners()[id.0]),
                        out,
                    )
                }
        },
        forall|k: u64|
            k != id.0 ==> {
                &&& #[trigger] final(runtime).listeners().contains_key(k)
                    == old(runtime).listeners().contains_key(k)
                &&& old(runtime).listeners().contains_key(k) ==> final(runtime).listeners()[k]
                    == old(runtime).listeners()[k]
            },
        forall|k: u64|
            k != id.0 ==> {
                &&& #[trigger] final(runtime).registered().contains_key(k)
                    == old(runtime).registered().contains_key(k)
                &&& old(runtime).registered().contains_key(k) ==> final(runtime).registered()[k]
                    == old(runtime).registered()[k]
            },
        final(runtime).transports() == old(runtime).transports(),
        final(runtime).pending() == old(runtime).pending(),
        final(runtime).engine().controller == old(runtime).engine().controller,
        final(runtime).engine().ctl_recv == old(runtime).engine().ctl_recv,
        final(runtime).engine().waker == old(runtime).engine().waker,
        final(runtime).engine().timeouts == old(runtime).engine().timeouts,
{
}

/// Taking a listener out of the reactor gives it back as it was and ends its polling. If there is
/// no such listener then nothing changes.
pub proof fn law_listener_is_taken_out<H: Handler, P: Poll, W: Waker>(
    runtime: &mut Runtime<H, P, W>,
    id: ResourceId,
    res: Option<H::Listener>,
)
    requires
        call_ensures(Runtime::<H, P, W>::unregister_listener, (runtime, id), res),
    ensures
        res is Some <==> old(runtime).listeners().contains_key(id.0),
        res matches Some(listener) ==> {
            &&& listener == old(runtime).listeners()[id.0]
            &&& !final(runtime).listeners().contains_key(id.0)
            &&& !final(runtime).registered().contains_key(id.0)
        },
        res is None ==> *final(runtime) == *old(runtime),
        forall|k: u64|
            k != id.0 ==> {
                &&& #[trigger] final(runtime).listeners().contains_key(k)
                    == old(runtime).listeners().contains_key(k)
                &&& old(runtime).listeners().contains_key(k) ==> final(runtime).listeners()[k]
                    == old(runtime).listeners()[k]
            },
        forall|k: u64|
            k != id.0 ==> {
                &&& #[trigger] final(runtime).registered().contains_key(k)
                    == old(runtime).registered().contains_key(k)
                &&& old(runtime).registered().contains_key(k) ==> final(runtime).registered()[k]
                    == old(runtime).registered()[k]
            },
        final(runtime).transports() == old(runtime).transports(),
        final(runtime).pending() == old(runtime).pending(),
        final(runtime).engine().controller == old(runtime).engine().controller,
        final(runtime).engine().ctl_recv == old(runtime).engine().ctl_recv,
        final(runtime).engine().waker == old(runtime).engine().waker,
        final(runtime).engine().timeouts == old(runtime).engine().timeouts,
        final(runtime).engine().service == old(runtime).engine().service,
{
}

/// A listener handles I/O once. The service gets the event which that has generated, if any, with
/// the file descriptor and the number of the listener. No other resource is touched.
pub proof fn law_listener_handles_io<H: Handler, P: Poll, W: Waker>(
    runtime: &mut Runtime<H, P, W>,
    id: ResourceId,
    io: Io,
    time: Timestamp,
    out: (),
)
    requires
        runtime.listeners().contains_key(id.0),
        call_ensures(Runtime::<H, P, W>::listener_io, (runtime, id, io, time), out),
    ensures
        final(runtime).listeners().contains_key(id.0),
        forall|k: u64|
            k != id.0 ==> {
                &&& #[trigger] final(runtime).listeners().contains_key(k)
                    == old(runtime).listeners().contains_key(k)
                &&& old(runtime).listeners().contains_key(k) ==> final(runtime).listeners()[k]
                    == old(runtime).listeners()[k]
            },
        final(runtime).transports() == old(runtime).transports(),
        exists|listener: &mut H::Listener, event: Option<<H::Listener as Resource>::Event>|
            {
                &&& *listener == old(runtime).listeners()[id.0]
                &&& *final(listener) == final(runtime).listeners()[id.0]
                &&& #[trigger] call_ensures(H::Listener::handle_io, (listener, io), event)
                &&& event is None ==> final(runtime).engine().service
                    == old(runtime).engine().service
                &&& event matches Some(event) ==> exists|fd: i32, service: &mut H, told: ()|
                    {
                        &&& #[trigger] call_ensures(
                            H::Listener::as_raw_fd,
                            (&final(runtime).listeners()[id.0],),
                            fd,
                        )
                        &&& *service == old(runtime).engine().service
                        &&& *final(service) == final(runtime).engine().service
                        &&& #[trigger] call_ensures(
                            H::handle_listener_event,
                            (service, fd, id, event, time),
                            told,
                        )
                    }
            },
        final(runtime).engine().controller == old(runtime).engine().controller,
        final(runtime).engine().ctl_recv == old(runtime).engine().ctl_recv,
        final(runtime).engine().waker == old(runtime).engine().waker,
        final(runtime).engine().timeouts == old(runtime).engine().timeouts,
        final(runtime).engine().poller == old(runtime).engine().poller,
{
}

/// A listener handles the write first if there is one, and then the read if there is one.
pub proof fn law_listener_handles_events<H: Handler, P: Poll, W: Waker>(
    runtime: &mut Runtime<H, P, W>,
    id: ResourceId,
    io: IoType,
    time: Timestamp,
    out: (),
)
    requires
        call_ensures(Runtime::<H, P, W>::listener_events, (runtime, id, io, time), out),
    ensures
        !io.write && !io.read ==> *final(runtime) == *old(runtime),
        io.write && !io.read ==> exists|wrote: &mut Runtime<H, P, W>, told: ()|
            {
                &&& *wrote == *old(runtime)
                &&& #[trigger] call_ensures(
                    Runtime::<H, P, W>::listener_io,
                    (wrote, id, Io::Write, time),
                    told,
                )
                &&& *final(wrote) == *final(runtime)
            },
        !io.write && io.read ==> exists|read: &mut Runtime<H, P, W>, told: ()|
            {
                &&& *read == *old(runtime)
                &&& #[trigger] call_ensures(
                    Runtime::<H, P, W>::listener_io,
                    (read, id, Io::Read, time),
                    told,
                )
                &&& *final(read) == *final(runtime)
            },
        io.write && io.read ==> exists|
            wrote: &mut Runtime<H, P, W>,
            read: &mut Runtime<H, P, W>,
            told: (),
        |
            {
                &&& *wrote == *old(runtime)
                &&& #[trigger] call_ensures(
                    Runtime::<H, P, W>::listener_io,
                    (wrote, id, Io::Write, time),
                    told,
                )
                &&& *read == *final(wrote)
                &&& #[trigger] call_ensures(
                    Runtime::<H, P, W>::listener_io,
                    (read, id, Io::Read, time),
                    told,
                )
                &&& *final(read) == *final(runtime)
            },
{
    let events = io.events();
    let states = choose|states: Seq<Runtime<H, P, W>>|
        {
            &&& #[trigger] states.len() == events.len() + 1
            &&& states.first() == *runtime
            &&& states.last() == *final(runtime)
            &&& forall|i: int|
                0 <= i < events.len() ==> {
                    &&& (#[trigger] states[i]).listeners().contains_key(id.0)
                    &&& exists|step: &mut Runtime<H, P, W>, each: Io, told: ()|
                        {
                            &&& *step == states[i]
                            &&& *final(step) == states[i + 1]
                            &&& each == events[i]
                            &&& #[trigger] call_ensures(
                                Runtime::<H, P, W>::listener_io,
                                (step, id, each, time),
                                told,
                            )
                        }
                }
        };
    if io.write && io.read {
        assert(events =~= seq![Io::Write, Io::Read]);
        assert(states[0].listeners().contains_key(id.0));
        assert(states[1].listeners().contains_key(id.0));
    } else if io.write {
        assert(events =~= seq![Io::Write]);
        assert(states[0].listeners().contains_key(id.0));
    } else if io.read {
        assert(events =~= seq![Io::Read]);
        assert(states[0].listeners().contains_key(id.0));
    } else {
        assert(events =~= seq![]);
    }
}

/// A listener whose poll has failed leaves the reactor and is not polled any more. The service is
/// told so and gets the listener as it is. No other resource is touched.
pub proof fn law_failed_listener_leaves<H: Handler, P: Poll, W: Waker>(
    runtime: &mut Runtime<H, P, W>,
    time: Timestamp,
    res: Handled,
)
    requires
        call_ensures(<Runtime<H, P, W> as ReactorRuntime<P>>::handle_event, (runtime, time), res),
        runtime.is_consistent(),
        runtime.pending().len() > 0,
        runtime.pending()[0].1 is Err,
        runtime.listeners().contains_key(runtime.pending()[0].0.0),
    ensures
        res is Dispatched,
        ({
            let id = old(runtime).pending()[0].0;
            &&& !final(runtime).listeners().contains_key(id.0)
            &&& !final(runtime).registered().contains_key(id.0)
            &&& forall|k: u64|
                k != id.0 ==> {
                    &&& #[trigger] final(runtime).listeners().contains_key(k)
                        == old(runtime).listeners().contains_key(k)
                    &&& old(runtime).listeners().contains_key(k) ==> final(runtime).listeners()[k]
                        == old(runtime).listeners()[k]
                }
            &&& exists|service: &mut H, out: ()|
                {
                    &&& *service == old(runtime).engine().service
                    &&& *final(service) == final(runtime).engine().service
                    &&& #[trigger] call_ensures(
                        H::handle_error,
                        (
                            service,
                            runtimes::Error::Handler(
                                Error::ListenerDisconnect(id, old(runtime).listeners()[id.0]),
                            ),
                        ),
                        out,
                    )
                }
        }),
        final(runtime).transports() == old(runtime).transports(),
        final(runtime).pending().len() == old(runtime).pending().len() - 1,
        final(runtime).engine().controller == old(runtime).engine().controller,
        final(runtime).engine().ctl_recv == old(runtime).engine().ctl_recv,
        final(runtime).engine().waker == old(runtime).engine().waker,
        final(runtime).engine().timeouts == old(runtime).engine().timeouts,
{
}

/// A listener which the poll has found ready handles just the I/O it is ready for. It stays in the
/// reactor, and no other resource is touched.
pub proof fn law_ready_listener_handles_io<H: Handler, P: Poll, W: Waker>(
    runtime: &mut Runtime<H, P, W>,
    time: Timestamp,
    res: Handled,
    io: IoType,
)
    requires
        call_ensures(<Runtime<H, P, W> as ReactorRuntime<P>>::handle_event, (runtime, time), res),
        runtime.is_consistent(),
        runtime.pending().len() > 0,
        runtime.pending()[0].1 == Ok::<IoType, IoFail>(io),
        runtime.listeners().contains_key(runtime.pending()[0].0.0),
    ensures
        res is Dispatched,
        ({
            let id = old(runtime).pending()[0].0;
            &&& final(runtime).listeners().contains_key(id.0)
            &&& forall|k: u64|
                k != id.0 ==> {
                    &&& #[trigger] final(runtime).listeners().contains_key(k)
                        == old(runtime).listeners().contains_key(k)
                    &&& old(runtime).listeners().contains_key(k) ==> final(runtime).listeners()[k]
                        == old(runtime).listeners()[k]
                }
            &&& exists|ready: &mut Runtime<H, P, W>, out: ()|
                {
                    &&& ready.listeners() == old(runtime).listeners()
                    &&& ready.engine().service == old(runtime).engine().service
                    &&& #[trigger] call_ensures(
                        Runtime::<H, P, W>::listener_events,
                        (ready, id, io, time),
                        out,
                    )
                    &&& *final(ready) == *final(runtime)
                }
        }),
        final(runtime).transports() == old(runtime).transports(),
        final(runtime).registered() == old(runtime).registered(),
        final(runtime).pending().len() == old(runtime).pending().len() - 1,
        final(runtime).engine().controller == old(runtime).engine().controller,
        final(runtime).engine().ctl_recv == old(runtime).engine().ctl_recv,
        final(runtime).engine().waker == old(runtime).engine().waker,
        final(runtime).engine().timeouts == old(runtime).engine().timeouts,
{
}

/// A registered transport is polled for reads under a number which was never given before, and is
/// in the reactor under that number as it is. The service is told so afterwards. Nothing else
/// changes.
pub proof fn law_transport_is_registered<H: Handler, P: Poll, W: Waker>(
    runtime: &mut Runtime<H, P, W>,
    transport: H::Transport,
    time: Timestamp,
    res: Outcome<Error<H::Listener, H::Transport>>,
)
    requires
        call_ensures(
            Runtime::<H, P, W>::handle_action,
            (runtime, Action::RegisterTransport(transport), time),
            res,
        ),
    ensures
        !old(runtime).engine().poller.has_room() ==> {
            &&& res == Outcome::<Error<H::Listener, H::Transport>>::Broken(
                Failure::ResourceOverflow,
            )
            &&& *final(runtime) == *old(runtime)
        },
        old(runtime).engine().poller.has_room() ==> {
            &&& res == Outcome::<Error<H::Listener, H::Transport>>::Proceed(true)
            &&& exists|fd: i32, id: ResourceId, service: &mut H, out: ()|
                {
                    &&& #[trigger] call_ensures(H::Transport::as_raw_fd, (&transport,), fd)
                    &&& id.0 != 0xffff_ffff_ffff_ffff
                    &&& !old(runtime).engine().poller.given().contains(id.0)
                    &&& !old(runtime).registered().contains_key(id.0)
                    &&& final(runtime).registered().contains_key(id.0)
                    &&& final(runtime).registered()[id.0] == (
                        fd,
                        IoType { read: true, write: false },
                    )
                    &&& final(runtime).transports().contains_key(id.0)
                    &&& final(runtime).transports()[id.0] == transport
                    &&& forall|k: u64|
                        k != id.0 ==> {
                            &&& #[trigger] final(runtime).transports().contains_key(k)
                                == old(runtime).transports().contains_key(k)
                            &&& old(runtime).transports().contains_key(k)
                                ==> final(runtime).transports()[k]
                                == old(runtime).transports()[k]
                        }
                    &&& forall|k: u64|
                        k != id.0 ==> {
                            &&& #[trigger] final(runtime).registered().contains_key(k)
                                == old(runtime).registered().contains_key(k)
                            &&& old(runtime).registered().contains_key(k)
                                ==> final(runtime).registered()[k] == old(runtime).registered()[k]
                        }
                    &&& *service == old(runtime).engine().service
                    &&& *final(service) == final(runtime).engine().service
                    &&& #[trigger] call_ensures(
                        H::handle_registered,
                        (service, fd, id, ResourceType::Transport),
                        out,
                    )
                }
        },
        final(runtime).listeners() == old(runtime).listeners(),
        final(runtime).pending() == old(runtime).pending(),
        final(runtime).engine().controller == old(runtime).engine().controller,
        final(runtime).engine().ctl_recv == old(runtime).engine().ctl_recv,
        final(runtime).engine().waker == old(runtime).engine().waker,
        final(runtime).engine().timeouts == old(runtime).engine().timeouts,
{
}

/// An unregistered transport is in the reactor no more and is not polled. It is handed over to the
/// service as it is. If there is no such transport then nothing changes.
pub proof fn law_transport_is_handed_over<H: Handler, P: Poll, W: Waker>(
    runtime: &mut Runtime<H, P, W>,
    id: ResourceId,
    time: Timestamp,
    res: Outcome<Error<H::Listener, H::Transport>>,
)
    requires
        call_ensures(
            Runtime::<H, P, W>::handle_action,
            (runtime, Action::UnregisterTransport(id), time),
            res,
        ),
    ensures
        res == Outcome::<Error<H::Listener, H::Transport>>::Proceed(true),
        !old(runtime).transports().contains_key(id.0) ==> *final(runtime) == *old(runtime),
        old(runtime).transports().contains_key(id.0) ==> {
            &&& !final(runtime).transports().contains_key(id.0)
            &&& !final(runtime).registered().contains_key(id.0)
            &&& exists|service: &mut H, out: ()|
                {
                    &&& *service == old(runtime).engine().service
                    &&& *final(service) == final(runtime).engine().service
                    &&& #[trigger] call_ensures(
                        H::handover_transport,
                        (service, id, old(runtime).transports()[id.0]),
                        out,
                    )
                }
        },
        forall|k: u64|
            k != id.0 ==> {
                &&& #[trigger] final(runtime).transports().contains_key(k)
                    == old(runtime).transports().contains_key(k)
                &&& old(runtime).transports().contains_key(k) ==> final(runtime).transports()[k]
                    == old(runtime).transports()[k]
            },
        forall|k: u64|
            k != id.0 ==> {
                &&& #[trigger] final(runtime).registered().contains_key(k)
                    == old(runtime).registered().contains_key(k)
                &&& old(runtime).registered().contains_key(k) ==> final(runtime).registered()[k]
                    == old(runtime).registered()[k]
            },
        final(runtime).listeners() == old(runtime).listeners(),
        final(runtime).pending() == old(runtime).pending(),
        final(runtime).engine().controller == old(runtime).engine().controller,
        final(runtime).engine().ctl_recv == old(runtime).engine().ctl_recv,
        final(runtime).engine().waker == old(runtime).engine().waker,
        final(runtime).engine().timeouts == old(runtime).engine().timeouts,
{
}

/// Taking a transport out of the reactor gives it back as it was and ends its polling. If there is
/// no such transport then nothing changes.
pub proof fn law_transport_is_taken_out<H: Handler, P: Poll, W: Waker>(
    runtime: &mut Runtime<H, P, W>,
    id: ResourceId,
    res: Option<H::Transport>,
)
    requires
        call_ensures(Runtime::<H, P, W>::unregister_transport, (runtime, id), res),
    ensures
        res is Some <==> old(runtime).transports().contains_key(id.0),
        res matches Some(transport) ==> {
            &&& transport == old(runtime).transports()[id.0]
            &&& !final(runtime).transports().contains_key(id.0)
            &&& !final(runtime).registered().contains_key(id.0)
        },
        res is None ==> *final(runtime) == *old(runtime),
        forall|k: u64|
            k != id.0 ==> {
                &&& #[trigger] final(runtime).transports().contains_key(k)
                    == old(runtime).transports().contains_key(k)
                &&& old(runtime).transports().contains_key(k) ==> final(runtime).transports()[k]
                    == old(runtime).transports()[k]
            },
        forall|k: u64|
            k != id.0 ==> {
                &&& #[trigger] final(runtime).registered().contains_key(k)
                    == old(runtime).registered().contains_key(k)
                &&& old(runtime).registered().contains_key(k) ==> final(runtime).registered()[k]
                    == old(runtime).registered()[k]
            },
        final(runtime).listeners() == old(runtime).listeners(),
        final(runtime).pending() == old(runtime).pending(),
        final(runtime).engine().controller == old(runtime).engine().controller,
        final(runtime).engine().ctl_recv == old(runtime).engine().ctl_recv,
        final(runtime).engine().waker == old(runtime).engine().waker,
        final(runtime).engine().timeouts == old(runtime).engine().timeouts,
        final(runtime).engine().service == old(runtime).engine().service,
{
}

/// A transport handles I/O once. The service gets the event which that has generated, if any, with
/// the file descriptor and the number of the transport. No other resource is touched.
pub proof fn law_transport_handles_io<H: Handler, P: Poll, W: Waker>(
    runtime: &mut Runtime<H, P, W>,
    id: ResourceId,
    io: Io,
    time: Timestamp,
    out: (),
)
    requires
        runtime.transports().contains_key(id.0),
        call_ensures(Runtime::<H, P, W>::transport_io, (runtime, id, io, time), out),
    ensures
        final(runtime).transports().contains_key(id.0),
        forall|k: u64|
            k != id.0 ==> {
                &&& #[trigger] final(runtime).transports().contains_key(k)
                    == old(runtime).transports().contains_key(k)
                &&& old(runtime).transports().contains_key(k) ==> final(runtime).transports()[k]
                    == old(runtime).transports()[k]
            },
        final(runtime).listeners() == old(runtime).listeners(),
        exists|transport: &mut H::Transport, event: Option<<H::Transport as Resource>::Event>|
            {
                &&& *transport == old(runtime).transports()[id.0]
                &&& *final(transport) == final(runtime).transports()[id.0]
                &&& #[trigger] call_ensures(H::Transport::handle_io, (transport, io), event)
                &&& event is None ==> final(runtime).engine().service
                    == old(runtime).engine().service
                &&& event matches Some(event) ==> exists|fd: i32, service: &mut H, told: ()|
                    {
                        &&& #[trigger] call_ensures(
                            H::Transport::as_raw_fd,
                            (&final(runtime).transports()[id.0],),
                            fd,
                        )
                        &&& *service == old(runtime).engine().service
                        &&& *final(service) == final(runtime).engine().service
                        &&& #[trigger] call_ensures(
                            H::handle_transport_event,
                            (service, fd, id, event, time),
                            told,
                        )
                    }
            },
        final(runtime).engine().controller == old(runtime).engine().controller,
        final(runtime).engine().ctl_recv == old(runtime).engine().ctl_recv,
        final(runtime).engine().waker == old(runtime).engine().waker,
        final(runtime).engine().timeouts == old(runtime).engine().timeouts,
        final(runtime).engine().poller == old(runtime).engine().poller,
{
}

/// A transport handles the write first if there is one, and then the read if there is one.
pub proof fn law_transport_handles_events<H: Handler, P: Poll, W: Waker>(
    runtime: &mut Runtime<H, P, W>,
    id: ResourceId,
    io: IoType,
    time: Timestamp,
    out: (),
)
    requires
        call_ensures(Runtime::<H, P, W>::transport_events, (runtime, id, io, time), out),
    ensures
        !io.write && !io.read ==> *final(runtime) == *old(runtime),
        io.write && !io.read ==> exists|wrote: &mut Runtime<H, P, W>, told: ()|
            {
                &&& *wrote == *old(runtime)
                &&& #[trigger] call_ensures(
                    Runtime::<H, P, W>::transport_io,
                    (wrote, id, Io::Write, time),
                    told,
                )
                &&& *final(wrote) == *final(runtime)
            },
        !io.write && io.read ==> exists|read: &mut Runtime<H, P, W>, told: ()|
            {
                &&& *read == *old(runtime)
                &&& #[trigger] call_ensures(
                    Runtime::<H, P, W>::transport_io,
                    (read, id, Io::Read, time),
                    told,
                )
                &&& *final(read) == *final(runtime)
            },
        io.write && io.read ==> exists|
            wrote: &mut Runtime<H, P, W>,
            read: &mut Runtime<H, P, W>,
            told: (),
        |
            {
                &&& *wrote == *old(runtime)
                &&& #[trigger] call_ensures(
                    Runtime::<H, P, W>::transport_io,
                    (wrote, id, Io::Write, time),
                    told,
                )
                &&& *read == *final(wrote)
                &&& #[trigger] call_ensures(
                    Runtime::<H, P, W>::transport_io,
                    (read, id, Io::Read, time),
                    told,
                )
                &&& *final(read) == *final(runtime)
            },
{
    let events = io.events();
    let states = choose|states: Seq<Runtime<H, P, W>>|
        {
            &&& #[trigger] states.len() == events.len() + 1
            &&& states.first() == *runtime
            &&& states.last() == *final(runtime)
            &&& forall|i: int|
                0 <= i < events.len() ==> {
                    &&& (#[trigger] states[i]).transports().contains_key(id.0)
                    &&& exists|step: &mut Runtime<H, P, W>, each: Io, told: ()|
                        {
                            &&& *step == states[i]
                            &&& *final(step) == states[i + 1]
                            &&& each == events[i]
                            &&& #[trigger] call_ensures(
                                Runtime::<H, P, W>::transport_io,
                                (step, id, each, time),
                                told,
                            )
                        }
                }
        };
    if io.write && io.read {
        assert(events =~= seq![Io::Write, Io::Read]);
        assert(states[0].transports().contains_key(id.0));
        assert(states[1].transports().contains_key(id.0));
    } else if io.write {
        assert(events =~= seq![Io::Write]);
        assert(states[0].transports().contains_key(id.0));
    } else if io.read {
        assert(events =~= seq![Io::Read]);
        assert(states[0].transports().contains_key(id.0));
    } else {
        assert(events =~= seq![]);
    }
}

/// A transport whose poll has failed leaves the reactor and is not polled any more. The service is
/// told so and gets the transport as it is. No other resource is touched.
pub proof fn law_failed_transport_leaves<H: Handler, P: Poll, W: Waker>(
    runtime: &mut Runtime<H, P, W>,
    time: Timestamp,
    res: Handled,
)
    requires
        call_ensures(<Runtime<H, P, W> as ReactorRuntime<P>>::handle_event, (runtime, time), res),
        runtime.is_consistent(),
        runtime.pending().len() > 0,
        runtime.pending()[0].1 is Err,
        runtime.transports().contains_key(runtime.pending()[0].0.0),
    ensures
        res is Dispatched,
        ({
            let id = old(runtime).pending()[0].0;
            &&& !final(runtime).transports().contains_key(id.0)
            &&& !final(runtime).registered().contains_key(id.0)
            &&& forall|k: u64|
                k != id.0 ==> {
                    &&& #[trigger] final(runtime).transports().contains_key(k)
                        == old(runtime).transports().contains_key(k)
                    &&& old(runtime).transports().contains_key(k) ==> final(runtime).transports()[k]
                        == old(runtime).transports()[k]
                }
            &&& exists|service: &mut H, out: ()|
                {
                    &&& *service == old(runtime).engine().service
                    &&& *final(service) == final(runtime).engine().service
                    &&& #[trigger] call_ensures(
                        H::handle_error,
                        (
                            service,
                            runtimes::Error::Handler(
                                Error::TransportDisconnect(id, old(runtime).transports()[id.0]),
                            ),
                        ),
                        out,
                    )
                }
        }),
        final(runtime).listeners() == old(runtime).listeners(),
        final(runtime).pending().len() == old(runtime).pending().len() - 1,
        final(runtime).engine().controller == old(runtime).engine().controller,
        final(runtime).engine().ctl_recv == old(runtime).engine().ctl_recv,
        final(runtime).engine().waker == old(runtime).engine().waker,
        final(runtime).engine().timeouts == old(runtime).engine().timeouts,
{
}

/// A transport which the poll has found ready handles just the I/O it is ready for. It stays in the
/// reactor, and no other resource is touched.
pub proof fn law_ready_transport_handles_io<H: Handler, P: Poll, W: Waker>(
    runtime: &mut Runtime<H, P, W>,
    time: Timestamp,
    res: Handled,
    io: IoType,
)
    requires
        call_ensures(<Runtime<H, P, W> as ReactorRuntime<P>>::handle_event, (runtime, time), res),
        runtime.is_consistent(),
        runtime.pending().len() > 0,
        runtime.pending()[0].1 == Ok::<IoType, IoFail>(io),
        runtime.transports().contains_key(runtime.pending()[0].0.0),
    ensures
        res is Dispatched,
        ({
            let id = old(runtime).pending()[0].0;
            &&& final(runtime).transports().contains_key(id.0)
            &&& forall|k: u64|
                k != id.0 ==> {
                    &&& #[trigger] final(runtime).transports().contains_key(k)
                        == old(runtime).transports().contains_key(k)
                    &&& old(runtime).transports().contains_key(k) ==> final(runtime).transports()[k]
                        == old(runtime).transports()[k]
                }
            &&& exists|ready: &mut Runtime<H, P, W>, out: ()|
                {
                    &&& ready.transports() == old(runtime).transports()
                    &&& ready.engine().service == old(runtime).engine().service
                    &&& #[trigger] call_ensures(
                        Runtime::<H, P, W>::transport_events,
                        (ready, id, io, time),
                        out,
                    )
                    &&& *final(ready) == *final(runtime)
                }
        }),
        final(runtime).listeners() == old(runtime).listeners(),
        final(runtime).registered() == old(runtime).registered(),
        final(runtime).pending().len() == old(runtime).pending().len() - 1,
        final(runtime).engine().controller == old(runtime).engine().controller,
        final(runtime).engine().ctl_recv == old(runtime).engine().ctl_recv,
        final(runtime).engine().waker == old(runtime).engine().waker,
        final(runtime).engine().timeouts == old(runtime).engine().timeouts,
{
}

/// Data for a transport is written to it atomically, once and as it is. The transport stays if that
/// succeeds. It leaves the reactor, is not polled any more and is given back if the write fails.
/// The reactor can't go on if the transport is not ready. If there is no such transport then
/// nothing changes.
pub proof fn law_data_is_written<H: Handler, P: Poll, W: Waker>(
    runtime: &mut Runtime<H, P, W>,
    id: ResourceId,
    data: Vec<u8>,
    time: Timestamp,
    res: Outcome<Error<H::Listener, H::Transport>>,
)
    requires
        call_ensures(
            Runtime::<H, P, W>::handle_action,
            (runtime, Action::Send(id, data), time),
            res,
        ),
    ensures
        !old(runtime).transports().contains_key(id.0) ==> {
            &&& res == Outcome::<Error<H::Listener, H::Transport>>::Proceed(true)
            &&& *final(runtime) == *old(runtime)
        },
        old(runtime).transports().contains_key(id.0) ==> exists|
            transport: &mut H::Transport,
            buf: &[u8],
            written: Result<(), WriteError>,
        |
            {
                &&& *transport == old(runtime).transports()[id.0]
                &&& buf@ == data@
                &&& #[trigger] call_ensures(H::Transport::write_atomic, (transport, buf), written)
                &&& match written {
                    Ok(_) => {
                        &&& res == Outcome::<Error<H::Listener, H::Transport>>::Proceed(true)
                        &&& final(runtime).transports().contains_key(id.0)
                        &&& final(runtime).transports()[id.0] == *final(transport)
                        &&& final(runtime).registered() == old(runtime).registered()
                    },
                    Err(WriteError::NotReady) => {
                        &&& res == Outcome::<Error<H::Listener, H::Transport>>::Broken(
                            Failure::NotReady(id),
                        )
                        &&& final(runtime).transports().contains_key(id.0)
                        &&& final(runtime).transports()[id.0] == *final(transport)
                        &&& final(runtime).registered() == old(runtime).registered()
                    },
                    Err(WriteError::Io(_)) => {
                        &&& res == Outcome::<Error<H::Listener, H::Transport>>::Failed(
                            Error::TransportDisconnect(id, *final(transport)),
                        )
                        &&& !final(runtime).transports().contains_key(id.0)
                        &&& !final(runtime).registered().contains_key(id.0)
                    },
                }
            },
        forall|k: u64|
            k != id.0 ==> {
                &&& #[trigger] final(runtime).transports().contains_key(k)
                    == old(runtime).transports().contains_key(k)
                &&& old(runtime).transports().contains_key(k) ==> final(runtime).transports()[k]
                    == old(runtime).transports()[k]
            },
        forall|k: u64|
            k != id.0 ==> {
                &&& #[trigger] final(runtime).registered().contains_key(k)
                    == old(runtime).registered().contains_key(k)
                &&& old(runtime).registered().contains_key(k) ==> final(runtime).registered()[k]
                    == old(runtime).registered()[k]
            },
        final(runtime).listeners() == old(runtime).listeners(),
        final(runtime).pending() == old(runtime).pending(),
        final(runtime).engine().controller == old(runtime).engine().controller,
        final(runtime).engine().ctl_recv == old(runtime).engine().ctl_recv,
        final(runtime).engine().waker == old(runtime).engine().waker,
        final(runtime).engine().timeouts == old(runtime).engine().timeouts,
        final(runtime).engine().service == old(runtime).engine().service,
{
}

/// A timer is set to fire the whole milliseconds of its span after the moment, beside those which
/// were set before. The reactor can't go on if there is no such moment. Nothing else changes.
pub proof fn law_timer_is_set<H: Handler, P: Poll, W: Waker>(
    runtime: &mut Runtime<H, P, W>,
    secs: u64,
    nanos: u32,
    duration: Duration,
    time: Timestamp,
    res: Outcome<Error<H::Listener, H::Transport>>,
)
    requires
        nanos < 1_000_000_000,
        call_ensures(Duration::new, (secs, nanos), duration),
        call_ensures(
            Runtime::<H, P, W>::handle_action,
            (runtime, Action::SetTimer(duration), time),
            res,
        ),
    ensures
        ({
            let moment = time.0 + secs * 1000 + nanos / 1_000_000;
            if moment <= u128::MAX {
                &&& res == Outcome::<Error<H::Listener, H::Transport>>::Proceed(true)
                &&& forall|t: u128| #[trigger]
                    final(runtime).engine().timeouts@.contains(t)
                        <==> old(runtime).engine().timeouts@.contains(t) || t == moment
            } else {
                &&& res == Outcome::<Error<H::Listener, H::Transport>>::Broken(
                    Failure::TimeOverflow,
                )
                &&& final(runtime).engine().timeouts@ == old(runtime).engine().timeouts@
            }
        }),
        final(runtime).listeners() == old(runtime).listeners(),
        final(runtime).transports() == old(runtime).transports(),
        final(runtime).engine().controller == old(runtime).engine().controller,
        final(runtime).engine().ctl_recv == old(runtime).engine().ctl_recv,
        final(runtime).engine().waker == old(runtime).engine().waker,
        final(runtime).engine().service == old(runtime).engine().service,
        final(runtime).engine().poller == old(runtime).engine().poller,
{
}

/// Termination is told, and changes nothing.
pub proof fn law_termination_is_told<H: Handler, P: Poll, W: Waker>(
    runtime: &mut Runtime<H, P, W>,
    time: Timestamp,
    res: Outcome<Error<H::Listener, H::Transport>>,
)
    requires
        call_ensures(Runtime::<H, P, W>::handle_action, (runtime, Action::Terminate, time), res),
    ensures
        res == Outcome::<Error<H::Listener, H::Transport>>::Proceed(false),
        *final(runtime) == *old(runtime),
{
}

/// The waker is reset once if its poll has not failed. Neither the service nor the resources are
/// touched.
pub proof fn law_waker_is_reset<H: Handler, P: Poll, W: Waker>(
    runtime: &mut Runtime<H, P, W>,
    time: Timestamp,
    res: Handled,
)
    requires
        call_ensures(<Runtime<H, P, W> as ReactorRuntime<P>>::handle_event, (runtime, time), res),
        runtime.pending().len() > 0,
        runtime.pending()[0].0.0 == 0xffff_ffff_ffff_ffff,
    ensures
        match old(runtime).pending()[0].1 {
            Ok(_) => {
                &&& res is Awoken
                &&& exists|waker: &mut W::Recv, out: ()|
                    {
                        &&& *waker == old(runtime).engine().waker
                        &&& *final(waker) == final(runtime).engine().waker
                        &&& #[trigger] call_ensures(W::Recv::reset, (waker,), out)
                    }
            },
            Err(fail) => {
                &&& res == Handled::Broken(Failure::Waker(fail))
                &&& final(runtime).engine().waker == old(runtime).engine().waker
            },
        },
        final(runtime).listeners() == old(runtime).listeners(),
        final(runtime).transports() == old(runtime).transports(),
        final(runtime).registered() == old(runtime).registered(),
        final(runtime).pending().len() == old(runtime).pending().len() - 1,
        final(runtime).engine().controller == old(runtime).engine().controller,
        final(runtime).engine().ctl_recv == old(runtime).engine().ctl_recv,
        final(runtime).engine().timeouts == old(runtime).engine().timeouts,
        final(runtime).engine().service == old(runtime).engine().service,
{
}

/// An event of a resource which is not in the reactor touches neither the service nor the
/// resources.
pub proof fn law_unknown_resource_touches_nothing<H: Handler, P: Poll, W: Waker>(
    runtime: &mut Runtime<H, P, W>,
    time: Timestamp,
    res: Handled,
)
    requires
        call_ensures(<Runtime<H, P, W> as ReactorRuntime<P>>::handle_event, (runtime, time), res),
        runtime.pending().len() > 0,
        runtime.pending()[0].0.0 != 0xffff_ffff_ffff_ffff,
        !runtime.listeners().contains_key(runtime.pending()[0].0.0),
        !runtime.transports().contains_key(runtime.pending()[0].0.0),
    ensures
        res == Handled::Broken(Failure::UnknownResource(old(runtime).pending()[0].0)),
        final(runtime).listeners() == old(runtime).listeners(),
        final(runtime).transports() == old(runtime).transports(),
        final(runtime).registered() == old(runtime).registered(),
        final(runtime).engine().controller == old(runtime).engine().controller,
        final(runtime).engine().ctl_recv == old(runtime).engine().ctl_recv,
        final(runtime).engine().waker == old(runtime).engine().waker,
        final(runtime).engine().timeouts == old(runtime).engine().timeouts,
        final(runtime).engine().service == old(runtime).engine().service,
{
}

/// A poll lasts until the first of the timeouts, no time if that has passed, and an hour if there
/// are no timeouts. Every resource is polled for just what it has stated to be interested in.
/// Nothing else changes.
pub proof fn law_poll_is_prepared<H: Handler, P: Poll, W: Waker>(
    runtime: &mut Runtime<H, P, W>,
    time: Timestamp,
    res: Option<Duration>,
    first: u128,
    id: u64,
)
    requires
        call_ensures(<Runtime<H, P, W> as ReactorRuntime<P>>::prepare_poll, (runtime, time), res),
    ensures
        (forall|t: u128| !(#[trigger] old(runtime).engine().timeouts@.contains(t))) ==> (
        res matches Some(timeout) && timeout@ == 3_600_000_000_000),
        old(runtime).engine().timeouts@.contains(first) && (forall|t: u128| #[trigger]
            old(runtime).engine().timeouts@.contains(t) ==> first <= t) ==> {
            &&& first < time.0 ==> (res matches Some(timeout) && timeout@ == 0)
            &&& time.0 <= first <= u64::MAX ==> (res matches Some(timeout) && timeout@ == (first
                - time.0) * 1_000_000)
            &&& time.0 <= first ==> (res matches Some(timeout) ==> timeout@ == (first
                % 0x1_0000_0000_0000_0000 - time.0 % 0x1_0000_0000_0000_0000) * 1_000_000)
            &&& time.0 <= first ==> (res is Some <==> first % 0x1_0000_0000_0000_0000 >= time.0
                % 0x1_0000_0000_0000_0000)
        },
        res is None ==> final(runtime).registered() == old(runtime).registered(),
        final(runtime).registered().contains_key(id)
            <==> old(runtime).registered().contains_key(id),
        old(runtime).registered().contains_key(id) ==> final(runtime).registered()[id].0
            == old(runtime).registered()[id].0,
        res is Some && old(runtime).registered().contains_key(id)
            && old(runtime).listeners().contains_key(id) ==> call_ensures(
            H::Listener::interests,
            (&old(runtime).listeners()[id],),
            final(runtime).registered()[id].1,
        ),
        res is Some && old(runtime).registered().contains_key(id)
            && old(runtime).transports().contains_key(id)
            && !old(runtime).listeners().contains_key(id) ==> call_ensures(
            H::Transport::interests,
            (&old(runtime).transports()[id],),
            final(runtime).registered()[id].1,
        ),
        old(runtime).registered().contains_key(id) && !old(runtime).listeners().contains_key(id)
            && !old(runtime).transports().contains_key(id)
            ==> final(runtime).registered()[id] == old(runtime).registered()[id],
        final(runtime).pending() == old(runtime).pending(),
        final(runtime).listeners() == old(runtime).listeners(),
        final(runtime).transports() == old(runtime).transports(),
        final(runtime).engine().controller == old(runtime).engine().controller,
        final(runtime).engine().ctl_recv == old(runtime).engine().ctl_recv,
        final(runtime).engine().waker == old(runtime).engine().waker,
        final(runtime).engine().timeouts == old(runtime).engine().timeouts,
        final(runtime).engine().service == old(runtime).engine().service,
{
    let timeouts = (*runtime).engine().timeouts@;
    if forall|t: u128| !(#[trigger] timeouts.contains(t)) {
        assert(timeouts =~= Set::empty());
        assert(forall|first: u128| !crate::timeouts::is_first(timeouts, first));
    }
    if timeouts.contains(first)
        && (forall|t: u128| #[trigger] timeouts.contains(t) ==> first <= t) {
        assert(crate::timeouts::is_first(timeouts, first));
        assert(forall|other: u128| crate::timeouts::is_first(timeouts, other) ==> other == first);
        assert(crate::timeouts::wait_millis(first, time) >= 0 <==> res is Some);
    }
    assert((*final(runtime)).registered().dom().contains(id)
        == (*runtime).registered().dom().contains(id));
}

/// The outcome of the poll and the commands are left to the engine, and touch no resource.
pub proof fn law_engine_does_its_part<H: Handler, P: Poll, W: Waker>(
    finished: &mut Runtime<H, P, W>,
    now: Timestamp,
    res: Result<usize, IoError>,
    fired: usize,
    told: &mut Runtime<H, P, W>,
    received: Received,
)
    requires
        call_ensures(
            <Runtime<H, P, W> as ReactorRuntime<P>>::finish_poll,
            (finished, now, res),
            fired,
        ),
        call_ensures(<Runtime<H, P, W> as ReactorRuntime<P>>::receive_command, (told,), received),
    ensures
        exists|engine: &mut Engine<H, P, W>|
            {
                &&& *engine == old(finished).engine()
                &&& *final(engine) == final(finished).engine()
                &&& #[trigger] call_ensures(
                    Engine::<H, P, W>::finish_poll,
                    (engine, now, res),
                    fired,
                )
            },
        exists|engine: &mut Engine<H, P, W>|
            {
                &&& *engine == old(told).engine()
                &&& *final(engine) == final(told).engine()
                &&& #[trigger] call_ensures(
                    Engine::<H, P, W>::receive_command,
                    (engine,),
                    received,
                )
            },
        final(finished).listeners() == old(finished).listeners(),
        final(told).listeners() == old(told).listeners(),
        final(finished).transports() == old(finished).transports(),
        final(told).transports() == old(told).transports(),
{
}

/// The next action of the service is handled, once and as it is, and the service is told if that
/// has failed. There is nothing to do once the service has no more actions.
pub proof fn law_next_action_is_handled<H: Handler, P: Poll, W: Waker>(
    runtime: &mut Runtime<H, P, W>,
    time: Timestamp,
    res: Performed,
)
    requires
        call_ensures(
            <Runtime<H, P, W> as ReactorRuntime<P>>::handle_next_action,
            (runtime, time),
            res,
        ),
    ensures
        exists|service: &mut H, action: Option<Action<H::Listener, H::Transport>>|
            {
                &&& *service == old(runtime).engine().service
                &&& #[trigger] call_ensures(<H as Iterator>::next, (service,), action)
                &&& res is Drained <==> action is None
                &&& action is None ==> {
                    &&& final(runtime).engine().service == *final(service)
                    &&& final(runtime).engine().poller == old(runtime).engine().poller
                    &&& final(runtime).engine().timeouts == old(runtime).engine().timeouts
                    &&& final(runtime).listeners() == old(runtime).listeners()
                    &&& final(runtime).transports() == old(runtime).transports()
                }
                &&& action matches Some(action) ==> exists|
                    acted: &mut Runtime<H, P, W>,
                    outcome: Outcome<Error<H::Listener, H::Transport>>,
                |
                    {
                        &&& acted.engine().service == *final(service)
                        &&& acted.engine().poller == old(runtime).engine().poller
                        &&& acted.engine().timeouts == old(runtime).engine().timeouts
                        &&& acted.listeners() == old(runtime).listeners()
                        &&& acted.transports() == old(runtime).transports()
                        &&& #[trigger] call_ensures(
                            Runtime::<H, P, W>::handle_action,
                            (acted, action, time),
                            outcome,
                        )
                        &&& match outcome {
                            Outcome::Proceed(proceed) => {
                                &&& res == Performed::Proceed(proceed)
                                &&& *final(acted) == *final(runtime)
                            },
                            Outcome::Broken(failure) => {
                                &&& res == Performed::Broken(failure)
                                &&& *final(acted) == *final(runtime)
                            },
                            Outcome::Failed(err) => {
                                &&& res is Failed
                                &&& exists|told: &mut H, out: ()|
                                    {
                                        &&& *told == final(acted).engine().service
                                        &&& *final(told) == final(runtime).engine().service
                                        &&& #[trigger] call_ensures(
                                            H::handle_error,
                                            (told, runtimes::Error::Handler(err)),
                                            out,
                                        )
                                    }
                                &&& final(runtime).engine().poller == final(acted).engine().poller
                                &&& final(runtime).listeners() == final(acted).listeners()
                                &&& final(runtime).transports() == final(acted).transports()
                            },
                        }
                    }
            },
{
}

/// A new runtime has no resources and no timeouts, and is made of what it is given.
pub proof fn law_new_runtime_is_empty<H: Handler, P: Poll, W: Waker>(
    service: H,
    poller: P,
    controller: Controller<H::Command, W::Send>,
    ctl_recv: crossbeam_channel::Receiver<Ctl<H::Command>>,
    waker: W::Recv,
    runtime: Runtime<H, P, W>,
    k: u64,
)
    requires
        call_ensures(
            Runtime::<H, P, W>::with,
            (service, poller, controller, ctl_recv, waker),
            runtime,
        ),
    ensures
        runtime.engine().service == service,
        runtime.engine().poller == poller,
        runtime.engine().controller == controller,
        runtime.engine().ctl_recv == ctl_recv,
        runtime.engine().waker == waker,
        runtime.engine().timeouts@.len() == 0,
        !runtime.listeners().contains_key(k),
        !runtime.transports().contains_key(k),
{
}

/// The service, the timeouts and the poll engine are lent, and nothing else can change meanwhile.
pub proof fn law_parts_are_lent<H: Handler, P: Poll, W: Waker>(
    serving: &mut Runtime<H, P, W>,
    service: &mut H,
    timing: &mut Runtime<H, P, W>,
    timeouts: &mut Timer,
    polling: &mut Runtime<H, P, W>,
    poller: &mut P,
)
    requires
        call_ensures(Runtime::<H, P, W>::service, (serving,), service),
        call_ensures(Runtime::<H, P, W>::timeouts, (timing,), timeouts),
        call_ensures(<Runtime<H, P, W> as ReactorRuntime<P>>::poller, (polling,), poller),
        polling.is_consistent(),
    ensures
        *old(service) == old(serving).engine().service,
        final(serving).engine().service == *final(service),
        final(serving).engine().poller == old(serving).engine().poller,
        final(serving).engine().timeouts == old(serving).engine().timeouts,
        final(serving).engine().waker == old(serving).engine().waker,
        *old(timeouts) == old(timing).engine().timeouts,
        final(timing).engine().timeouts == *final(timeouts),
        final(timing).engine().poller == old(timing).engine().poller,
        final(timing).engine().service == old(timing).engine().service,
        final(timing).engine().waker == old(timing).engine().waker,
        *old(poller) == old(polling).engine().poller,
        final(polling).engine().poller == *final(poller),
        final(polling).engine().service == old(polling).engine().service,
        final(polling).engine().timeouts == old(polling).engine().timeouts,
        final(polling).engine().waker == old(polling).engine().waker,
        final(serving).listeners() == old(serving).listeners(),
        final(timing).listeners() == old(timing).listeners(),
        final(polling).listeners() == old(polling).listeners(),
        final(serving).transports() == old(serving).transports(),
        final(timing).transports() == old(timing).transports(),
        final(polling).transports() == old(polling).transports(),
{
}

/// An action is known by its name, which tells the resource for data and the span for a timer.
pub proof fn law_action_is_named<L, T>(action: Action<L, T>, name: String)
    requires
        call_ensures(Action::<L, T>::to_string, (&action,), name),
    ensures
        match action {
            Action::RegisterListener(_) => name@ == "register_listener"@,
            Action::RegisterTransport(_) => name@ == "register_transport"@,
            Action::UnregisterListener(_) => name@ == "unregister_listener"@,
            Action::UnregisterTransport(_) => name@ == "unregister_transport"@,
            Action::Send(id, _) => name@ == "send_to"@ + "("@ + decimal(id.0 as nat) + ")"@,
            Action::SetTimer(duration) => forall|shown: String| #[trigger]
                call_ensures(Duration::to_string, (&duration,), shown) ==> name@ == "set_timer"@
                    + "("@ + shown@ + ")"@,
            Action::Terminate => name@ == "terminate"@,
        },
{
}

} // verus!
