//! Laws of the file runtime.

use vstd::prelude::*;

use crate::duration::Duration;
use crate::error::IoError;
use crate::poller::{IoFail, IoType, Poll, Waker, WakerRecv};
use crate::resource::{Io, Resource, ResourceId, WriteAtomic, WriteError};
use crate::runtimes::controller::{Controller, Ctl};
use crate::runtimes::file::{Action, Error, Handler, Runtime};
use crate::runtimes::{self, Engine, Failure, Handled, Outcome, Performed, ReactorRuntime, Received};
use crate::text::decimal;
use crate::timeouts::{Timer, Timestamp};

verus! {

/// A registered file is polled for reads under a number which was never given before, and is in the
/// reactor under that number as it is. The service is told so afterwards. Nothing else changes.
pub proof fn law_file_is_registered<H: Handler, P: Poll, W: Waker>(
    runtime: &mut Runtime<H, P, W>,
    file: H::File,
    time: Timestamp,
    res: Outcome<Error<H::File>>,
)
    requires
        call_ensures(
            Runtime::<H, P, W>::handle_action,
            (runtime, Action::RegisterFile(file), time),
            res,
        ),
    ensures
        !old(runtime).engine().poller.has_room() ==> {
            &&& res == Outcome::<Error<H::File>>::Broken(Failure::ResourceOverflow)
            &&& *final(runtime) == *old(runtime)
        },
        old(runtime).engine().poller.has_room() ==> {
            &&& res == Outcome::<Error<H::File>>::Proceed(true)
            &&& exists|fd: i32, id: ResourceId, service: &mut H, out: ()|
                {
                    &&& #[trigger] call_ensures(H::File::as_raw_fd, (&file,), fd)
                    &&& id.0 != 0xffff_ffff_ffff_ffff
                    &&& !old(runtime).engine().poller.given().contains(id.0)
                    &&& !old(runtime).registered().contains_key(id.0)
                    &&& final(runtime).registered().contains_key(id.0)
                    &&& final(runtime).registered()[id.0] == (
                        fd,
                        IoType { read: true, write: false },
                    )
                    &&& final(runtime).files().contains_key(id.0)
                    &&& final(runtime).files()[id.0] == file
                    &&& forall|k: u64|
                        k != id.0 ==> {
                            &&& #[trigger] final(runtime).files().contains_key(k)
                                == old(runtime).files().contains_key(k)
                            &&& old(runtime).files().contains_key(k) ==> final(runtime).files()[k]
                                == old(runtime).files()[k]
                        }
                    &&& forall|k: u64|
                        k != id.0 ==> {
                            &&& #[trigger] final(runtime).registered().contains_key(k)
                                == old(runtime).registered().contains_key(k)
                            &&& old(runtime).registered().contains_key(k)
                                ==> final(runtime).registered()[k] == old(runtime).registered()[k]
                        }
                    &&& *service == old(runtime).engine().service
                    &&& *final(service) == final(runtime).engine().service
                    &&& #[trigger] call_ensures(
                        H::handle_registered,
                        (service, fd, id),
                        out,
                    )
                }
        },
        final(runtime).pending() == old(runtime).pending(),
        final(runtime).engine().controller == old(runtime).engine().controller,
        final(runtime).engine().ctl_recv == old(runtime).engine().ctl_recv,
        final(runtime).engine().waker == old(runtime).engine().waker,
        final(runtime).engine().timeouts == old(runtime).engine().timeouts,
{
}

/// An unregistered file is in the reactor no more and is not polled. It is handed over to the
/// service as it is. If there is no such file then nothing changes.
pub proof fn law_file_is_handed_over<H: Handler, P: Poll, W: Waker>(
    runtime: &mut Runtime<H, P, W>,
    id: ResourceId,
    time: Timestamp,
    res: Outcome<Error<H::File>>,
)
    requires
        call_ensures(
            Runtime::<H, P, W>::handle_action,
            (runtime, Action::UnregisterFile(id), time),
            res,
        ),
    ensures
        res == Outcome::<Error<H::File>>::Proceed(true),
        !old(runtime).files().contains_key(id.0) ==> *final(runtime) == *old(runtime),
        old(runtime).files().contains_key(id.0) ==> {
            &&& !final(runtime).files().contains_key(id.0)
            &&& !final(runtime).registered().contains_key(id.0)
            &&& exists|service: &mut H, out: ()|
                {
                    &&& *service == old(runtime).engine().service
                    &&& *final(service) == final(runtime).engine().service
                    &&& #[trigger] call_ensures(
                        H::handover_file,
                        (service, id, old(runtime).files()[id.0]),
                        out,
                    )
                }
        },
        forall|k: u64|
            k != id.0 ==> {
                &&& #[trigger] final(runtime).files().contains_key(k)
                    == old(runtime).files().contains_key(k)
                &&& old(runtime).files().contains_key(k) ==> final(runtime).files()[k]
                    == old(runtime).files()[k]
            },
        forall|k: u64|
            k != id.0 ==> {
                &&& #[trigger] final(runtime).registered().contains_key(k)
                    == old(runtime).registered().contains_key(k)
                &&& old(runtime).registered().contains_key(k) ==> final(runtime).registered()[k]
                    == old(runtime).registered()[k]
            },
        final(runtime).pending() == old(runtime).pending(),
        final(runtime).engine().controller == old(runtime).engine().controller,
        final(runtime).engine().ctl_recv == old(runtime).engine().ctl_recv,
        final(runtime).engine().waker == old(runtime).engine().waker,
        final(runtime).engine().timeouts == old(runtime).engine().timeouts,
{
}

/// Taking a file out of the reactor gives it back as it was and ends its polling. If there is no
/// such file then nothing changes.
pub proof fn law_file_is_taken_out<H: Handler, P: Poll, W: Waker>(
    runtime: &mut Runtime<H, P, W>,
    id: ResourceId,
    res: Option<H::File>,
)
    requires
        call_ensures(Runtime::<H, P, W>::unregister_file, (runtime, id), res),
    ensures
        res is Some <==> old(runtime).files().contains_key(id.0),
        res matches Some(file) ==> {
            &&& file == old(runtime).files()[id.0]
            &&& !final(runtime).files().contains_key(id.0)
            &&& !final(runtime).registered().contains_key(id.0)
        },
        res is None ==> *final(runtime) == *old(runtime),
        forall|k: u64|
            k != id.0 ==> {
                &&& #[trigger] final(runtime).files().contains_key(k)
                    == old(runtime).files().contains_key(k)
                &&& old(runtime).files().contains_key(k) ==> final(runtime).files()[k]
                    == old(runtime).files()[k]
            },
        forall|k: u64|
            k != id.0 ==> {
                &&& #[trigger] final(runtime).registered().contains_key(k)
                    == old(runtime).registered().contains_key(k)
                &&& old(runtime).registered().contains_key(k) ==> final(runtime).registered()[k]
                    == old(runtime).registered()[k]
            },
        final(runtime).pending() == old(runtime).pending(),
        final(runtime).engine().controller == old(runtime).engine().controller,
        final(runtime).engine().ctl_recv == old(runtime).engine().ctl_recv,
        final(runtime).engine().waker == old(runtime).engine().waker,
        final(runtime).engine().timeouts == old(runtime).engine().timeouts,
        final(runtime).engine().service == old(runtime).engine().service,
{
}

/// A file handles I/O once. The service gets the event which that has generated, if any, with the
/// file descriptor and the number of the file. No other resource is touched.
pub proof fn law_file_handles_io<H: Handler, P: Poll, W: Waker>(
    runtime: &mut Runtime<H, P, W>,
    id: ResourceId,
    io: Io,
    time: Timestamp,
    out: (),
)
    requires
        runtime.files().contains_key(id.0),
        call_ensures(Runtime::<H, P, W>::file_io, (runtime, id, io, time), out),
    ensures
        final(runtime).files().contains_key(id.0),
        forall|k: u64|
            k != id.0 ==> {
                &&& #[trigger] final(runtime).files().contains_key(k)
                    == old(runtime).files().contains_key(k)
                &&& old(runtime).files().contains_key(k) ==> final(runtime).files()[k]
                    == old(runtime).files()[k]
            },
        exists|file: &mut H::File, event: Option<<H::File as Resource>::Event>|
            {
                &&& *file == old(runtime).files()[id.0]
                &&& *final(file) == final(runtime).files()[id.0]
                &&& #[trigger] call_ensures(H::File::handle_io, (file, io), event)
                &&& event is None ==> final(runtime).engine().service
                    == old(runtime).engine().service
                &&& event matches Some(event) ==> exists|fd: i32, service: &mut H, told: ()|
                    {
                        &&& #[trigger] call_ensures(
                            H::File::as_raw_fd,
                            (&final(runtime).files()[id.0],),
                            fd,
                        )
                        &&& *service == old(runtime).engine().service
                        &&& *final(service) == final(runtime).engine().service
                        &&& #[trigger] call_ensures(
                            H::handle_event,
                            (service, fd, id, event, time),
                            told,
                        )
                    }
            },
        final(runtime).engine().controller == old(runtime).engine().controller,
        final(runtime).engine().ctl_recv == old(runtime).engine().ctl_recv,
        final(runtime).engine().waker == old(runtime).engine().waker,
        final(runtime).engine().timeouts == old(runtime).engine().timeouts,
        final(runtime).engine().poller == old(runtime).engine().poller,
{
}

/// A file handles the write first if there is one, and then the read if there is one.
pub proof fn law_file_handles_events<H: Handler, P: Poll, W: Waker>(
    runtime: &mut Runtime<H, P, W>,
    id: ResourceId,
    io: IoType,
    time: Timestamp,
    out: (),
)
    requires
        call_ensures(Runtime::<H, P, W>::file_events, (runtime, id, io, time), out),
    ensures
        !io.write && !io.read ==> *final(runtime) == *old(runtime),
        io.write && !io.read ==> exists|wrote: &mut Runtime<H, P, W>, told: ()|
            {
                &&& *wrote == *old(runtime)
                &&& #[trigger] call_ensures(
                    Runtime::<H, P, W>::file_io,
                    (wrote, id, Io::Write, time),
                    told,
                )
                &&& *final(wrote) == *final(runtime)
            },
        !io.write && io.read ==> exists|read: &mut Runtime<H, P, W>, told: ()|
            {
                &&& *read == *old(runtime)
                &&& #[trigger] call_ensures(
                    Runtime::<H, P, W>::file_io,
                    (read, id, Io::Read, time),
                    told,
                )
                &&& *final(read) == *final(runtime)
            },
        io.write && io.read ==> exists|
            wrote: &mut Runtime<H, P, W>,
            read: &mut Runtime<H, P, W>,
            told: (),
        |
            {
                &&& *wrote == *old(runtime)
                &&& #[trigger] call_ensures(
                    Runtime::<H, P, W>::file_io,
                    (wrote, id, Io::Write, time),
                    told,
                )
                &&& *read == *final(wrote)
                &&& #[trigger] call_ensures(
                    Runtime::<H, P, W>::file_io,
                    (read, id, Io::Read, time),
                    told,
                )
                &&& *final(read) == *final(runtime)
            },
{
    let events = io.events();
    let states = choose|states: Seq<Runtime<H, P, W>>|
        {
            &&& #[trigger] states.len() == events.len() + 1
            &&& states.first() == *runtime
            &&& states.last() == *final(runtime)
            &&& forall|i: int|
                0 <= i < events.len() ==> {
                    &&& (#[trigger] states[i]).files().contains_key(id.0)
                    &&& exists|step: &mut Runtime<H, P, W>, each: Io, told: ()|
                        {
                            &&& *step == states[i]
                            &&& *final(step) == states[i + 1]
                            &&& each == events[i]
                            &&& #[trigger] call_ensures(
                                Runtime::<H, P, W>::file_io,
                                (step, id, each, time),
                                told,
                            )
                        }
                }
        };
    if io.write && io.read {
        assert(events =~= seq![Io::Write, Io::Read]);
        assert(states[0].files().contains_key(id.0));
        assert(states[1].files().contains_key(id.0));
    } else if io.write {
        assert(events =~= seq![Io::Write]);
        assert(states[0].files().contains_key(id.0));
    } else if io.read {
        assert(events =~= seq![Io::Read]);
        assert(states[0].files().contains_key(id.0));
    } else {
        assert(events =~= seq![]);
    }
}

/// A file whose poll has failed leaves the reactor and is not polled any more. The service is told
/// so and gets the file as it is. No other resource is touched.
pub proof fn law_failed_file_leaves<H: Handler, P: Poll, W: Waker>(
    runtime: &mut Runtime<H, P, W>,
    time: Timestamp,
    res: Handled,
)
    requires
        call_ensures(<Runtime<H, P, W> as ReactorRuntime<P>>::handle_event, (runtime, time), res),
        runtime.is_consistent(),
        runtime.pending().len() > 0,
        runtime.pending()[0].1 is Err,
        runtime.files().contains_key(runtime.pending()[0].0.0),
    ensures
        res is Dispatched,
        ({
            let id = old(runtime).pending()[0].0;
            &&& !final(runtime).files().contains_key(id.0)
            &&& !final(runtime).registered().contains_key(id.0)
            &&& forall|k: u64|
                k != id.0 ==> {
                    &&& #[trigger] final(runtime).files().contains_key(k)
                        == old(runtime).files().contains_key(k)
                    &&& old(runtime).files().contains_key(k) ==> final(runtime).files()[k]
                        == old(runtime).files()[k]
                }
            &&& exists|service: &mut H, out: ()|
                {
                    &&& *service == old(runtime).engine().service
                    &&& *final(service) == final(runtime).engine().service
                    &&& #[trigger] call_ensures(
                        H::handle_error,
                        (
                            service,
                            runtimes::Error::Handler(
                                Error::Closed(id, old(runtime).files()[id.0]),
                            ),
                        ),
                        out,
                    )
                }
        }),
        final(runtime).pending().len() == old(runtime).pending().len() - 1,
        final(runtime).engine().controller == old(runtime).engine().controller,
        final(runtime).engine().ctl_recv == old(runtime).engine().ctl_recv,
        final(runtime).engine().waker == old(runtime).engine().waker,
        final(runtime).engine().timeouts == old(runtime).engine().timeouts,
{
}

/// A file which the poll has found ready handles just the I/O it is ready for. It stays in the
/// reactor, and no other resource is touched.
pub proof fn law_ready_file_handles_io<H: Handler, P: Poll, W: Waker>(
    runtime: &mut Runtime<H, P, W>,
    time: Timestamp,
    res: Handled,
    io: IoType,
)
    requires
        call_ensures(<Runtime<H, P, W> as ReactorRuntime<P>>::handle_event, (runtime, time), res),
        runtime.is_consistent(),
        runtime.pending().len() > 0,
        runtime.pending()[0].1 == Ok::<IoType, IoFail>(io),
        runtime.files().contains_key(runtime.pending()[0].0.0),
    ensures
        res is Dispatched,
        ({
            let id = old(runtime).pending()[0].0;
            &&& final(runtime).files().contains_key(id.0)
            &&& forall|k: u64|
                k != id.0 ==> {
                    &&& #[trigger] final(runtime).files().contains_key(k)
                        == old(runtime).files().contains_key(k)
                    &&& old(runtime).files().contains_key(k) ==> final(runtime).files()[k]
                        == old(runtime).files()[k]
                }
            &&& exists|ready: &mut Runtime<H, P, W>, out: ()|
                {
                    &&& ready.files() == old(runtime).files()
                    &&& ready.engine().service == old(runtime).engine().service
                    &&& #[trigger] call_ensures(
                        Runtime::<H, P, W>::file_events,
                        (ready, id, io, time),
                        out,
                    )
                    &&& *final(ready) == *final(runtime)
                }
        }),
        final(runtime).registered() == old(runtime).registered(),
        final(runtime).pending().len() == old(runtime).pending().len() - 1,
        final(runtime).engine().controller == old(runtime).engine().controller,
        final(runtime).engine().ctl_recv == old(runtime).engine().ctl_recv,
        final(runtime).engine().waker == old(runtime).engine().waker,
        final(runtime).engine().timeouts == old(runtime).engine().timeouts,
{
}

/// Data for a file is written to it atomically, once and as it is. The file stays if that succeeds.
/// It leaves the reactor, is not polled any more and is given back if the write fails. The reactor
/// can't go on if the file is not ready. If there is no such file then nothing changes.
pub proof fn law_data_is_written<H: Handler, P: Poll, W: Waker>(
    runtime: &mut Runtime<H, P, W>,
    id: ResourceId,
    data: Vec<u8>,
    time: Timestamp,
    res: Outcome<Error<H::File>>,
)
    requires
        call_ensures(
            Runtime::<H, P, W>::handle_action,
            (runtime, Action::Write(id, data), time),
            res,
        ),
    ensures
        !old(runtime).files().contains_key(id.0) ==> {
            &&& res == Outcome::<Error<H::File>>::Proceed(true)
            &&& *final(runtime) == *old(runtime)
        },
        old(runtime).files().contains_key(id.0) ==> exists|
            file: &mut H::File,
            buf: &[u8],
            written: Result<(), WriteError>,
        |
            {
                &&& *file == old(runtime).files()[id.0]
                &&& buf@ == data@
                &&& #[trigger] call_ensures(H::File::write_atomic, (file, buf), written)
                &&& match written {
                    Ok(_) => {
                        &&& res == Outcome::<Error<H::File>>::Proceed(true)
                        &&& final(runtime).files().contains_key(id.0)
                        &&& final(runtime).files()[id.0] == *final(file)
                        &&& final(runtime).registered() == old(runtime).registered()
                    },
                    Err(WriteError::NotReady) => {
                        &&& res == Outcome::<Error<H::File>>::Broken(Failure::NotReady(id))
                        &&& final(runtime).files().contains_key(id.0)
                        &&& final(runtime).files()[id.0] == *final(file)
                        &&& final(runtime).registered() == old(runtime).registered()
                    },
                    Err(WriteError::Io(_)) => {
                        &&& res == Outcome::<Error<H::File>>::Failed(
                            Error::Closed(id, *final(file)),
                        )
                        &&& !final(runtime).files().contains_key(id.0)
                        &&& !final(runtime).registered().contains_key(id.0)
                    },
                }
            },
        forall|k: u64|
            k != id.0 ==> {
                &&& #[trigger] final(runtime).files().contains_key(k)
                    == old(runtime).files().contains_key(k)
                &&& old(runtime).files().contains_key(k) ==> final(runtime).files()[k]
                    == old(runtime).files()[k]
            },
        forall|k: u64|
            k != id.0 ==> {
                &&& #[trigger] final(runtime).registered().contains_key(k)
                    == old(runtime).registered().contains_key(k)
                &&& old(runtime).registered().contains_key(k) ==> final(runtime).registered()[k]
                    == old(runtime).registered()[k]
            },
        final(runtime).pending() == old(runtime).pending(),
        final(runtime).engine().controller == old(runtime).engine().controller,
        final(runtime).engine().ctl_recv == old(runtime).engine().ctl_recv,
        final(runtime).engine().waker == old(runtime).engine().waker,
        final(runtime).engine().timeouts == old(runtime).engine().timeouts,
        final(runtime).engine().service == old(runtime).engine().service,
{
}

/// A timer is set to fire the whole milliseconds of its span after the moment, beside those which
/// were set before. The reactor can't go on if there is no such moment. Nothing else changes.
pub proof fn law_timer_is_set<H: Handler, P: Poll, W: Waker>(
    runtime: &mut Runtime<H, P, W>,
    secs: u64,
    nanos: u32,
    duration: Duration,
    time: Timestamp,
    res: Outcome<Error<H::File>>,
)
    requires
        nanos < 1_000_000_000,
        call_ensures(Duration::new, (secs, nanos), duration),
        call_ensures(
            Runtime::<H, P, W>::handle_action,
            (runtime, Action::SetTimer(duration), time),
            res,
        ),
    ensures
        ({
            let moment = time.0 + secs * 1000 + nanos / 1_000_000;
            if moment <= u128::MAX {
                &&& res == Outcome::<Error<H::File>>::Proceed(true)
                &&& forall|t: u128| #[trigger]
                    final(runtime).engine().timeouts@.contains(t)
                        <==> old(runtime).engine().timeouts@.contains(t) || t == moment
            } else {
                &&& res == Outcome::<Error<H::File>>::Broken(Failure::TimeOverflow)
                &&& final(runtime).engine().timeouts@ == old(runtime).engine().timeouts@
            }
        }),
        final(runtime).files() == old(runtime).files(),
        final(runtime).engine().controller == old(runtime).engine().controller,
        final(runtime).engine().ctl_recv == old(runtime).engine().ctl_recv,
        final(runtime).engine().waker == old(runtime).engine().waker,
        final(runtime).engine().service == old(runtime).engine().service,
        final(runtime).engine().poller == old(runtime).engine().poller,
{
}

/// Termination is told, and changes nothing.
pub proof fn law_termination_is_told<H: Handler, P: Poll, W: Waker>(
    runtime: &mut Runtime<H, P, W>,
    time: Timestamp,
    res: Outcome<Error<H::File>>,
)
    requires
        call_ensures(Runtime::<H, P, W>::handle_action, (runtime, Action::Terminate, time), res),
    ensures
        res == Outcome::<Error<H::File>>::Proceed(false),
        *final(runtime) == *old(runtime),
{
}

/// The waker is reset once if its poll has not failed. Neither the service nor the resources are
/// touched.
pub proof fn law_waker_is_reset<H: Handler, P: Poll, W: Waker>(
    runtime: &mut Runtime<H, P, W>,
    time: Timestamp,
    res: Handled,
)
    requires
        call_ensures(<Runtime<H, P, W> as ReactorRuntime<P>>::handle_event, (runtime, time), res),
        runtime.pending().len() > 0,
        runtime.pending()[0].0.0 == 0xffff_ffff_ffff_ffff,
    ensures
        match old(runtime).pending()[0].1 {
            Ok(_) => {
                &&& res is Awoken
                &&& exists|waker: &mut W::Recv, out: ()|
                    {
                        &&& *waker == old(runtime).engine().waker
                        &&& *final(waker) == final(runtime).engine().waker
                        &&& #[trigger] call_ensures(W::Recv::reset, (waker,), out)
                    }
            },
            Err(fail) => {
                &&& res == Handled::Broken(Failure::Waker(fail))
                &&& final(runtime).engine().waker == old(runtime).engine().waker
            },
        },
        final(runtime).files() == old(runtime).files(),
        final(runtime).registered() == old(runtime).registered(),
        final(runtime).pending().len() == old(runtime).pending().len() - 1,
        final(runtime).engine().controller == old(runtime).engine().controller,
        final(runtime).engine().ctl_recv == old(runtime).engine().ctl_recv,
        final(runtime).engine().timeouts == old(runtime).engine().timeouts,
        final(runtime).engine().service == old(runtime).engine().service,
{
}

/// An event of a resource which is not in the reactor touches neither the service nor the
/// resources.
pub proof fn law_unknown_resource_touches_nothing<H: Handler, P: Poll, W: Waker>(
    runtime: &mut Runtime<H, P, W>,
    time: Timestamp,
    res: Handled,
)
    requires
        call_ensures(<Runtime<H, P, W> as ReactorRuntime<P>>::handle_event, (runtime, time), res),
        runtime.pending().len() > 0,
        runtime.pending()[0].0.0 != 0xffff_ffff_ffff_ffff,
        !runtime.files().contains_key(runtime.pending()[0].0.0),
    ensures
        res == Handled::Broken(Failure::UnknownResource(old(runtime).pending()[0].0)),
        final(runtime).files() == old(runtime).files(),
        final(runtime).registered() == old(runtime).registered(),
        final(runtime).engine().controller == old(runtime).engine().controller,
        final(runtime).engine().ctl_recv == old(runtime).engine().ctl_recv,
        final(runtime).engine().waker == old(runtime).engine().waker,
        final(runtime).engine().timeouts == old(runtime).engine().timeouts,
        final(runtime).engine().service == old(runtime).engine().service,
{
}

/// A poll lasts until the first of the timeouts, no time if that has passed, and a second if there
/// are no timeouts. Every resource is polled for just what it has stated to be interested in.
/// Nothing else changes.
pub proof fn law_poll_is_prepared<H: Handler, P: Poll, W: Waker>(
    runtime: &mut Runtime<H, P, W>,
    time: Timestamp,
    res: Option<Duration>,
    first: u128,
    id: u64,
)
    requires
        call_ensures(<Runtime<H, P, W> as ReactorRuntime<P>>::prepare_poll, (runtime, time), res),
    ensures
        (forall|t: u128| !(#[trigger] old(runtime).engine().timeouts@.contains(t))) ==> (
        res matches Some(timeout) && timeout@ == 1_000_000_000),
        old(runtime).engine().timeouts@.contains(first) && (forall|t: u128| #[trigger]
            old(runtime).engine().timeouts@.contains(t) ==> first <= t) ==> {
            &&& first < time.0 ==> (res matches Some(timeout) && timeout@ == 0)
            &&& time.0 <= first <= u64::MAX ==> (res matches Some(timeout) && timeout@ == (first
                - time.0) * 1_000_000)
            &&& time.0 <= first ==> (res matches Some(timeout) ==> timeout@ == (first
                % 0x1_0000_0000_0000_0000 - time.0 % 0x1_0000_0000_0000_0000) * 1_000_000)
            &&& time.0 <= first ==> (res is Some <==> first % 0x1_0000_0000_0000_0000 >= time.0
                % 0x1_0000_0000_0000_0000)
        },
        res is None ==> final(runtime).registered() == old(runtime).registered(),
        final(runtime).registered().contains_key(id)
            <==> old(runtime).registered().contains_key(id),
        old(runtime).registered().contains_key(id) ==> final(runtime).registered()[id].0
            == old(runtime).registered()[id].0,
        res is Some && old(runtime).registered().contains_key(id)
            && old(runtime).files().contains_key(id) ==> call_ensures(
            H::File::interests,
            (&old(runtime).files()[id],),
            final(runtime).registered()[id].1,
        ),
        old(runtime).registered().contains_key(id) && !old(runtime).files().contains_key(id)
            ==> final(runtime).registered()[id] == old(runtime).registered()[id],
        final(runtime).pending() == old(runtime).pending(),
        final(runtime).files() == old(runtime).files(),
        final(runtime).engine().controller == old(runtime).engine().controller,
        final(runtime).engine().ctl_recv == old(runtime).engine().ctl_recv,
        final(runtime).engine().waker == old(runtime).engine().waker,
        final(runtime).engine().timeouts == old(runtime).engine().timeouts,
        final(runtime).engine().service == old(runtime).engine().service,
{
    let timeouts = (*runtime).engine().timeouts@;
    if forall|t: u128| !(#[trigger] timeouts.contains(t)) {
        assert(timeouts =~= Set::empty());
        assert(forall|first: u128| !crate::timeouts::is_first(timeouts, first));
    }
    if timeouts.contains(first)
        && (forall|t: u128| #[trigger] timeouts.contains(t) ==> first <= t) {
        assert(crate::timeouts::is_first(timeouts, first));
        assert(forall|other: u128| crate::timeouts::is_first(timeouts, other) ==> other == first);
        assert(crate::timeouts::wait_millis(first, time) >= 0 <==> res is Some);
    }
    assert((*final(runtime)).registered().dom().contains(id)
        == (*runtime).registered().dom().contains(id));
}

/// The outcome of the poll and the commands are left to the engine, and touch no resource.
pub proof fn law_engine_does_its_part<H: Handler, P: Poll, W: Waker>(
    finished: &mut Runtime<H, P, W>,
    now: Timestamp,
    res: Result<usize, IoError>,
    fired: usize,
    told: &mut Runtime<H, P, W>,
    received: Received,
)
    requires
        call_ensures(
            <Runtime<H, P, W> as ReactorRuntime<P>>::finish_poll,
            (finished, now, res),
            fired,
        ),
        call_ensures(<Runtime<H, P, W> as ReactorRuntime<P>>::receive_command, (told,), received),
    ensures
        exists|engine: &mut Engine<H, P, W>|
            {
                &&& *engine == old(finished).engine()
                &&& *final(engine) == final(finished).engine()
                &&& #[trigger] call_ensures(
                    Engine::<H, P, W>::finish_poll,
                    (engine, now, res),
                    fired,
                )
            },
        exists|engine: &mut Engine<H, P, W>|
            {
                &&& *engine == old(told).engine()
                &&& *final(engine) == final(told).engine()
                &&& #[trigger] call_ensures(
                    Engine::<H, P, W>::receive_command,
                    (engine,),
                    received,
                )
            },
        final(finished).files() == old(finished).files(),
        final(told).files() == old(told).files(),
{
}

/// The next action of the service is handled, once and as it is, and the service is told if that
/// has failed. There is nothing to do once the service has no more actions.
pub proof fn law_next_action_is_handled<H: Handler, P: Poll, W: Waker>(
    runtime: &mut Runtime<H, P, W>,
    time: Timestamp,
    res: Performed,
)
    requires
        call_ensures(
            <Runtime<H, P, W> as ReactorRuntime<P>>::handle_next_action,
            (runtime, time),
            res,
        ),
    ensures
        exists|service: &mut H, action: Option<Action<H::File>>|
            {
                &&& *service == old(runtime).engine().service
                &&& #[trigger] call_ensures(<H as Iterator>::next, (service,), action)
                &&& res is Drained <==> action is None
                &&& action is None ==> {
                    &&& final(runtime).engine().service == *final(service)
                    &&& final(runtime).engine().poller == old(runtime).engine().poller
                    &&& final(runtime).engine().timeouts == old(runtime).engine().timeouts
                    &&& final(runtime).files() == old(runtime).files()
                }
                &&& action matches Some(action) ==> exists|
                    acted: &mut Runtime<H, P, W>,
                    outcome: Outcome<Error<H::File>>,
                |
                    {
                        &&& acted.engine().service == *final(service)
                        &&& acted.engine().poller == old(runtime).engine().poller
                        &&& acted.engine().timeouts == old(runtime).engine().timeouts
                        &&& acted.files() == old(runtime).files()
                        &&& #[trigger] call_ensures(
                            Runtime::<H, P, W>::handle_action,
                            (acted, action, time),
                            outcome,
                        )
                        &&& match outcome {
                            Outcome::Proceed(proceed) => {
                                &&& res == Performed::Proceed(proceed)
                                &&& *final(acted) == *final(runtime)
                            },
                            Outcome::Broken(failure) => {
                                &&& res == Performed::Broken(failure)
                                &&& *final(acted) == *final(runtime)
                            },
                            Outcome::Failed(err) => {
                                &&& res is Failed
                                &&& exists|told: &mut H, out: ()|
                                    {
                                        &&& *told == final(acted).engine().service
                                        &&& *final(told) == final(runtime).engine().service
                                        &&& #[trigger] call_ensures(
                                            H::handle_error,
                                            (told, runtimes::Error::Handler(err)),
                                            out,
                                        )
                                    }
                                &&& final(runtime).engine().poller == final(acted).engine().poller
                                &&& final(runtime).files() == final(acted).files()
                            },
                        }
                    }
            },
{
}

/// A new runtime has no resources and no timeouts, and is made of what it is given.
pub proof fn law_new_runtime_is_empty<H: Handler, P: Poll, W: Waker>(
    service: H,
    poller: P,
    controller: Controller<H::Command, W::Send>,
    ctl_recv: crossbeam_channel::Receiver<Ctl<H::Command>>,
    waker: W::Recv,
    runtime: Runtime<H, P, W>,
    k: u64,
)
    requires
        call_ensures(
            Runtime::<H, P, W>::with,
            (service, poller, controller, ctl_recv, waker),
            runtime,
        ),
    ensures
        runtime.engine().service == service,
        runtime.engine().poller == poller,
        runtime.engine().controller == controller,
        runtime.engine().ctl_recv == ctl_recv,
        runtime.engine().waker == waker,
        runtime.engine().timeouts@.len() == 0,
        !runtime.files().contains_key(k),
{
}

/// The service, the timeouts and the poll engine are lent, and nothing else can change meanwhile.
pub proof fn law_parts_are_lent<H: Handler, P: Poll, W: Waker>(
    serving: &mut Runtime<H, P, W>,
    service: &mut H,
    timing: &mut Runtime<H, P, W>,
    timeouts: &mut Timer,
    polling: &mut Runtime<H, P, W>,
    poller: &mut P,
)
    requires
        call_ensures(Runtime::<H, P, W>::service, (serving,), service),
        call_ensures(Runtime::<H, P, W>::timeouts, (timing,), timeouts),
        call_ensures(<Runtime<H, P, W> as ReactorRuntime<P>>::poller, (polling,), poller),
        polling.is_consistent(),
    ensures
        *old(service) == old(serving).engine().service,
        final(serving).engine().service == *final(service),
        final(serving).engine().poller == old(serving).engine().poller,
        final(serving).engine().timeouts == old(serving).engine().timeouts,
        final(serving).engine().waker == old(serving).engine().waker,
        *old(timeouts) == old(timing).engine().timeouts,
        final(timing).engine().timeouts == *final(timeouts),
        final(timing).engine().poller == old(timing).engine().poller,
        final(timing).engine().service == old(timing).engine().service,
        final(timing).engine().waker == old(timing).engine().waker,
        *old(poller) == old(polling).engine().poller,
        final(polling).engine().poller == *final(poller),
        final(polling).engine().service == old(polling).engine().service,
        final(polling).engine().timeouts == old(polling).engine().timeouts,
        final(polling).engine().waker == old(polling).engine().waker,
        final(serving).files() == old(serving).files(),
        final(timing).files() == old(timing).files(),
        final(polling).files() == old(polling).files(),
{
}

/// An action is known by its name, which tells the resource for data and the span for a timer.
pub proof fn law_action_is_named<F>(action: Action<F>, name: String)
    requires
        call_ensures(Action::<F>::to_string, (&action,), name),
    ensures
        match action {
            Action::RegisterFile(_) => name@ == "register_file"@,
            Action::UnregisterFile(_) => name@ == "unregister_transport"@,
            Action::Write(id, _) => name@ == "send_to"@ + "("@ + decimal(id.0 as nat) + ")"@,
            Action::SetTimer(duration) => forall|shown: String| #[trigger]
                call_ensures(Duration::to_string, (&duration,), shown) ==> name@ == "set_timer"@
                    + "("@ + shown@ + ")"@,
            Action::Terminate => name@ == "terminate"@,
        },
{
}

} // verus!
