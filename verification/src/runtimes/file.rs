//! File reactor runtime.

use std::collections::HashMap;
use vstd::prelude::*;

use crate::duration::{Duration, NANOS_PER_MILLI, NANOS_PER_SEC};
use crate::error::IoError;
use crate::poller::{IoFail, IoType, Poll, Waker, WakerRecv};
use crate::resource::{Io, Resource, ResourceId, WriteAtomic, WriteError, WAKER};
use crate::runtimes::controller::{Controller, Ctl};
use crate::runtimes::interests::{interests_updated, set_interests};
use crate::runtimes::{
    handling, is_poll_timeout, poll_timeout, Engine, Failure, Handled, Outcome, Performed,
    ReactorHandler, ReactorRuntime, Received,
};
use crate::text::{applied, applied_text, decimal, decimal_text};
use crate::timeouts::{can_wait, Timer, Timestamp};

verus! {

/// Maximum amount of time to wait for I/O, in seconds.
pub const WAIT_TIMEOUT: u64 = 1;

/// Reactor errors
#[derive(Debug)]
pub enum Error<F> {
    /// File got closed during poll operation.
    Closed(ResourceId, F),
}

/// Actions which can be provided to the reactor by the [`Handler`].
///
/// Reactor reads actions on each event loop using [`Handler`] iterator interface.
#[derive(Debug)]
pub enum Action<F> {
    /// Register a new file resource for the reactor poll.
    ///
    /// NB: Reactor can't open the file. Reactor only can register already opened file as a
    /// resource for polling in the event loop.
    RegisterFile(F),

    /// Unregister file resource from the reactor poll and handover it to the [`Handler`] via
    /// [`Handler::handover_file`].
    ///
    /// When the file is unregistered no action is performed, i.e. the file descriptor is not
    /// closed. All these actions must be handled by the handler upon the handover event.
    UnregisterFile(ResourceId),

    /// Write the data to one of the file resources.
    Write(ResourceId, Vec<u8>),

    /// Set a new timer for a given duration from this moment.
    ///
    /// When the timer fires reactor will timeout poll syscall and call
    /// [`ReactorHandler::handle_timer`].
    SetTimer(Duration),

    /// Gracefully terminate the reactor.
    Terminate,
}

impl<F> Action<F> {
    /// Names the action with what it applies to.
    pub fn to_string(&self) -> (res: String)
        ensures
            match *self {
                Action::RegisterFile(_) => res@ == "register_file"@,
                Action::UnregisterFile(_) => res@ == "unregister_transport"@,
                Action::Write(id, _) => res@ == applied("send_to"@, decimal(id.0 as nat)),
                Action::SetTimer(duration) => res@ == applied("set_timer"@, duration.text()),
                Action::Terminate => res@ == "terminate"@,
            },
    {
        match self {
            Action::RegisterFile(_) => "register_file".to_string(),
            Action::UnregisterFile(_) => "unregister_transport".to_string(),
            Action::Write(id, _) => applied_text("send_to", decimal_text(id.0).as_str()),
            Action::SetTimer(duration) => applied_text("set_timer", duration.to_string().as_str()),
            Action::Terminate => "terminate".to_string(),
        }
    }
}

/// A service which handles I/O events generated in the reactor.
pub trait Handler: ReactorHandler<Action = Action<Self::File>, Error = Error<Self::File>> {
    /// Type for a file resource.
    type File: Resource;

    /// Method called by the reactor when a given file was successfully registered and provided with
    /// a resource id.
    ///
    /// The resource id will be used later in [`Self::handle_event`] and [`Self::handover_file`]
    /// calls to the handler.
    fn handle_registered(&mut self, fd: i32, id: ResourceId);

    /// Method called by the reactor upon I/O event on a file resource.
    fn handle_event(
        &mut self,
        fd: i32,
        id: ResourceId,
        event: <Self::File as Resource>::Event,
        time: Timestamp,
    );

    /// Method called by the reactor upon receiving [`Action::UnregisterFile`].
    ///
    /// Passes the file resource to the [`Handler`] when it is already not a part of the reactor
    /// poll. From this point of time it is safe to send the resource to other threads (like
    /// workers) or close the resource.
    fn handover_file(&mut self, id: ResourceId, file: Self::File);
}

/// Internal reactor runtime which is run in a dedicated thread.
///
/// This runtime structure does not spawn a thread and does not block. It is run by an
/// [`crate::runtimes::EventLoop`], which leaves the `poll` syscall to its driver.
#[verifier::reject_recursive_types(H)]
#[verifier::reject_recursive_types(W)]
pub struct Runtime<H: Handler, P: Poll, W: Waker> {
    engine: Engine<H, P, W>,
    files: HashMap<u64, H::File>,
}

impl<H: Handler, P: Poll, W: Waker> Runtime<H, P, W> {
    /// The service with all that is needed for running it, apart from the resources.
    pub closed spec fn engine(self) -> Engine<H, P, W> {
        self.engine
    }

    /// The files by their numbers.
    pub closed spec fn files(self) -> Map<u64, H::File> {
        self.files@
    }

    /// File descriptors and interests which are polled.
    pub open spec fn registered(self) -> Map<u64, (i32, IoType)> {
        self.engine().poller.registered()
    }

    /// Events of the poll which are not yet handled.
    pub open spec fn pending(self) -> Seq<(ResourceId, Result<IoType, IoFail>)> {
        self.engine().poller.pending()
    }

    /// Every file is polled, and is not the waker.
    pub open spec fn is_consistent(self) -> bool {
        &&& self.engine().poller.inv()
        &&& !self.files().contains_key(WAKER)
        &&& forall|id: u64| #[trigger]
            self.files().contains_key(id) ==> self.registered().contains_key(id)
    }

    /// Nothing but the waker and the resources is polled.
    pub open spec fn polls_resources_only(self) -> bool {
        forall|id: u64| #[trigger]
            self.registered().contains_key(id) ==> id == WAKER || self.files().contains_key(id)
    }

    /// The resources do not differ, nor does the engine apart from the service and the poll engine.
    pub open spec fn same_resources(self, after: Self) -> bool {
        &&& after.files() == self.files()
        &&& after.engine() == Engine {
            service: after.engine().service,
            poller: after.engine().poller,
            ..self.engine()
        }
    }

    /// The poll engines track the same resources, with the same numbers given.
    pub open spec fn same_registrations(self, after: Self) -> bool {
        &&& after.registered() == self.registered()
        &&& after.engine().poller.given() == self.engine().poller.given()
        &&& after.engine().poller.has_room() == self.engine().poller.has_room()
    }

    /// The poll engines differ just in that a resource with a fresh number is registered for reads.
    pub open spec fn registers(self, after: Self, id: ResourceId, fd: i32) -> bool {
        &&& id.0 != WAKER
        &&& !self.engine().poller.given().contains(id.0)
        &&& !self.registered().contains_key(id.0)
        &&& after.registered() == self.registered().insert(
            id.0,
            (fd, IoType { read: true, write: false }),
        )
        &&& after.engine().poller.given() == self.engine().poller.given().insert(id.0)
        &&& after.pending() == self.pending()
    }

    /// The poll engines differ just in that a resource is unregistered.
    pub open spec fn unregisters(self, after: Self, id: ResourceId) -> bool {
        &&& after.registered() == self.registered().remove(id.0)
        &&& after.pending() == self.pending()
        &&& after.engine().poller.given() == self.engine().poller.given()
        &&& after.engine().poller.has_room() == self.engine().poller.has_room()
    }

    /// Creates new reactor runtime using provided [`Poll`] engine and a service exposing
    /// [`Handler`] API to the reactor.
    pub fn with(
        service: H,
        poller: P,
        controller: Controller<H::Command, W::Send>,
        ctl_recv: crossbeam_channel::Receiver<Ctl<H::Command>>,
        waker_recv: W::Recv,
    ) -> (res: Self)
        requires
            poller.inv(),
        ensures
            res.is_consistent(),
            res.engine().service == service,
            res.engine().poller == poller,
            res.engine().controller == controller,
            res.engine().ctl_recv == ctl_recv,
            res.engine().waker == waker_recv,
            res.engine().timeouts@ == Set::<u128>::empty(),
            res.files() == Map::<u64, H::File>::empty(),
    {
        Runtime {
            engine: Engine::new(service, poller, controller, ctl_recv, waker_recv),
            files: HashMap::new(),
        }
    }

    /// Accessor for service.
    pub fn service(&mut self) -> (res: &mut H)
        ensures
            *res == old(self).engine().service,
            final(self).engine() == (Engine { service: *final(res), ..old(self).engine() }),
            final(self).files() == old(self).files(),
            old(self).is_consistent() ==> final(self).is_consistent(),
    {
        &mut self.engine.service
    }

    /// Accessor for timer.
    pub fn timeouts(&mut self) -> (res: &mut Timer)
        ensures
            *res == old(self).engine().timeouts,
            final(self).engine() == (Engine { timeouts: *final(res), ..old(self).engine() }),
            final(self).files() == old(self).files(),
            old(self).is_consistent() ==> final(self).is_consistent(),
    {
        &mut self.engine.timeouts
    }

    /// Provides a copy of a [`Controller`] object which exposes an API to the reactor and a service
    /// running inside its thread.
    pub fn controller(&self) -> (res: Controller<H::Command, W::Send>)
        ensures
            call_ensures(
                <Controller<H::Command, W::Send> as Clone>::clone,
                (&self.engine().controller,),
                res,
            ),
    {
        self.engine.controller.clone()
    }

    /// Takes a file out of the reactor.
    ///
    /// # Returns
    ///
    /// `None` if there is no such file.
    pub fn unregister_file(&mut self, id: ResourceId) -> (res: Option<H::File>)
        requires
            old(self).is_consistent(),
        ensures
            final(self).is_consistent(),
            old(self).polls_resources_only() ==> final(self).polls_resources_only(),
            match res {
                Some(file) => {
                    &&& old(self).files().contains_key(id.0)
                    &&& file == old(self).files()[id.0]
                    &&& final(self).files() == old(self).files().remove(id.0)
                    &&& final(self).engine() == (Engine {
                        poller: final(self).engine().poller,
                        ..old(self).engine()
                    })
                    &&& old(self).unregisters(*final(self), id)
                },
                None => !old(self).files().contains_key(id.0) && *final(self) == *old(self),
            },
    {
        if !self.files.contains_key(&id.0) {
            return None;
        }
        let file = self.files.remove(&id.0);
        self.engine.poller.unregister(id);
        proof {
            let before = *old(self);
            if before.polls_resources_only() {
                assert forall|k: u64| #[trigger] self.registered().contains_key(k) implies k
                    == WAKER || self.files().contains_key(k) by {
                    assert(before.registered().contains_key(k));
                }
            }
        }
        file
    }

    /// Lets a file handle I/O and passes the event which it may generate to the service.
    pub fn file_io(&mut self, id: ResourceId, io: Io, time: Timestamp)
        requires
            old(self).is_consistent(),
            old(self).files().contains_key(id.0),
        ensures
            final(self).is_consistent(),
            old(self).polls_resources_only() ==> final(self).polls_resources_only(),
            old(self).engine().differs_in_service(final(self).engine()),
            final(self).files() == old(self).files().insert(id.0, final(self).files()[id.0]),
            exists|file: &mut H::File, event: Option<<H::File as Resource>::Event>|
                {
                    &&& *file == old(self).files()[id.0]
                    &&& *final(file) == final(self).files()[id.0]
                    &&& #[trigger] call_ensures(H::File::handle_io, (file, io), event)
                    &&& match event {
                        None => final(self).engine().service == old(self).engine().service,
                        Some(event) => exists|fd: i32, service: &mut H, out: ()|
                            {
                                &&& #[trigger] call_ensures(
                                    H::File::as_raw_fd,
                                    (&final(self).files()[id.0],),
                                    fd,
                                )
                                &&& *service == old(self).engine().service
                                &&& *final(service) == final(self).engine().service
                                &&& #[trigger] call_ensures(
                                    H::handle_event,
                                    (service, fd, id, event, time),
                                    out,
                                )
                            },
                    }
                },
    {
        if let Some(file) = self.files.remove(&id.0) {
            let mut file = file;
            if let Some(event) = file.handle_io(io) {
                let fd = file.as_raw_fd();
                self.engine.service.handle_event(fd, id, event, time);
            }
            self.files.insert(id.0, file);
        }
        proof {
            self.lemma_same_numbers(*old(self));
        }
    }

    /// Lets a file handle each of the I/O events.
    pub fn file_events(&mut self, id: ResourceId, io: IoType, time: Timestamp)
        requires
            old(self).is_consistent(),
            old(self).files().contains_key(id.0),
        ensures
            final(self).is_consistent(),
            old(self).polls_resources_only() ==> final(self).polls_resources_only(),
            old(self).engine().differs_in_service(final(self).engine()),
            final(self).files() == old(self).files().insert(id.0, final(self).files()[id.0]),
            exists|states: Seq<Self>|
                {
                    &&& #[trigger] states.len() == io.events().len() + 1
                    &&& states.first() == *old(self)
                    &&& states.last() == *final(self)
                    &&& forall|i: int|
                        0 <= i < io.events().len() ==> {
                            &&& (#[trigger] states[i]).files().contains_key(id.0)
                            &&& exists|runtime: &mut Self, each: Io, out: ()|
                                {
                                    &&& *runtime == states[i]
                                    &&& *final(runtime) == states[i + 1]
                                    &&& each == io.events()[i]
                                    &&& #[trigger] call_ensures(
                                        Self::file_io,
                                        (runtime, id, each, time),
                                        out,
                                    )
                                }
                        }
                },
    {
        let mut rest = io;
        let ghost events = io.events();
        let ghost mut states: Seq<Self> = seq![*self];
        loop
            invariant
                self.is_consistent(),
                old(self).polls_resources_only() ==> self.polls_resources_only(),
                old(self).engine().differs_in_service(self.engine()),
                old(self).files().contains_key(id.0),
                self.files() =~= old(self).files().insert(id.0, self.files()[id.0]),
                events == io.events(),
                1 <= states.len() <= events.len() + 1,
                states.first() == *old(self),
                states.last() == *self,
                rest.events() =~= events.skip(states.len() - 1),
                forall|i: int|
                    0 <= i < states.len() - 1 ==> {
                        &&& (#[trigger] states[i]).files().contains_key(id.0)
                        &&& exists|runtime: &mut Self, each: Io, out: ()|
                            {
                                &&& *runtime == states[i]
                                &&& *final(runtime) == states[i + 1]
                                &&& each == events[i]
                                &&& #[trigger] call_ensures(
                                    Self::file_io,
                                    (runtime, id, each, time),
                                    out,
                                )
                            }
                    },
            ensures
                states.len() == events.len() + 1,
            decreases rest.events().len(),
        {
            let ghost before = states;
            let ghost count = states.len() - 1;
            let each = match rest.next() {
                Some(each) => each,
                None => break,
            };
            assert(each == events[count]);
            self.file_io(id, each, time);
            proof {
                states = states.push(*self);
                assert forall|i: int| 0 <= i < states.len() - 1 implies {
                    &&& (#[trigger] states[i]).files().contains_key(id.0)
                    &&& exists|runtime: &mut Self, each: Io, out: ()|
                        {
                            &&& *runtime == states[i]
                            &&& *final(runtime) == states[i + 1]
                            &&& each == events[i]
                            &&& #[trigger] call_ensures(
                                Self::file_io,
                                (runtime, id, each, time),
                                out,
                            )
                        }
                } by {
                    assert(states[i] == before[i]);
                    if i < count {
                        assert(states[i + 1] == before[i + 1]);
                    } else {
                        assert(states[i + 1] == *self);
                    }
                }
            }
        }
    }

    /// Takes a file out of the reactor and tells the service that it got closed.
    pub fn file_failed(&mut self, id: ResourceId)
        requires
            old(self).is_consistent(),
            old(self).files().contains_key(id.0),
        ensures
            final(self).is_consistent(),
            old(self).polls_resources_only() ==> final(self).polls_resources_only(),
            old(self).unregisters(*final(self), id),
            final(self).files() == old(self).files().remove(id.0),
            final(self).engine() == (Engine {
                service: final(self).engine().service,
                poller: final(self).engine().poller,
                ..old(self).engine()
            }),
            exists|
                unregistered: &mut Self,
                file: Option<H::File>,
                engine: &mut Engine<H, P, W>,
                out: (),
            |
                {
                    &&& *unregistered == *old(self)
                    &&& #[trigger] call_ensures(
                        Self::unregister_file,
                        (unregistered, id),
                        file,
                    )
                    &&& file == Some(old(self).files()[id.0])
                    &&& *engine == final(unregistered).engine()
                    &&& *final(engine) == final(self).engine()
                    &&& #[trigger] call_ensures(
                        Engine::<H, P, W>::report_error,
                        (engine, Error::Closed(id, old(self).files()[id.0])),
                        out,
                    )
                },
    {
        if let Some(file) = self.unregister_file(id) {
            let ghost between = *self;
            self.engine.report_error(Error::Closed(id, file));
            proof {
                self.lemma_same_numbers(between);
            }
        }
    }

    /// Reads the next event of the poll.
    pub fn next_event(&mut self) -> (res: Option<(ResourceId, Result<IoType, IoFail>)>)
        requires
            old(self).is_consistent(),
        ensures
            final(self).is_consistent(),
            old(self).polls_resources_only() ==> final(self).polls_resources_only(),
            old(self).same_resources(*final(self)),
            old(self).same_registrations(*final(self)),
            final(self).engine().service == old(self).engine().service,
            match res {
                Some(event) => {
                    &&& old(self).pending().len() > 0
                    &&& event == old(self).pending()[0]
                    &&& final(self).pending() == old(self).pending().drop_first()
                },
                None => old(self).pending().len() == 0 && final(self).pending().len() == 0,
            },
    {
        let res = self.engine.poller.next();
        proof {
            self.lemma_same_numbers(*old(self));
        }
        res
    }

    /// Puts a file into the reactor.
    ///
    /// # Returns
    ///
    /// File descriptor of the file and the number which is given to it.
    pub fn add_file(&mut self, file: H::File) -> (res: (i32, ResourceId))
        requires
            old(self).is_consistent(),
            old(self).engine().poller.has_room(),
        ensures
            final(self).is_consistent(),
            old(self).polls_resources_only() ==> final(self).polls_resources_only(),
            call_ensures(H::File::as_raw_fd, (&file,), res.0),
            old(self).registers(*final(self), res.1, res.0),
            final(self).files() == old(self).files().insert(res.1.0, file),
            final(self).engine() == (Engine {
                poller: final(self).engine().poller,
                ..old(self).engine()
            }),
    {
        let fd = file.as_raw_fd();
        let id = self.engine.poller.register(fd, IoType::read_only());
        self.files.insert(id.0, file);
        proof {
            let before = *old(self);
            assert(before.registers(*self, id, fd));
            if before.polls_resources_only() {
                assert forall|k: u64| #[trigger] self.registered().contains_key(k) implies k
                    == WAKER || self.files().contains_key(k) by {
                    assert(k == id.0 || before.registered().contains_key(k));
                }
            }
        }
        (fd, id)
    }

    /// Registers a file and tells the service about it.
    ///
    /// The reactor can't go on once all the numbers for resources are used up.
    pub fn register_file(&mut self, file: H::File) -> (res: Outcome<Error<H::File>>)
        requires
            old(self).is_consistent(),
        ensures
            final(self).is_consistent(),
            old(self).polls_resources_only() ==> final(self).polls_resources_only(),
            final(self).pending() == old(self).pending(),
            if old(self).engine().poller.has_room() {
                &&& res == Outcome::<Error<H::File>>::Proceed(true)
                &&& final(self).engine() == Engine {
                    service: final(self).engine().service,
                    poller: final(self).engine().poller,
                    ..old(self).engine()
                }
                &&& exists|
                    added: &mut Self,
                    place: (i32, ResourceId),
                    service: &mut H,
                    out: (),
                |
                    {
                        &&& *added == *old(self)
                        &&& #[trigger] call_ensures(Self::add_file, (added, file), place)
                        &&& final(self).files() == final(added).files()
                        &&& final(added).engine().differs_in_service(final(self).engine())
                        &&& *service == final(added).engine().service
                        &&& *final(service) == final(self).engine().service
                        &&& #[trigger] call_ensures(
                            H::handle_registered,
                            (service, place.0, place.1),
                            out,
                        )
                    }
            } else {
                &&& res == Outcome::<Error<H::File>>::Broken(Failure::ResourceOverflow)
                &&& *final(self) == *old(self)
            },
    {
        if !self.engine.poller.can_register() {
            return Outcome::Broken(Failure::ResourceOverflow);
        }
        let (fd, id) = self.add_file(file);
        let ghost between = *self;
        self.engine.service.handle_registered(fd, id);
        proof {
            self.lemma_same_numbers(between);
        }
        Outcome::Proceed(true)
    }

    /// Passes a file which is not in the reactor any more to the service.
    pub fn pass_file(&mut self, id: ResourceId, file: H::File)
        requires
            old(self).is_consistent(),
        ensures
            final(self).is_consistent(),
            old(self).polls_resources_only() ==> final(self).polls_resources_only(),
            final(self).files() == old(self).files(),
            old(self).engine().differs_in_service(final(self).engine()),
            exists|service: &mut H, out: ()|
                {
                    &&& *service == old(self).engine().service
                    &&& *final(service) == final(self).engine().service
                    &&& #[trigger] call_ensures(H::handover_file, (service, id, file), out)
                },
    {
        self.engine.service.handover_file(id, file);
        proof {
            self.lemma_same_numbers(*old(self));
        }
    }

    /// Takes a file out of the reactor and hands it over to the service, unless there is no such
    /// file.
    pub fn handover_file(&mut self, id: ResourceId) -> (res: Outcome<Error<H::File>>)
        requires
            old(self).is_consistent(),
        ensures
            final(self).is_consistent(),
            old(self).polls_resources_only() ==> final(self).polls_resources_only(),
            res == Outcome::<Error<H::File>>::Proceed(true),
            if old(self).files().contains_key(id.0) {
                &&& old(self).unregisters(*final(self), id)
                &&& final(self).files() == old(self).files().remove(id.0)
                &&& final(self).engine() == Engine {
                    service: final(self).engine().service,
                    poller: final(self).engine().poller,
                    ..old(self).engine()
                }
                &&& exists|
                    unregistered: &mut Self,
                    file: Option<H::File>,
                    passed: &mut Self,
                    out: (),
                |
                    {
                        &&& *unregistered == *old(self)
                        &&& #[trigger] call_ensures(
                            Self::unregister_file,
                            (unregistered, id),
                            file,
                        )
                        &&& file == Some(old(self).files()[id.0])
                        &&& *passed == *final(unregistered)
                        &&& *final(passed) == *final(self)
                        &&& #[trigger] call_ensures(
                            Self::pass_file,
                            (passed, id, old(self).files()[id.0]),
                            out,
                        )
                    }
            } else {
                *final(self) == *old(self)
            },
    {
        if let Some(file) = self.unregister_file(id) {
            self.pass_file(id, file);
        }
        Outcome::Proceed(true)
    }

    /// Writes the data to a file, unless there is no such file.
    ///
    /// A file which fails to accept the data is taken out of the reactor. The reactor can't go on
    /// if the file is read-only or not ready for a write operation: that is a bug in the service.
    pub fn write(&mut self, id: ResourceId, data: Vec<u8>) -> (res: Outcome<Error<H::File>>)
        requires
            old(self).is_consistent(),
        ensures
            final(self).is_consistent(),
            old(self).polls_resources_only() ==> final(self).polls_resources_only(),
            if old(self).files().contains_key(id.0) {
                &&& final(self).engine() == Engine {
                    poller: final(self).engine().poller,
                    ..old(self).engine()
                }
                &&& exists|file: &mut H::File, buf: &[u8], written: Result<(), WriteError>|
                    {
                        &&& *file == old(self).files()[id.0]
                        &&& buf@ == data@
                        &&& #[trigger] call_ensures(
                            H::File::write_atomic,
                            (file, buf),
                            written,
                        )
                        &&& match written {
                            Err(WriteError::Io(_)) => {
                                &&& res == Outcome::<Error<H::File>>::Failed(
                                    Error::Closed(id, *final(file)),
                                )
                                &&& final(self).files() == old(self).files().remove(id.0)
                                &&& old(self).unregisters(*final(self), id)
                            },
                            _ => {
                                &&& res == if written is Ok {
                                    Outcome::<Error<H::File>>::Proceed(true)
                                } else {
                                    Outcome::<Error<H::File>>::Broken(Failure::NotReady(id))
                                }
                                &&& final(self).files() == old(self).files().insert(
                                    id.0,
                                    *final(file),
                                )
                                &&& final(self).engine() == old(self).engine()
                            },
                        }
                    }
            } else {
                &&& res == Outcome::<Error<H::File>>::Proceed(true)
                &&& *final(self) == *old(self)
            },
    {
        if !self.files.contains_key(&id.0) {
            return Outcome::Proceed(true);
        }
        let mut written = Ok(());
        if let Some(file) = self.files.remove(&id.0) {
            let mut file = file;
            written = file.write_atomic(data.as_slice());
            self.files.insert(id.0, file);
        }
        proof {
            self.lemma_same_numbers(*old(self));
        }
        match written {
            Err(WriteError::NotReady) => Outcome::Broken(Failure::NotReady(id)),
            Err(WriteError::Io(_)) => match self.unregister_file(id) {
                Some(file) => Outcome::Failed(Error::Closed(id, file)),
                None => Outcome::Proceed(true),
            },
            Ok(_) => Outcome::Proceed(true),
        }
    }

    /// Sets a new timer for a given duration from the moment `time`.
    ///
    /// The reactor can't go on if the timer is to fire at a moment which is out of range.
    pub fn set_timer(&mut self, duration: Duration, time: Timestamp) -> (res: Outcome<
        Error<H::File>,
    >)
        requires
            old(self).is_consistent(),
        ensures
            final(self).is_consistent(),
            old(self).polls_resources_only() ==> final(self).polls_resources_only(),
            ({
                let moment = time.0 + duration@ / NANOS_PER_MILLI as nat;
                if moment <= u128::MAX {
                    &&& res == Outcome::<Error<H::File>>::Proceed(true)
                    &&& final(self).files() == old(self).files()
                    &&& final(self).engine() == Engine {
                        timeouts: final(self).engine().timeouts,
                        ..old(self).engine()
                    }
                    &&& final(self).engine().timeouts@ == old(self).engine().timeouts@.insert(
                        moment as u128,
                    )
                } else {
                    &&& res == Outcome::<Error<H::File>>::Broken(Failure::TimeOverflow)
                    &&& *final(self) == *old(self)
                }
            }),
    {
        if time.0 > u128::MAX - duration.as_millis() {
            return Outcome::Broken(Failure::TimeOverflow);
        }
        self.engine.timeouts.set_timeout(duration, time);
        proof {
            self.lemma_same_numbers(*old(self));
        }
        Outcome::Proceed(true)
    }

    /// Handles an action of the service.
    ///
    /// The reactor can't go on after [`Action::Write`] for read-only resources or resources which
    /// are not ready for a write operation (i.e. returning `false` from
    /// [`WriteAtomic::is_ready_to_write`] implementation).
    pub fn handle_action(
        &mut self,
        action: Action<H::File>,
        time: Timestamp,
    ) -> (res: Outcome<Error<H::File>>)
        requires
            old(self).is_consistent(),
        ensures
            final(self).is_consistent(),
            old(self).polls_resources_only() ==> final(self).polls_resources_only(),
            final(self).pending() == old(self).pending(),
            old(self).engine().poller.given().subset_of(final(self).engine().poller.given()),
            match action {
                Action::RegisterFile(file) => exists|runtime: &mut Self|
                    {
                        &&& *runtime == *old(self)
                        &&& *final(runtime) == *final(self)
                        &&& #[trigger] call_ensures(Self::register_file, (runtime, file), res)
                    },
                Action::UnregisterFile(id) => exists|runtime: &mut Self|
                    {
                        &&& *runtime == *old(self)
                        &&& *final(runtime) == *final(self)
                        &&& #[trigger] call_ensures(Self::handover_file, (runtime, id), res)
                    },
                Action::Write(id, data) => exists|runtime: &mut Self|
                    {
                        &&& *runtime == *old(self)
                        &&& *final(runtime) == *final(self)
                        &&& #[trigger] call_ensures(Self::write, (runtime, id, data), res)
                    },
                Action::SetTimer(duration) => exists|runtime: &mut Self|
                    {
                        &&& *runtime == *old(self)
                        &&& *final(runtime) == *final(self)
                        &&& #[trigger] call_ensures(Self::set_timer, (runtime, duration, time), res)
                    },
                Action::Terminate => {
                    &&& res == Outcome::<Error<H::File>>::Proceed(false)
                    &&& *final(self) == *old(self)
                },
            },
    {
        match action {
            Action::RegisterFile(file) => self.register_file(file),
            Action::UnregisterFile(id) => self.handover_file(id),
            Action::Write(id, data) => self.write(id, data),
            Action::SetTimer(duration) => self.set_timer(duration, time),
            Action::Terminate => Outcome::Proceed(false),
        }
    }

    /// Every event of a polled resource can be handled: the only polled resource which is not known
    /// is the waker.
    pub proof fn law_polled_resources_are_known(self, id: u64)
        requires
            self.is_consistent(),
            self.polls_resources_only(),
        ensures
            self.registered().contains_key(id) && id != WAKER ==> self.knows(id),
            self.knows(id) ==> self.registered().contains_key(id) && id != WAKER,
    {
    }

    /// The events of polled resources can always be handled, unless the poll of the waker has
    /// failed.
    pub proof fn law_polled_events_are_handled(
        self,
        events: Seq<(ResourceId, Result<IoType, IoFail>)>,
        i: int,
    )
        requires
            self.is_consistent(),
            self.polls_resources_only(),
            0 <= i < events.len(),
            self.registered().contains_key(events[i].0.0),
        ensures
            handling(events[i], self.knows(events[i].0.0)) is Broken <==> events[i].0.0 == WAKER
                && events[i].1 is Err,
    {
    }

    /// A number which was given to a resource is never given to another one, even when the resource
    /// is not in the reactor any more.
    pub proof fn law_numbers_are_never_reused(
        before: Self,
        between: Self,
        later: Self,
        after: Self,
        id: ResourceId,
        fd: i32,
        other_id: ResourceId,
        other_fd: i32,
    )
        requires
            before.registers(between, id, fd),
            between.engine().poller.given().subset_of(later.engine().poller.given()),
            later.registers(after, other_id, other_fd),
        ensures
            other_id != id,
            before.engine().poller.given().subset_of(between.engine().poller.given()),
    {
        assert(between.engine().poller.given().contains(id.0));
    }

    /// Unregistering a file undoes its registration and gives the same file back.
    pub proof fn law_file_comes_back(
        before: Self,
        between: Self,
        after: Self,
        id: ResourceId,
        fd: i32,
        file: H::File,
    )
        requires
            before.is_consistent(),
            before.registers(between, id, fd),
            between.files() == before.files().insert(id.0, file),
            between.unregisters(after, id),
            after.files() == between.files().remove(id.0),
        ensures
            between.files()[id.0] == file,
            after.files() == before.files(),
            after.registered() == before.registered(),
            after.pending() == before.pending(),
    {
        assert(!before.files().contains_key(id.0));
        assert(after.files() =~= before.files());
        assert(after.registered() =~= before.registered());
    }

    proof fn lemma_same_numbers(self, before: Self)
        requires
            before.is_consistent(),
            self.engine().poller.inv(),
            self.registered().dom() =~= before.registered().dom(),
            self.files().dom() =~= before.files().dom(),
        ensures
            self.is_consistent(),
            before.polls_resources_only() ==> self.polls_resources_only(),
    {
        assert forall|id: u64| #[trigger] self.files().contains_key(id) implies
            self.registered().contains_key(id) by {
            assert(before.files().contains_key(id));
            assert(before.registered().dom().contains(id));
        }
        if before.polls_resources_only() {
            assert forall|id: u64| #[trigger] self.registered().contains_key(id) implies id == WAKER
                || self.files().contains_key(id) by {
                assert(before.registered().contains_key(id));
                assert(before.files().dom().contains(id) == self.files().dom().contains(id));
            }
        }
    }
}

impl<H: Handler, P: Poll, W: Waker> ReactorRuntime<P> for Runtime<H, P, W> {
    open spec fn inv(&self) -> bool {
        self.is_consistent()
    }

    open spec fn polls_with(&self) -> P {
        self.engine().poller
    }

    open spec fn knows(&self, id: u64) -> bool {
        self.files().contains_key(id)
    }

    fn poller(&mut self) -> (res: &mut P)
        ensures
            final(self).files() == old(self).files(),
            final(self).engine() == (Engine { poller: *final(res), ..old(self).engine() }),
    {
        &mut self.engine.poller
    }

    fn prepare_poll(&mut self, time: Timestamp) -> (res: Option<Duration>)
        ensures
            old(self).polls_resources_only() ==> final(self).polls_resources_only(),
            old(self).same_resources(*final(self)),
            final(self).engine().service == old(self).engine().service,
            final(self).engine().poller.given() == old(self).engine().poller.given(),
            final(self).engine().poller.has_room() == old(self).engine().poller.has_room(),
            res is Some <==> can_wait(old(self).engine().timeouts@, time),
            match res {
                None => *final(self) == *old(self),
                Some(timeout) => {
                    &&& is_poll_timeout(
                        old(self).engine().timeouts@,
                        time,
                        (WAIT_TIMEOUT * NANOS_PER_SEC) as nat,
                        timeout,
                    )
                    &&& final(self).registered().dom() == old(self).registered().dom()
                    &&& forall|id: u64|
                        old(self).registered().contains_key(id) ==> {
                            let was = old(self).registered()[id];
                            let is = #[trigger] final(self).registered()[id];
                            &&& is.0 == was.0
                            &&& if old(self).files().contains_key(id) {
                                call_ensures(
                                    H::File::interests,
                                    (&old(self).files()[id],),
                                    is.1,
                                )
                            } else {
                                is.1 == was.1
                            }
                        }
                },
            },
    {
        let timeout = match poll_timeout(
            &self.engine.timeouts,
            time,
            Duration::from_secs(WAIT_TIMEOUT),
        ) {
            Some(timeout) => timeout,
            None => return None,
        };
        set_interests(&self.files, &mut self.engine.poller);
        proof {
            let before = *old(self);
            assert(interests_updated(
                before.files(),
                before.registered(),
                self.registered(),
            ));
            assert forall|id: u64| before.registered().contains_key(id) implies ({
                let was = before.registered()[id];
                let is = #[trigger] self.registered()[id];
                &&& is.0 == was.0
                &&& if before.files().contains_key(id) {
                    call_ensures(H::File::interests, (&before.files()[id],), is.1)
                } else {
                    is.1 == was.1
                }
            }) by {
                assert(self.registered().contains_key(id));
            }
        }
        Some(timeout)
    }

    fn finish_poll(&mut self, now: Timestamp, res: Result<usize, IoError>) -> (fired: usize)
        ensures
            old(self).polls_resources_only() ==> final(self).polls_resources_only(),
            final(self).files() == old(self).files(),
            exists|engine: &mut Engine<H, P, W>|
                {
                    &&& *engine == old(self).engine()
                    &&& *final(engine) == final(self).engine()
                    &&& #[trigger] call_ensures(
                        Engine::<H, P, W>::finish_poll,
                        (engine, now, res),
                        fired,
                    )
                },
    {
        let fired = self.engine.finish_poll(now, res);
        proof {
            self.lemma_same_numbers(*old(self));
        }
        fired
    }

    fn handle_event(&mut self, time: Timestamp) -> (res: Handled)
        ensures
            old(self).polls_resources_only() ==> final(self).polls_resources_only(),
            exists|read: &mut Self, event: Option<(ResourceId, Result<IoType, IoFail>)>|
                {
                    &&& *read == *old(self)
                    &&& #[trigger] call_ensures(Self::next_event, (read,), event)
                    &&& match event {
                        None => *final(read) == *final(self),
                        Some((id, result)) => if id.0 == WAKER {
                            match result {
                                Ok(_) => {
                                    &&& final(self).files() == old(self).files()
                                    &&& exists|waker: &mut W::Recv, out: ()|
                                        {
                                            &&& *waker == old(self).engine().waker
                                            &&& final(self).engine() == Engine {
                                                waker: *final(waker),
                                                ..final(read).engine()
                                            }
                                            &&& #[trigger] call_ensures(
                                                W::Recv::reset,
                                                (waker,),
                                                out,
                                            )
                                        }
                                },
                                Err(_) => *final(read) == *final(self),
                            }
                        } else if old(self).files().contains_key(id.0) {
                            match result {
                                Ok(io) => exists|runtime: &mut Self, out: ()|
                                    {
                                        &&& *runtime == *final(read)
                                        &&& *final(runtime) == *final(self)
                                        &&& #[trigger] call_ensures(
                                            Self::file_events,
                                            (runtime, id, io, time),
                                            out,
                                        )
                                    },
                                Err(_) => exists|runtime: &mut Self, out: ()|
                                    {
                                        &&& *runtime == *final(read)
                                        &&& *final(runtime) == *final(self)
                                        &&& #[trigger] call_ensures(
                                            Self::file_failed,
                                            (runtime, id),
                                            out,
                                        )
                                    },
                            }
                        } else {
                            *final(read) == *final(self)
                        },
                    }
                },
    {
        let (id, res) = match self.next_event() {
            Some(event) => event,
            None => return Handled::Drained,
        };
        if id.is_waker() {
            match res {
                Ok(_) => {
                    let ghost between = *self;
                    self.engine.waker.reset();
                    proof {
                        self.lemma_same_numbers(between);
                    }
                    Handled::Awoken
                },
                Err(fail) => Handled::Broken(Failure::Waker(fail)),
            }
        } else if self.files.contains_key(&id.0) {
            match res {
                Ok(io) => self.file_events(id, io, time),
                Err(_) => self.file_failed(id),
            }
            Handled::Dispatched
        } else {
            Handled::Broken(Failure::UnknownResource(id))
        }
    }

    fn receive_command(&mut self) -> (res: Received)
        ensures
            old(self).polls_resources_only() ==> final(self).polls_resources_only(),
            final(self).files() == old(self).files(),
            exists|engine: &mut Engine<H, P, W>|
                {
                    &&& *engine == old(self).engine()
                    &&& *final(engine) == final(self).engine()
                    &&& #[trigger] call_ensures(
                        Engine::<H, P, W>::receive_command,
                        (engine,),
                        res,
                    )
                },
    {
        let res = self.engine.receive_command();
        proof {
            self.lemma_same_numbers(*old(self));
        }
        res
    }

    fn handle_next_action(&mut self, time: Timestamp) -> (res: Performed)
        ensures
            old(self).polls_resources_only() ==> final(self).polls_resources_only(),
            exists|
                read: &mut Engine<H, P, W>,
                action: Option<Action<H::File>>,
            |
                {
                    &&& *read == old(self).engine()
                    &&& #[trigger] call_ensures(Engine::<H, P, W>::next_action, (read,), action)
                    &&& match action {
                        None => {
                            &&& res is Drained
                            &&& final(self).engine() == *final(read)
                            &&& final(self).files() == old(self).files()
                        },
                        Some(action) => exists|
                            runtime: &mut Self,
                            outcome: Outcome<Error<H::File>>,
                        |
                            {
                                &&& runtime.engine() == *final(read)
                                &&& runtime.files() == old(self).files()
                                &&& #[trigger] call_ensures(
                                    Self::handle_action,
                                    (runtime, action, time),
                                    outcome,
                                )
                                &&& match outcome {
                                    Outcome::Proceed(proceed) => {
                                        &&& res == Performed::Proceed(proceed)
                                        &&& *final(runtime) == *final(self)
                                    },
                                    Outcome::Broken(failure) => {
                                        &&& res == Performed::Broken(failure)
                                        &&& *final(runtime) == *final(self)
                                    },
                                    Outcome::Failed(err) => {
                                        &&& res is Failed
                                        &&& final(self).files() == final(runtime).files()
                                        &&& exists|engine: &mut Engine<H, P, W>, out: ()|
                                            {
                                                &&& *engine == final(runtime).engine()
                                                &&& *final(engine) == final(self).engine()
                                                &&& #[trigger] call_ensures(
                                                    Engine::<H, P, W>::report_error,
                                                    (engine, err),
                                                    out,
                                                )
                                            }
                                    },
                                }
                            },
                    }
                },
    {
        let action = match self.engine.next_action() {
            Some(action) => action,
            None => {
                proof {
                    self.lemma_same_numbers(*old(self));
                }
                return Performed::Drained;
            },
        };
        proof {
            self.lemma_same_numbers(*old(self));
        }
        match self.handle_action(action, time) {
            Outcome::Proceed(proceed) => Performed::Proceed(proceed),
            Outcome::Failed(err) => {
                let ghost between = *self;
                self.engine.report_error(err);
                proof {
                    self.lemma_same_numbers(between);
                }
                Performed::Failed
            },
            Outcome::Broken(failure) => Performed::Broken(failure),
        }
    }
}

} // verus!
