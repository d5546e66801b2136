//! Networking reactor runtime.

use std::collections::HashMap;
use vstd::prelude::*;

use crate::duration::{Duration, NANOS_PER_MILLI, NANOS_PER_SEC};
use crate::error::IoError;
use crate::poller::{IoFail, IoType, Poll, Waker, WakerRecv};
use crate::resource::{Io, Resource, ResourceId, ResourceType, WriteAtomic, WriteError, WAKER};
use crate::runtimes::controller::{Controller, Ctl};
use crate::runtimes::interests::{interests_updated, set_interests};
use crate::runtimes::{
    handling, is_poll_timeout, poll_timeout, Engine, Failure, Handled, Outcome, Performed,
    ReactorHandler, ReactorRuntime, Received,
};
use crate::text::{applied, applied_text, decimal, decimal_text};
use crate::timeouts::{can_wait, Timer, Timestamp};

verus! {

/// Maximum amount of time to wait for I/O, in seconds.
pub const WAIT_TIMEOUT: u64 = 3600;

/// Reactor errors
#[derive(Debug)]
pub enum Error<L, T> {
    /// Listener got disconnected during poll operation.
    ListenerDisconnect(ResourceId, L),
    /// Transport got disconnected during poll operation.
    TransportDisconnect(ResourceId, T),
}

/// Actions which can be provided to the reactor by the [`Handler`].
///
/// Reactor reads actions on each event loop using [`Handler`] iterator interface.
#[derive(Debug)]
pub enum Action<L, T> {
    /// Register a new listener resource for the reactor poll.
    ///
    /// Reactor can't instantiate the resource, like bind a network listener. Reactor only can
    /// register already active resource for polling in the event loop.
    RegisterListener(L),

    /// Register a new transport resource for the reactor poll.
    ///
    /// Reactor can't instantiate the resource, like open a file or establish network connection.
    /// Reactor only can register already active resource for polling in the event loop.
    RegisterTransport(T),

    /// Unregister listener resource from the reactor poll and handover it to the [`Handler`] via
    /// [`Handler::handover_listener`].
    ///
    /// When the resource is unregistered no action is performed, i.e. the file descriptor is not
    /// closed, listener is not unbound, connections are not closed etc. All these actions must be
    /// handled by the handler upon the handover event.
    UnregisterListener(ResourceId),

    /// Unregister transport resource from the reactor poll and handover it to the [`Handler`] via
    /// [`Handler::handover_transport`].
    ///
    /// When the resource is unregistered no action is performed, i.e. the file descriptor is not
    /// closed, listener is not unbound, connections are not closed etc. All these actions must be
    /// handled by the handler upon the handover event.
    UnregisterTransport(ResourceId),

    /// Write the data to one of the transport resources.
    Send(ResourceId, Vec<u8>),

    /// Set a new timer for a given duration from this moment.
    ///
    /// When the timer fires reactor will timeout poll syscall and call
    /// [`ReactorHandler::handle_timer`].
    SetTimer(Duration),

    /// Gracefully terminate the reactor.
    Terminate,
}

impl<L, T> Action<L, T> {
    /// Names the action with what it applies to.
    pub fn to_string(&self) -> (res: String)
        ensures
            match *self {
                Action::RegisterListener(_) => res@ == "register_listener"@,
                Action::RegisterTransport(_) => res@ == "register_transport"@,
                Action::UnregisterListener(_) => res@ == "unregister_listener"@,
                Action::UnregisterTransport(_) => res@ == "unregister_transport"@,
                Action::Send(id, _) => res@ == applied("send_to"@, decimal(id.0 as nat)),
                Action::SetTimer(duration) => res@ == applied("set_timer"@, duration.text()),
                Action::Terminate => res@ == "terminate"@,
            },
    {
        match self {
            Action::RegisterListener(_) => "register_listener".to_string(),
            Action::RegisterTransport(_) => "register_transport".to_string(),
            Action::UnregisterListener(_) => "unregister_listener".to_string(),
            Action::UnregisterTransport(_) => "unregister_transport".to_string(),
            Action::Send(id, _) => applied_text("send_to", decimal_text(id.0).as_str()),
            Action::SetTimer(duration) => applied_text("set_timer", duration.to_string().as_str()),
            Action::Terminate => "terminate".to_string(),
        }
    }
}

/// A service which handles I/O events generated in the reactor.
pub trait Handler: ReactorHandler<
    Action = Action<Self::Listener, Self::Transport>,
    Error = Error<Self::Listener, Self::Transport>,
> {
    /// Type for a listener resource.
    ///
    /// Listener resources are resources which may spawn more resources and can't be written to. A
    /// typical example of a listener resource is a TCP listener, however this may also be a special
    /// form of a peripheral device or something else.
    type Listener: Resource;

    /// Type for a transport resource.
    ///
    /// Transport is a "full" resource which can be read from - and written to. Usual files, network
    /// connections, database connections etc are all fall into this category.
    type Transport: Resource;

    /// Method called by the reactor upon an I/O event on a listener resource.
    ///
    /// Since listener doesn't support writing, it can be only a read event (indicating that a new
    /// resource can be spawned from the listener).
    fn handle_listener_event(
        &mut self,
        fd: i32,
        id: ResourceId,
        event: <Self::Listener as Resource>::Event,
        time: Timestamp,
    );

    /// Method called by the reactor upon I/O event on a transport resource.
    fn handle_transport_event(
        &mut self,
        fd: i32,
        id: ResourceId,
        event: <Self::Transport as Resource>::Event,
        time: Timestamp,
    );

    /// Method called by the reactor when a given resource was successfully registered and provided
    /// with a resource id.
    ///
    /// The resource id will be used later in [`Self::handle_listener_event`],
    /// [`Self::handle_transport_event`], [`Self::handover_listener`] and
    /// [`Self::handover_transport`] calls to the handler.
    fn handle_registered(&mut self, fd: i32, id: ResourceId, ty: ResourceType);

    /// Method called by the reactor upon receiving [`Action::UnregisterListener`].
    ///
    /// Passes the listener resource to the [`Handler`] when it is already not a part of the reactor
    /// poll. From this point of time it is safe to send the resource to other threads (like
    /// workers) or close the resource.
    fn handover_listener(&mut self, id: ResourceId, listener: Self::Listener);

    /// Method called by the reactor upon receiving [`Action::UnregisterTransport`].
    ///
    /// Passes the transport resource to the [`Handler`] when it is already not a part of the
    /// reactor poll. From this point of time it is safe to send the resource to other threads
    /// (like workers) or close the resource.
    fn handover_transport(&mut self, id: ResourceId, transport: Self::Transport);
}

/// Internal reactor runtime which is run in a dedicated thread.
///
/// This runtime structure does not spawn a thread and does not block. It is run by an
/// [`crate::runtimes::EventLoop`], which leaves the `poll` syscall to its driver.
#[verifier::reject_recursive_types(H)]
#[verifier::reject_recursive_types(W)]
pub struct Runtime<H: Handler, P: Poll, W: Waker> {
    engine: Engine<H, P, W>,
    listeners: HashMap<u64, H::Listener>,
    transports: HashMap<u64, H::Transport>,
}

impl<H: Handler, P: Poll, W: Waker> Runtime<H, P, W> {
    /// The service with all that is needed for running it, apart from the resources.
    pub closed spec fn engine(self) -> Engine<H, P, W> {
        self.engine
    }

    /// The listeners by their numbers.
    pub closed spec fn listeners(self) -> Map<u64, H::Listener> {
        self.listeners@
    }

    /// The transports by their numbers.
    pub closed spec fn transports(self) -> Map<u64, H::Transport> {
        self.transports@
    }

    /// File descriptors and interests which are polled.
    pub open spec fn registered(self) -> Map<u64, (i32, IoType)> {
        self.engine().poller.registered()
    }

    /// Events of the poll which are not yet handled.
    pub open spec fn pending(self) -> Seq<(ResourceId, Result<IoType, IoFail>)> {
        self.engine().poller.pending()
    }

    /// Every resource is polled, and is either a listener or a transport, but neither both nor the
    /// waker.
    pub open spec fn is_consistent(self) -> bool {
        &&& self.engine().poller.inv()
        &&& !self.listeners().contains_key(WAKER)
        &&& !self.transports().contains_key(WAKER)
        &&& forall|id: u64| #[trigger]
            self.listeners().contains_key(id) ==> self.registered().contains_key(id)
                && !self.transports().contains_key(id)
        &&& forall|id: u64| #[trigger]
            self.transports().contains_key(id) ==> self.registered().contains_key(id)
    }

    /// Nothing but the waker and the resources is polled.
    pub open spec fn polls_resources_only(self) -> bool {
        forall|id: u64| #[trigger]
            self.registered().contains_key(id) ==> id == WAKER || self.listeners().contains_key(id)
                || self.transports().contains_key(id)
    }

    /// The resources do not differ, nor does the engine apart from the service and the poll engine.
    pub open spec fn same_resources(self, after: Self) -> bool {
        &&& after.listeners() == self.listeners()
        &&& after.transports() == self.transports()
        &&& after.engine() == Engine {
            service: after.engine().service,
            poller: after.engine().poller,
            ..self.engine()
        }
    }

    /// The poll engines track the same resources, with the same numbers given.
    pub open spec fn same_registrations(self, after: Self) -> bool {
        &&& after.registered() == self.registered()
        &&& after.engine().poller.given() == self.engine().poller.given()
        &&& after.engine().poller.has_room() == self.engine().poller.has_room()
    }

    /// The poll engines differ just in that a resource with a fresh number is registered for reads.
    pub open spec fn registers(self, after: Self, id: ResourceId, fd: i32) -> bool {
        &&& id.0 != WAKER
        &&& !self.engine().poller.given().contains(id.0)
        &&& !self.registered().contains_key(id.0)
        &&& after.registered() == self.registered().insert(
            id.0,
            (fd, IoType { read: true, write: false }),
        )
        &&& after.engine().poller.given() == self.engine().poller.given().insert(id.0)
        &&& after.pending() == self.pending()
    }

    /// The poll engines differ just in that a resource is unregistered.
    pub open spec fn unregisters(self, after: Self, id: ResourceId) -> bool {
        &&& after.registered() == self.registered().remove(id.0)
        &&& after.pending() == self.pending()
        &&& after.engine().poller.given() == self.engine().poller.given()
        &&& after.engine().poller.has_room() == self.engine().poller.has_room()
    }

    /// Creates new reactor runtime using provided [`Poll`] engine and a service exposing
    /// [`Handler`] API to the reactor.
    pub fn with(
        service: H,
        poller: P,
        controller: Controller<H::Command, W::Send>,
        ctl_recv: crossbeam_channel::Receiver<Ctl<H::Command>>,
        waker_recv: W::Recv,
    ) -> (res: Self)
        requires
            poller.inv(),
        ensures
            res.is_consistent(),
            res.engine().service == service,
            res.engine().poller == poller,
            res.engine().controller == controller,
            res.engine().ctl_recv == ctl_recv,
            res.engine().waker == waker_recv,
            res.engine().timeouts@ == Set::<u128>::empty(),
            res.listeners() == Map::<u64, H::Listener>::empty(),
            res.transports() == Map::<u64, H::Transport>::empty(),
    {
        Runtime {
            engine: Engine::new(service, poller, controller, ctl_recv, waker_recv),
            listeners: HashMap::new(),
            transports: HashMap::new(),
        }
    }

    /// Accessor for service.
    pub fn service(&mut self) -> (res: &mut H)
        ensures
            *res == old(self).engine().service,
            final(self).engine() == (Engine { service: *final(res), ..old(self).engine() }),
            final(self).listeners() == old(self).listeners(),
            final(self).transports() == old(self).transports(),
            old(self).is_consistent() ==> final(self).is_consistent(),
    {
        &mut self.engine.service
    }

    /// Accessor for timer.
    pub fn timeouts(&mut self) -> (res: &mut Timer)
        ensures
            *res == old(self).engine().timeouts,
            final(self).engine() == (Engine { timeouts: *final(res), ..old(self).engine() }),
            final(self).listeners() == old(self).listeners(),
            final(self).transports() == old(self).transports(),
            old(self).is_consistent() ==> final(self).is_consistent(),
    {
        &mut self.engine.timeouts
    }

    /// Provides a copy of a [`Controller`] object which exposes an API to the reactor and a service
    /// running inside its thread.
    pub fn controller(&self) -> (res: Controller<H::Command, W::Send>)
        ensures
            call_ensures(
                <Controller<H::Command, W::Send> as Clone>::clone,
                (&self.engine().controller,),
                res,
            ),
    {
        self.engine.controller.clone()
    }

    /// Takes a listener out of the reactor.
    ///
    /// # Returns
    ///
    /// `None` if there is no such listener.
    pub fn unregister_listener(&mut self, id: ResourceId) -> (res: Option<H::Listener>)
        requires
            old(self).is_consistent(),
        ensures
            final(self).is_consistent(),
            old(self).polls_resources_only() ==> final(self).polls_resources_only(),
            match res {
                Some(listener) => {
                    &&& old(self).listeners().contains_key(id.0)
                    &&& listener == old(self).listeners()[id.0]
                    &&& final(self).listeners() == old(self).listeners().remove(id.0)
                    &&& final(self).transports() == old(self).transports()
                    &&& final(self).engine() == (Engine {
                        poller: final(self).engine().poller,
                        ..old(self).engine()
                    })
                    &&& old(self).unregisters(*final(self), id)
                },
                None => !old(self).listeners().contains_key(id.0) && *final(self) == *old(self),
            },
    {
        if !self.listeners.contains_key(&id.0) {
            return None;
        }
        let listener = self.listeners.remove(&id.0);
        self.engine.poller.unregister(id);
        proof {
            let before = *old(self);
            if before.polls_resources_only() {
                assert forall|k: u64| #[trigger] self.registered().contains_key(k) implies k
                    == WAKER || self.listeners().contains_key(k) || self.transports().contains_key(
                    k,
                ) by {
                    assert(before.registered().contains_key(k));
                }
            }
        }
        listener
    }

    /// Takes a transport out of the reactor.
    ///
    /// # Returns
    ///
    /// `None` if there is no such transport.
    pub fn unregister_transport(&mut self, id: ResourceId) -> (res: Option<H::Transport>)
        requires
            old(self).is_consistent(),
        ensures
            final(self).is_consistent(),
            old(self).polls_resources_only() ==> final(self).polls_resources_only(),
            match res {
                Some(transport) => {
                    &&& old(self).transports().contains_key(id.0)
                    &&& transport == old(self).transports()[id.0]
                    &&& final(self).listeners() == old(self).listeners()
                    &&& final(self).transports() == old(self).transports().remove(id.0)
                    &&& final(self).engine() == (Engine {
                        poller: final(self).engine().poller,
                        ..old(self).engine()
                    })
                    &&& old(self).unregisters(*final(self), id)
                },
                None => !old(self).transports().contains_key(id.0) && *final(self) == *old(self),
            },
    {
        if !self.transports.contains_key(&id.0) {
            return None;
        }
        let transport = self.transports.remove(&id.0);
        self.engine.poller.unregister(id);
        proof {
            let before = *old(self);
            if before.polls_resources_only() {
                assert forall|k: u64| #[trigger] self.registered().contains_key(k) implies k
                    == WAKER || self.listeners().contains_key(k) || self.transports().contains_key(
                    k,
                ) by {
                    assert(before.registered().contains_key(k));
                }
            }
        }
        transport
    }

    /// Lets a listener handle I/O and passes the event which it may generate to the service.
    pub fn listener_io(&mut self, id: ResourceId, io: Io, time: Timestamp)
        requires
            old(self).is_consistent(),
            old(self).listeners().contains_key(id.0),
        ensures
            final(self).is_consistent(),
            old(self).polls_resources_only() ==> final(self).polls_resources_only(),
            old(self).engine().differs_in_service(final(self).engine()),
            final(self).transports() == old(self).transports(),
            final(self).listeners() == old(self).listeners().insert(
                id.0,
                final(self).listeners()[id.0],
            ),
            exists|listener: &mut H::Listener, event: Option<<H::Listener as Resource>::Event>|
                {
                    &&& *listener == old(self).listeners()[id.0]
                    &&& *final(listener) == final(self).listeners()[id.0]
                    &&& #[trigger] call_ensures(H::Listener::handle_io, (listener, io), event)
                    &&& match event {
                        None => final(self).engine().service == old(self).engine().service,
                        Some(event) => exists|fd: i32, service: &mut H, out: ()|
                            {
                                &&& #[trigger] call_ensures(
                                    H::Listener::as_raw_fd,
                                    (&final(self).listeners()[id.0],),
                                    fd,
                                )
                                &&& *service == old(self).engine().service
                                &&& *final(service) == final(self).engine().service
                                &&& #[trigger] call_ensures(
                                    H::handle_listener_event,
                                    (service, fd, id, event, time),
                                    out,
                                )
                            },
                    }
                },
    {
        if let Some(listener) = self.listeners.remove(&id.0) {
            let mut listener = listener;
            if let Some(event) = listener.handle_io(io) {
                let fd = listener.as_raw_fd();
                self.engine.service.handle_listener_event(fd, id, event, time);
            }
            self.listeners.insert(id.0, listener);
        }
        proof {
            self.lemma_same_numbers(*old(self));
        }
    }

    /// Lets a transport handle I/O and passes the event which it may generate to the service.
    pub fn transport_io(&mut self, id: ResourceId, io: Io, time: Timestamp)
        requires
            old(self).is_consistent(),
            old(self).transports().contains_key(id.0),
        ensures
            final(self).is_consistent(),
            old(self).polls_resources_only() ==> final(self).polls_resources_only(),
            old(self).engine().differs_in_service(final(self).engine()),
            final(self).listeners() == old(self).listeners(),
            final(self).transports() == old(self).transports().insert(
                id.0,
                final(self).transports()[id.0],
            ),
            exists|transport: &mut H::Transport, event: Option<<H::Transport as Resource>::Event>|
                {
                    &&& *transport == old(self).transports()[id.0]
                    &&& *final(transport) == final(self).transports()[id.0]
                    &&& #[trigger] call_ensures(H::Transport::handle_io, (transport, io), event)
                    &&& match event {
                        None => final(self).engine().service == old(self).engine().service,
                        Some(event) => exists|fd: i32, service: &mut H, out: ()|
                            {
                                &&& #[trigger] call_ensures(
                                    H::Transport::as_raw_fd,
                                    (&final(self).transports()[id.0],),
                                    fd,
                                )
                                &&& *service == old(self).engine().service
                                &&& *final(service) == final(self).engine().service
                                &&& #[trigger] call_ensures(
                                    H::handle_transport_event,
                                    (service, fd, id, event, time),
                                    out,
                                )
                            },
                    }
                },
    {
        if let Some(transport) = self.transports.remove(&id.0) {
            let mut transport = transport;
            if let Some(event) = transport.handle_io(io) {
                let fd = transport.as_raw_fd();
                self.engine.service.handle_transport_event(fd, id, event, time);
            }
            self.transports.insert(id.0, transport);
        }
        proof {
            self.lemma_same_numbers(*old(self));
        }
    }

    /// Lets a listener handle each of the I/O events.
    pub fn listener_events(&mut self, id: ResourceId, io: IoType, time: Timestamp)
        requires
            old(self).is_consistent(),
            old(self).listeners().contains_key(id.0),
        ensures
            final(self).is_consistent(),
            old(self).polls_resources_only() ==> final(self).polls_resources_only(),
            old(self).engine().differs_in_service(final(self).engine()),
            final(self).transports() == old(self).transports(),
            final(self).listeners() == old(self).listeners().insert(
                id.0,
                final(self).listeners()[id.0],
            ),
            exists|states: Seq<Self>|
                {
                    &&& #[trigger] states.len() == io.events().len() + 1
                    &&& states.first() == *old(self)
                    &&& states.last() == *final(self)
                    &&& forall|i: int|
                        0 <= i < io.events().len() ==> {
                            &&& (#[trigger] states[i]).listeners().contains_key(id.0)
                            &&& exists|runtime: &mut Self, each: Io, out: ()|
                                {
                                    &&& *runtime == states[i]
                                    &&& *final(runtime) == states[i + 1]
                                    &&& each == io.events()[i]
                                    &&& #[trigger] call_ensures(
                                        Self::listener_io,
                                        (runtime, id, each, time),
                                        out,
                                    )
                                }
                        }
                },
    {
        let mut rest = io;
        let ghost events = io.events();
        let ghost mut states: Seq<Self> = seq![*self];
        loop
            invariant
                self.is_consistent(),
                old(self).polls_resources_only() ==> self.polls_resources_only(),
                old(self).engine().differs_in_service(self.engine()),
                old(self).listeners().contains_key(id.0),
                self.transports() == old(self).transports(),
                self.listeners() =~= old(self).listeners().insert(id.0, self.listeners()[id.0]),
                events == io.events(),
                1 <= states.len() <= events.len() + 1,
                states.first() == *old(self),
                states.last() == *self,
                rest.events() =~= events.skip(states.len() - 1),
                forall|i: int|
                    0 <= i < states.len() - 1 ==> {
                        &&& (#[trigger] states[i]).listeners().contains_key(id.0)
                        &&& exists|runtime: &mut Self, each: Io, out: ()|
                            {
                                &&& *runtime == states[i]
                                &&& *final(runtime) == states[i + 1]
                                &&& each == events[i]
                                &&& #[trigger] call_ensures(
                                    Self::listener_io,
                                    (runtime, id, each, time),
                                    out,
                                )
                            }
                    },
            ensures
                states.len() == events.len() + 1,
            decreases rest.events().len(),
        {
            let ghost before = states;
            let ghost count = states.len() - 1;
            let each = match rest.next() {
                Some(each) => each,
                None => break,
            };
            assert(each == events[count]);
            self.listener_io(id, each, time);
            proof {
                states = states.push(*self);
                assert forall|i: int| 0 <= i < states.len() - 1 implies {
                    &&& (#[trigger] states[i]).listeners().contains_key(id.0)
                    &&& exists|runtime: &mut Self, each: Io, out: ()|
                        {
                            &&& *runtime == states[i]
                            &&& *final(runtime) == states[i + 1]
                            &&& each == events[i]
                            &&& #[trigger] call_ensures(
                                Self::listener_io,
                                (runtime, id, each, time),
                                out,
                            )
                        }
                } by {
                    assert(states[i] == before[i]);
                    if i < count {
                        assert(states[i + 1] == before[i + 1]);
                    } else {
                        assert(states[i + 1] == *self);
                    }
                }
            }
        }
    }

    /// Takes a listener out of the reactor and tells the service that it got disconnected.
    pub fn listener_failed(&mut self, id: ResourceId)
        requires
            old(self).is_consistent(),
            old(self).listeners().contains_key(id.0),
        ensures
            final(self).is_consistent(),
            old(self).polls_resources_only() ==> final(self).polls_resources_only(),
            old(self).unregisters(*final(self), id),
            final(self).transports() == old(self).transports(),
            final(self).listeners() == old(self).listeners().remove(id.0),
            final(self).engine() == (Engine {
                service: final(self).engine().service,
                poller: final(self).engine().poller,
                ..old(self).engine()
            }),
            exists|
                unregistered: &mut Self,
                listener: Option<H::Listener>,
                engine: &mut Engine<H, P, W>,
                out: (),
            |
                {
                    &&& *unregistered == *old(self)
                    &&& #[trigger] call_ensures(
                        Self::unregister_listener,
                        (unregistered, id),
                        listener,
                    )
                    &&& listener == Some(old(self).listeners()[id.0])
                    &&& *engine == final(unregistered).engine()
                    &&& *final(engine) == final(self).engine()
                    &&& #[trigger] call_ensures(
                        Engine::<H, P, W>::report_error,
                        (engine, Error::ListenerDisconnect(id, old(self).listeners()[id.0])),
                        out,
                    )
                },
    {
        if let Some(listener) = self.unregister_listener(id) {
            let ghost between = *self;
            self.engine.report_error(Error::ListenerDisconnect(id, listener));
            proof {
                self.lemma_same_numbers(between);
            }
        }
    }

    /// Lets a transport handle each of the I/O events.
    pub fn transport_events(&mut self, id: ResourceId, io: IoType, time: Timestamp)
        requires
            old(self).is_consistent(),
            old(self).transports().contains_key(id.0),
        ensures
            final(self).is_consistent(),
            old(self).polls_resources_only() ==> final(self).polls_resources_only(),
            old(self).engine().differs_in_service(final(self).engine()),
            final(self).listeners() == old(self).listeners(),
            final(self).transports() == old(self).transports().insert(
                id.0,
                final(self).transports()[id.0],
            ),
            exists|states: Seq<Self>|
                {
                    &&& #[trigger] states.len() == io.events().len() + 1
                    &&& states.first() == *old(self)
                    &&& states.last() == *final(self)
                    &&& forall|i: int|
                        0 <= i < io.events().len() ==> {
                            &&& (#[trigger] states[i]).transports().contains_key(id.0)
                            &&& exists|runtime: &mut Self, each: Io, out: ()|
                                {
                                    &&& *runtime == states[i]
                                    &&& *final(runtime) == states[i + 1]
                                    &&& each == io.events()[i]
                                    &&& #[trigger] call_ensures(
                                        Self::transport_io,
                                        (runtime, id, each, time),
                                        out,
                                    )
                                }
                        }
                },
    {
        let mut rest = io;
        let ghost events = io.events();
        let ghost mut states: Seq<Self> = seq![*self];
        loop
            invariant
                self.is_consistent(),
                old(self).polls_resources_only() ==> self.polls_resources_only(),
                old(self).engine().differs_in_service(self.engine()),
                old(self).transports().contains_key(id.0),
                self.listeners() == old(self).listeners(),
                self.transports() =~= old(self).transports().insert(id.0, self.transports()[id.0]),
                events == io.events(),
                1 <= states.len() <= events.len() + 1,
                states.first() == *old(self),
                states.last() == *self,
                rest.events() =~= events.skip(states.len() - 1),
                forall|i: int|
                    0 <= i < states.len() - 1 ==> {
                        &&& (#[trigger] states[i]).transports().contains_key(id.0)
                        &&& exists|runtime: &mut Self, each: Io, out: ()|
                            {
                                &&& *runtime == states[i]
                                &&& *final(runtime) == states[i + 1]
                                &&& each == events[i]
                                &&& #[trigger] call_ensures(
                                    Self::transport_io,
                                    (runtime, id, each, time),
                                    out,
                                )
                            }
                    },
            ensures
                states.len() == events.len() + 1,
            decreases rest.events().len(),
        {
            let ghost before = states;
            let ghost count = states.len() - 1;
            let each = match rest.next() {
                Some(each) => each,
                None => break,
            };
            assert(each == events[count]);
            self.transport_io(id, each, time);
            proof {
                states = states.push(*self);
                assert forall|i: int| 0 <= i < states.len() - 1 implies {
                    &&& (#[trigger] states[i]).transports().contains_key(id.0)
                    &&& exists|runtime: &mut Self, each: Io, out: ()|
                        {
                            &&& *runtime == states[i]
                            &&& *final(runtime) == states[i + 1]
                            &&& each == events[i]
                            &&& #[trigger] call_ensures(
                                Self::transport_io,
                                (runtime, id, each, time),
                                out,
                            )
                        }
                } by {
                    assert(states[i] == before[i]);
                    if i < count {
                        assert(states[i + 1] == before[i + 1]);
                    } else {
                        assert(states[i + 1] == *self);
                    }
                }
            }
        }
    }

    /// Takes a transport out of the reactor and tells the service that it got disconnected.
    pub fn transport_failed(&mut self, id: ResourceId)
        requires
            old(self).is_consistent(),
            old(self).transports().contains_key(id.0),
        ensures
            final(self).is_consistent(),
            old(self).polls_resources_only() ==> final(self).polls_resources_only(),
            old(self).unregisters(*final(self), id),
            final(self).listeners() == old(self).listeners(),
            final(self).transports() == old(self).transports().remove(id.0),
            final(self).engine() == (Engine {
                service: final(self).engine().service,
                poller: final(self).engine().poller,
                ..old(self).engine()
            }),
            exists|
                unregistered: &mut Self,
                transport: Option<H::Transport>,
                engine: &mut Engine<H, P, W>,
                out: (),
            |
                {
                    &&& *unregistered == *old(self)
                    &&& #[trigger] call_ensures(
                        Self::unregister_transport,
                        (unregistered, id),
                        transport,
                    )
                    &&& transport == Some(old(self).transports()[id.0])
                    &&& *engine == final(unregistered).engine()
                    &&& *final(engine) == final(self).engine()
                    &&& #[trigger] call_ensures(
                        Engine::<H, P, W>::report_error,
                        (engine, Error::TransportDisconnect(id, old(self).transports()[id.0])),
                        out,
                    )
                },
    {
        if let Some(transport) = self.unregister_transport(id) {
            let ghost between = *self;
            self.engine.report_error(Error::TransportDisconnect(id, transport));
            proof {
                self.lemma_same_numbers(between);
            }
        }
    }

    /// Reads the next event of the poll.
    pub fn next_event(&mut self) -> (res: Option<(ResourceId, Result<IoType, IoFail>)>)
        requires
            old(self).is_consistent(),
        ensures
            final(self).is_consistent(),
            old(self).polls_resources_only() ==> final(self).polls_resources_only(),
            old(self).same_resources(*final(self)),
            old(self).same_registrations(*final(self)),
            final(self).engine().service == old(self).engine().service,
            match res {
                Some(event) => {
                    &&& old(self).pending().len() > 0
                    &&& event == old(self).pending()[0]
                    &&& final(self).pending() == old(self).pending().drop_first()
                },
                None => old(self).pending().len() == 0 && final(self).pending().len() == 0,
            },
    {
        let res = self.engine.poller.next();
        proof {
            self.lemma_same_numbers(*old(self));
        }
        res
    }

    /// Puts a listener into the reactor.
    ///
    /// # Returns
    ///
    /// File descriptor of the listener and the number which is given to it.
    pub fn add_listener(&mut self, listener: H::Listener) -> (res: (i32, ResourceId))
        requires
            old(self).is_consistent(),
            old(self).engine().poller.has_room(),
        ensures
            final(self).is_consistent(),
            old(self).polls_resources_only() ==> final(self).polls_resources_only(),
            call_ensures(H::Listener::as_raw_fd, (&listener,), res.0),
            old(self).registers(*final(self), res.1, res.0),
            final(self).transports() == old(self).transports(),
            final(self).listeners() == old(self).listeners().insert(res.1.0, listener),
            final(self).engine() == (Engine {
                poller: final(self).engine().poller,
                ..old(self).engine()
            }),
    {
        let fd = listener.as_raw_fd();
        let id = self.engine.poller.register(fd, IoType::read_only());
        self.listeners.insert(id.0, listener);
        proof {
            let before = *old(self);
            assert(before.registers(*self, id, fd));
            if before.polls_resources_only() {
                assert forall|k: u64| #[trigger] self.registered().contains_key(k) implies k
                    == WAKER || self.listeners().contains_key(k) || self.transports().contains_key(
                    k,
                ) by {
                    assert(k == id.0 || before.registered().contains_key(k));
                }
            }
        }
        (fd, id)
    }

    /// Registers a listener and tells the service about it.
    ///
    /// The reactor can't go on once all the numbers for resources are used up.
    pub fn register_listener(&mut self, listener: H::Listener) -> (res: Outcome<
        Error<H::Listener, H::Transport>,
    >)
        requires
            old(self).is_consistent(),
        ensures
            final(self).is_consistent(),
            old(self).polls_resources_only() ==> final(self).polls_resources_only(),
            final(self).pending() == old(self).pending(),
            if old(self).engine().poller.has_room() {
                &&& res == Outcome::<Error<H::Listener, H::Transport>>::Proceed(true)
                &&& final(self).transports() == old(self).transports()
                &&& final(self).engine() == Engine {
                    service: final(self).engine().service,
                    poller: final(self).engine().poller,
                    ..old(self).engine()
                }
                &&& exists|
                    added: &mut Self,
                    place: (i32, ResourceId),
                    service: &mut H,
                    out: (),
                |
                    {
                        &&& *added == *old(self)
                        &&& #[trigger] call_ensures(Self::add_listener, (added, listener), place)
                        &&& final(self).listeners() == final(added).listeners()
                        &&& final(added).engine().differs_in_service(final(self).engine())
                        &&& *service == final(added).engine().service
                        &&& *final(service) == final(self).engine().service
                        &&& #[trigger] call_ensures(
                            H::handle_registered,
                            (service, place.0, place.1, ResourceType::Listener),
                            out,
                        )
                    }
            } else {
                &&& res == Outcome::<Error<H::Listener, H::Transport>>::Broken(
                    Failure::ResourceOverflow,
                )
                &&& *final(self) == *old(self)
            },
    {
        if !self.engine.poller.can_register() {
            return Outcome::Broken(Failure::ResourceOverflow);
        }
        let (fd, id) = self.add_listener(listener);
        let ghost between = *self;
        self.engine.service.handle_registered(fd, id, ResourceType::Listener);
        proof {
            self.lemma_same_numbers(between);
        }
        Outcome::Proceed(true)
    }

    /// Passes a listener which is not in the reactor any more to the service.
    pub fn pass_listener(&mut self, id: ResourceId, listener: H::Listener)
        requires
            old(self).is_consistent(),
        ensures
            final(self).is_consistent(),
            old(self).polls_resources_only() ==> final(self).polls_resources_only(),
            final(self).transports() == old(self).transports(),
            final(self).listeners() == old(self).listeners(),
            old(self).engine().differs_in_service(final(self).engine()),
            exists|service: &mut H, out: ()|
                {
                    &&& *service == old(self).engine().service
                    &&& *final(service) == final(self).engine().service
                    &&& #[trigger] call_ensures(H::handover_listener, (service, id, listener), out)
                },
    {
        self.engine.service.handover_listener(id, listener);
        proof {
            self.lemma_same_numbers(*old(self));
        }
    }

    /// Takes a listener out of the reactor and hands it over to the service, unless there is no
    /// such listener.
    pub fn handover_listener(&mut self, id: ResourceId) -> (res: Outcome<
        Error<H::Listener, H::Transport>,
    >)
        requires
            old(self).is_consistent(),
        ensures
            final(self).is_consistent(),
            old(self).polls_resources_only() ==> final(self).polls_resources_only(),
            res == Outcome::<Error<H::Listener, H::Transport>>::Proceed(true),
            if old(self).listeners().contains_key(id.0) {
                &&& old(self).unregisters(*final(self), id)
                &&& final(self).transports() == old(self).transports()
                &&& final(self).listeners() == old(self).listeners().remove(id.0)
                &&& final(self).engine() == Engine {
                    service: final(self).engine().service,
                    poller: final(self).engine().poller,
                    ..old(self).engine()
                }
                &&& exists|
                    unregistered: &mut Self,
                    listener: Option<H::Listener>,
                    passed: &mut Self,
                    out: (),
                |
                    {
                        &&& *unregistered == *old(self)
                        &&& #[trigger] call_ensures(
                            Self::unregister_listener,
                            (unregistered, id),
                            listener,
                        )
                        &&& listener == Some(old(self).listeners()[id.0])
                        &&& *passed == *final(unregistered)
                        &&& *final(passed) == *final(self)
                        &&& #[trigger] call_ensures(
                            Self::pass_listener,
                            (passed, id, old(self).listeners()[id.0]),
                            out,
                        )
                    }
            } else {
                *final(self) == *old(self)
            },
    {
        if let Some(listener) = self.unregister_listener(id) {
            self.pass_listener(id, listener);
        }
        Outcome::Proceed(true)
    }

    /// Puts a transport into the reactor.
    ///
    /// # Returns
    ///
    /// File descriptor of the transport and the number which is given to it.
    pub fn add_transport(&mut self, transport: H::Transport) -> (res: (i32, ResourceId))
        requires
            old(self).is_consistent(),
            old(self).engine().poller.has_room(),
        ensures
            final(self).is_consistent(),
            old(self).polls_resources_only() ==> final(self).polls_resources_only(),
            call_ensures(H::Transport::as_raw_fd, (&transport,), res.0),
            old(self).registers(*final(self), res.1, res.0),
            final(self).listeners() == old(self).listeners(),
            final(self).transports() == old(self).transports().insert(res.1.0, transport),
            final(self).engine() == (Engine {
                poller: final(self).engine().poller,
                ..old(self).engine()
            }),
    {
        let fd = transport.as_raw_fd();
        let id = self.engine.poller.register(fd, IoType::read_only());
        self.transports.insert(id.0, transport);
        proof {
            let before = *old(self);
            assert(before.registers(*self, id, fd));
            if before.polls_resources_only() {
                assert forall|k: u64| #[trigger] self.registered().contains_key(k) implies k
                    == WAKER || self.listeners().contains_key(k) || self.transports().contains_key(
                    k,
                ) by {
                    assert(k == id.0 || before.registered().contains_key(k));
                }
            }
        }
        (fd, id)
    }

    /// Registers a transport and tells the service about it.
    ///
    /// The reactor can't go on once all the numbers for resources are used up.
    pub fn register_transport(&mut self, transport: H::Transport) -> (res: Outcome<
        Error<H::Listener, H::Transport>,
    >)
        requires
            old(self).is_consistent(),
        ensures
            final(self).is_consistent(),
            old(self).polls_resources_only() ==> final(self).polls_resources_only(),
            final(self).pending() == old(self).pending(),
            if old(self).engine().poller.has_room() {
                &&& res == Outcome::<Error<H::Listener, H::Transport>>::Proceed(true)
                &&& final(self).listeners() == old(self).listeners()
                &&& final(self).engine() == Engine {
                    service: final(self).engine().service,
                    poller: final(self).engine().poller,
                    ..old(self).engine()
                }
                &&& exists|
                    added: &mut Self,
                    place: (i32, ResourceId),
                    service: &mut H,
                    out: (),
                |
                    {
                        &&& *added == *old(self)
                        &&& #[trigger] call_ensures(Self::add_transport, (added, transport), place)
                        &&& final(self).transports() == final(added).transports()
                        &&& final(added).engine().differs_in_service(final(self).engine())
                        &&& *service == final(added).engine().service
                        &&& *final(service) == final(self).engine().service
                        &&& #[trigger] call_ensures(
                            H::handle_registered,
                            (service, place.0, place.1, ResourceType::Transport),
                            out,
                        )
                    }
            } else {
                &&& res == Outcome::<Error<H::Listener, H::Transport>>::Broken(
                    Failure::ResourceOverflow,
                )
                &&& *final(self) == *old(self)
            },
    {
        if !self.engine.poller.can_register() {
            return Outcome::Broken(Failure::ResourceOverflow);
        }
        let (fd, id) = self.add_transport(transport);
        let ghost between = *self;
        self.engine.service.handle_registered(fd, id, ResourceType::Transport);
        proof {
            self.lemma_same_numbers(between);
        }
        Outcome::Proceed(true)
    }

    /// Passes a transport which is not in the reactor any more to the service.
    pub fn pass_transport(&mut self, id: ResourceId, transport: H::Transport)
        requires
            old(self).is_consistent(),
        ensures
            final(self).is_consistent(),
            old(self).polls_resources_only() ==> final(self).polls_resources_only(),
            final(self).listeners() == old(self).listeners(),
            final(self).transports() == old(self).transports(),
            old(self).engine().differs_in_service(final(self).engine()),
            exists|service: &mut H, out: ()|
                {
                    &&& *service == old(self).engine().service
                    &&& *final(service) == final(self).engine().service
                    &&& #[trigger] call_ensures(
                        H::handover_transport,
                        (service, id, transport),
                        out,
                    )
                },
    {
        self.engine.service.handover_transport(id, transport);
        proof {
            self.lemma_same_numbers(*old(self));
        }
    }

    /// Takes a transport out of the reactor and hands it over to the service, unless there is no
    /// such transport.
    pub fn handover_transport(&mut self, id: ResourceId) -> (res: Outcome<
        Error<H::Listener, H::Transport>,
    >)
        requires
            old(self).is_consistent(),
        ensures
            final(self).is_consistent(),
            old(self).polls_resources_only() ==> final(self).polls_resources_only(),
            res == Outcome::<Error<H::Listener, H::Transport>>::Proceed(true),
            if old(self).transports().contains_key(id.0) {
                &&& old(self).unregisters(*final(self), id)
                &&& final(self).listeners() == old(self).listeners()
                &&& final(self).transports() == old(self).transports().remove(id.0)
                &&& final(self).engine() == Engine {
                    service: final(self).engine().service,
                    poller: final(self).engine().poller,
                    ..old(self).engine()
                }
                &&& exists|
                    unregistered: &mut Self,
                    transport: Option<H::Transport>,
                    passed: &mut Self,
                    out: (),
                |
                    {
                        &&& *unregistered == *old(self)
                        &&& #[trigger] call_ensures(
                            Self::unregister_transport,
                            (unregistered, id),
                            transport,
                        )
                        &&& transport == Some(old(self).transports()[id.0])
                        &&& *passed == *final(unregistered)
                        &&& *final(passed) == *final(self)
                        &&& #[trigger] call_ensures(
                            Self::pass_transport,
                            (passed, id, old(self).transports()[id.0]),
                            out,
                        )
                    }
            } else {
                *final(self) == *old(self)
            },
    {
        if let Some(transport) = self.unregister_transport(id) {
            self.pass_transport(id, transport);
        }
        Outcome::Proceed(true)
    }

    /// Writes the data to a transport, unless there is no such transport.
    ///
    /// A transport which fails to accept the data is taken out of the reactor. The reactor can't go
    /// on if the transport is read-only or not ready for a write operation: that is a bug in the
    /// service.
    pub fn send(&mut self, id: ResourceId, data: Vec<u8>) -> (res: Outcome<
        Error<H::Listener, H::Transport>,
    >)
        requires
            old(self).is_consistent(),
        ensures
            final(self).is_consistent(),
            old(self).polls_resources_only() ==> final(self).polls_resources_only(),
            if old(self).transports().contains_key(id.0) {
                &&& final(self).listeners() == old(self).listeners()
                &&& final(self).engine() == Engine {
                    poller: final(self).engine().poller,
                    ..old(self).engine()
                }
                &&& exists|
                    transport: &mut H::Transport,
                    buf: &[u8],
                    written: Result<(), WriteError>,
                |
                    {
                        &&& *transport == old(self).transports()[id.0]
                        &&& buf@ == data@
                        &&& #[trigger] call_ensures(
                            H::Transport::write_atomic,
                            (transport, buf),
                            written,
                        )
                        &&& match written {
                            Err(WriteError::Io(_)) => {
                                &&& res == Outcome::<Error<H::Listener, H::Transport>>::Failed(
                                    Error::TransportDisconnect(id, *final(transport)),
                                )
                                &&& final(self).transports() == old(self).transports().remove(id.0)
                                &&& old(self).unregisters(*final(self), id)
                            },
                            _ => {
                                &&& res == if written is Ok {
                                    Outcome::<Error<H::Listener, H::Transport>>::Proceed(true)
                                } else {
                                    Outcome::<Error<H::Listener, H::Transport>>::Broken(
                                        Failure::NotReady(id),
                                    )
                                }
                                &&& final(self).transports() == old(self).transports().insert(
                                    id.0,
                                    *final(transport),
                                )
                                &&& final(self).engine() == old(self).engine()
                            },
                        }
                    }
            } else {
                &&& res == Outcome::<Error<H::Listener, H::Transport>>::Proceed(true)
                &&& *final(self) == *old(self)
            },
    {
        if !self.transports.contains_key(&id.0) {
            return Outcome::Proceed(true);
        }
        let mut written = Ok(());
        if let Some(transport) = self.transports.remove(&id.0) {
            let mut transport = transport;
            written = transport.write_atomic(data.as_slice());
            self.transports.insert(id.0, transport);
        }
        proof {
            self.lemma_same_numbers(*old(self));
        }
        match written {
            Err(WriteError::NotReady) => Outcome::Broken(Failure::NotReady(id)),
            Err(WriteError::Io(_)) => match self.unregister_transport(id) {
                Some(transport) => Outcome::Failed(Error::TransportDisconnect(id, transport)),
                None => Outcome::Proceed(true),
            },
            Ok(_) => Outcome::Proceed(true),
        }
    }

    /// Sets a new timer for a given duration from the moment `time`.
    ///
    /// The reactor can't go on if the timer is to fire at a moment which is out of range.
    pub fn set_timer(&mut self, duration: Duration, time: Timestamp) -> (res: Outcome<
        Error<H::Listener, H::Transport>,
    >)
        requires
            old(self).is_consistent(),
        ensures
            final(self).is_consistent(),
            old(self).polls_resources_only() ==> final(self).polls_resources_only(),
            ({
                let moment = time.0 + duration@ / NANOS_PER_MILLI as nat;
                if moment <= u128::MAX {
                    &&& res == Outcome::<Error<H::Listener, H::Transport>>::Proceed(true)
                    &&& final(self).listeners() == old(self).listeners()
                    &&& final(self).transports() == old(self).transports()
                    &&& final(self).engine() == Engine {
                        timeouts: final(self).engine().timeouts,
                        ..old(self).engine()
                    }
                    &&& final(self).engine().timeouts@ == old(self).engine().timeouts@.insert(
                        moment as u128,
                    )
                } else {
                    &&& res == Outcome::<Error<H::Listener, H::Transport>>::Broken(
                        Failure::TimeOverflow,
                    )
                    &&& *final(self) == *old(self)
                }
            }),
    {
        if time.0 > u128::MAX - duration.as_millis() {
            return Outcome::Broken(Failure::TimeOverflow);
        }
        self.engine.timeouts.set_timeout(duration, time);
        proof {
            self.lemma_same_numbers(*old(self));
        }
        Outcome::Proceed(true)
    }

    /// Handles an action of the service.
    ///
    /// The reactor can't go on after [`Action::Send`] for read-only resources or resources which
    /// are not ready for a write operation (i.e. returning `false` from
    /// [`WriteAtomic::is_ready_to_write`] implementation).
    pub fn handle_action(
        &mut self,
        action: Action<H::Listener, H::Transport>,
        time: Timestamp,
    ) -> (res: Outcome<Error<H::Listener, H::Transport>>)
        requires
            old(self).is_consistent(),
        ensures
            final(self).is_consistent(),
            old(self).polls_resources_only() ==> final(self).polls_resources_only(),
            final(self).pending() == old(self).pending(),
            old(self).engine().poller.given().subset_of(final(self).engine().poller.given()),
            match action {
                Action::RegisterListener(listener) => exists|runtime: &mut Self|
                    {
                        &&& *runtime == *old(self)
                        &&& *final(runtime) == *final(self)
                        &&& #[trigger] call_ensures(
                            Self::register_listener,
                            (runtime, listener),
                            res,
                        )
                    },
                Action::RegisterTransport(transport) => exists|runtime: &mut Self|
                    {
                        &&& *runtime == *old(self)
                        &&& *final(runtime) == *final(self)
                        &&& #[trigger] call_ensures(
                            Self::register_transport,
                            (runtime, transport),
                            res,
                        )
                    },
                Action::UnregisterListener(id) => exists|runtime: &mut Self|
                    {
                        &&& *runtime == *old(self)
                        &&& *final(runtime) == *final(self)
                        &&& #[trigger] call_ensures(Self::handover_listener, (runtime, id), res)
                    },
                Action::UnregisterTransport(id) => exists|runtime: &mut Self|
                    {
                        &&& *runtime == *old(self)
                        &&& *final(runtime) == *final(self)
                        &&& #[trigger] call_ensures(Self::handover_transport, (runtime, id), res)
                    },
                Action::Send(id, data) => exists|runtime: &mut Self|
                    {
                        &&& *runtime == *old(self)
                        &&& *final(runtime) == *final(self)
                        &&& #[trigger] call_ensures(Self::send, (runtime, id, data), res)
                    },
                Action::SetTimer(duration) => exists|runtime: &mut Self|
                    {
                        &&& *runtime == *old(self)
                        &&& *final(runtime) == *final(self)
                        &&& #[trigger] call_ensures(Self::set_timer, (runtime, duration, time), res)
                    },
                Action::Terminate => {
                    &&& res == Outcome::<Error<H::Listener, H::Transport>>::Proceed(false)
                    &&& *final(self) == *old(self)
                },
            },
    {
        match action {
            Action::RegisterListener(listener) => self.register_listener(listener),
            Action::RegisterTransport(transport) => self.register_transport(transport),
            Action::UnregisterListener(id) => self.handover_listener(id),
            Action::UnregisterTransport(id) => self.handover_transport(id),
            Action::Send(id, data) => self.send(id, data),
            Action::SetTimer(duration) => self.set_timer(duration, time),
            Action::Terminate => Outcome::Proceed(false),
        }
    }

    /// Every event of a polled resource can be handled: the only polled resource which is not known
    /// is the waker.
    pub proof fn law_polled_resources_are_known(self, id: u64)
        requires
            self.is_consistent(),
            self.polls_resources_only(),
        ensures
            self.registered().contains_key(id) && id != WAKER ==> self.knows(id),
            self.knows(id) ==> self.registered().contains_key(id) && id != WAKER,
    {
    }

    /// The events of polled resources can always be handled, unless the poll of the waker has
    /// failed.
    pub proof fn law_polled_events_are_handled(
        self,
        events: Seq<(ResourceId, Result<IoType, IoFail>)>,
        i: int,
    )
        requires
            self.is_consistent(),
            self.polls_resources_only(),
            0 <= i < events.len(),
            self.registered().contains_key(events[i].0.0),
        ensures
            handling(events[i], self.knows(events[i].0.0)) is Broken <==> events[i].0.0 == WAKER
                && events[i].1 is Err,
    {
    }

    /// A number which was given to a resource is never given to another one, even when the resource
    /// is not in the reactor any more.
    pub proof fn law_numbers_are_never_reused(
        before: Self,
        between: Self,
        later: Self,
        after: Self,
        id: ResourceId,
        fd: i32,
        other_id: ResourceId,
        other_fd: i32,
    )
        requires
            before.registers(between, id, fd),
            between.engine().poller.given().subset_of(later.engine().poller.given()),
            later.registers(after, other_id, other_fd),
        ensures
            other_id != id,
            before.engine().poller.given().subset_of(between.engine().poller.given()),
    {
        assert(between.engine().poller.given().contains(id.0));
    }

    /// Unregistering a listener undoes its registration and gives the same listener back.
    pub proof fn law_listener_comes_back(
        before: Self,
        between: Self,
        after: Self,
        id: ResourceId,
        fd: i32,
        listener: H::Listener,
    )
        requires
            before.is_consistent(),
            before.registers(between, id, fd),
            between.listeners() == before.listeners().insert(id.0, listener),
            between.unregisters(after, id),
            after.listeners() == between.listeners().remove(id.0),
        ensures
            between.listeners()[id.0] == listener,
            after.listeners() == before.listeners(),
            after.registered() == before.registered(),
            after.pending() == before.pending(),
    {
        assert(!before.listeners().contains_key(id.0));
        assert(after.listeners() =~= before.listeners());
        assert(after.registered() =~= before.registered());
    }

    /// Unregistering a transport undoes its registration and gives the same transport back.
    pub proof fn law_transport_comes_back(
        before: Self,
        between: Self,
        after: Self,
        id: ResourceId,
        fd: i32,
        transport: H::Transport,
    )
        requires
            before.is_consistent(),
            before.registers(between, id, fd),
            between.transports() == before.transports().insert(id.0, transport),
            between.unregisters(after, id),
            after.transports() == between.transports().remove(id.0),
        ensures
            between.transports()[id.0] == transport,
            after.transports() == before.transports(),
            after.registered() == before.registered(),
            after.pending() == before.pending(),
    {
        assert(!before.transports().contains_key(id.0));
        assert(after.transports() =~= before.transports());
        assert(after.registered() =~= before.registered());
    }

    proof fn lemma_same_numbers(self, before: Self)
        requires
            before.is_consistent(),
            self.engine().poller.inv(),
            self.registered().dom() =~= before.registered().dom(),
            self.listeners().dom() =~= before.listeners().dom(),
            self.transports().dom() =~= before.transports().dom(),
        ensures
            self.is_consistent(),
            before.polls_resources_only() ==> self.polls_resources_only(),
    {
        assert forall|id: u64| #[trigger] self.listeners().contains_key(id) implies
            self.registered().contains_key(id) && !self.transports().contains_key(id) by {
            assert(before.listeners().contains_key(id));
            assert(before.registered().dom().contains(id));
            assert(before.transports().dom().contains(id) == self.transports().dom().contains(id));
        }
        assert forall|id: u64| #[trigger] self.transports().contains_key(id) implies
            self.registered().contains_key(id) by {
            assert(before.transports().contains_key(id));
            assert(before.registered().dom().contains(id));
        }
        if before.polls_resources_only() {
            assert forall|id: u64| #[trigger] self.registered().contains_key(id) implies id == WAKER
                || self.listeners().contains_key(id) || self.transports().contains_key(id) by {
                assert(before.registered().contains_key(id));
                assert(before.listeners().dom().contains(id) == self.listeners().dom().contains(
                    id,
                ));
                assert(before.transports().dom().contains(id) == self.transports().dom().contains(
                    id,
                ));
            }
        }
    }
}

impl<H: Handler, P: Poll, W: Waker> ReactorRuntime<P> for Runtime<H, P, W> {
    open spec fn inv(&self) -> bool {
        self.is_consistent()
    }

    open spec fn polls_with(&self) -> P {
        self.engine().poller
    }

    open spec fn knows(&self, id: u64) -> bool {
        self.listeners().contains_key(id) || self.transports().contains_key(id)
    }

    fn poller(&mut self) -> (res: &mut P)
        ensures
            final(self).listeners() == old(self).listeners(),
            final(self).transports() == old(self).transports(),
            final(self).engine() == (Engine { poller: *final(res), ..old(self).engine() }),
    {
        &mut self.engine.poller
    }

    fn prepare_poll(&mut self, time: Timestamp) -> (res: Option<Duration>)
        ensures
            old(self).polls_resources_only() ==> final(self).polls_resources_only(),
            old(self).same_resources(*final(self)),
            final(self).engine().service == old(self).engine().service,
            final(self).engine().poller.given() == old(self).engine().poller.given(),
            final(self).engine().poller.has_room() == old(self).engine().poller.has_room(),
            res is Some <==> can_wait(old(self).engine().timeouts@, time),
            match res {
                None => *final(self) == *old(self),
                Some(timeout) => {
                    &&& is_poll_timeout(
                        old(self).engine().timeouts@,
                        time,
                        (WAIT_TIMEOUT * NANOS_PER_SEC) as nat,
                        timeout,
                    )
                    &&& final(self).registered().dom() == old(self).registered().dom()
                    &&& forall|id: u64|
                        old(self).registered().contains_key(id) ==> {
                            let was = old(self).registered()[id];
                            let is = #[trigger] final(self).registered()[id];
                            &&& is.0 == was.0
                            &&& if old(self).listeners().contains_key(id) {
                                call_ensures(
                                    H::Listener::interests,
                                    (&old(self).listeners()[id],),
                                    is.1,
                                )
                            } else if old(self).transports().contains_key(id) {
                                call_ensures(
                                    H::Transport::interests,
                                    (&old(self).transports()[id],),
                                    is.1,
                                )
                            } else {
                                is.1 == was.1
                            }
                        }
                },
            },
    {
        let timeout = match poll_timeout(
            &self.engine.timeouts,
            time,
            Duration::from_secs(WAIT_TIMEOUT),
        ) {
            Some(timeout) => timeout,
            None => return None,
        };
        set_interests(&self.listeners, &mut self.engine.poller);
        let ghost between = *self;
        set_interests(&self.transports, &mut self.engine.poller);
        proof {
            let before = *old(self);
            assert(interests_updated(
                before.listeners(),
                before.registered(),
                between.registered(),
            ));
            assert forall|id: u64| before.registered().contains_key(id) implies ({
                let was = before.registered()[id];
                let is = #[trigger] self.registered()[id];
                &&& is.0 == was.0
                &&& if before.listeners().contains_key(id) {
                    call_ensures(H::Listener::interests, (&before.listeners()[id],), is.1)
                } else if before.transports().contains_key(id) {
                    call_ensures(H::Transport::interests, (&before.transports()[id],), is.1)
                } else {
                    is.1 == was.1
                }
            }) by {
                assert(between.registered().contains_key(id));
                assert(between.registered()[id].0 == before.registered()[id].0);
            }
        }
        Some(timeout)
    }

    fn finish_poll(&mut self, now: Timestamp, res: Result<usize, IoError>) -> (fired: usize)
        ensures
            old(self).polls_resources_only() ==> final(self).polls_resources_only(),
            final(self).listeners() == old(self).listeners(),
            final(self).transports() == old(self).transports(),
            exists|engine: &mut Engine<H, P, W>|
                {
                    &&& *engine == old(self).engine()
                    &&& *final(engine) == final(self).engine()
                    &&& #[trigger] call_ensures(
                        Engine::<H, P, W>::finish_poll,
                        (engine, now, res),
                        fired,
                    )
                },
    {
        let fired = self.engine.finish_poll(now, res);
        proof {
            self.lemma_same_numbers(*old(self));
        }
        fired
    }

    fn handle_event(&mut self, time: Timestamp) -> (res: Handled)
        ensures
            old(self).polls_resources_only() ==> final(self).polls_resources_only(),
            exists|read: &mut Self, event: Option<(ResourceId, Result<IoType, IoFail>)>|
                {
                    &&& *read == *old(self)
                    &&& #[trigger] call_ensures(Self::next_event, (read,), event)
                    &&& match event {
                        None => *final(read) == *final(self),
                        Some((id, result)) => if id.0 == WAKER {
                            match result {
                                Ok(_) => {
                                    &&& final(self).listeners() == old(self).listeners()
                                    &&& final(self).transports() == old(self).transports()
                                    &&& exists|waker: &mut W::Recv, out: ()|
                                        {
                                            &&& *waker == old(self).engine().waker
                                            &&& final(self).engine() == Engine {
                                                waker: *final(waker),
                                                ..final(read).engine()
                                            }
                                            &&& #[trigger] call_ensures(
                                                W::Recv::reset,
                                                (waker,),
                                                out,
                                            )
                                        }
                                },
                                Err(_) => *final(read) == *final(self),
                            }
                        } else if old(self).listeners().contains_key(id.0) {
                            match result {
                                Ok(io) => exists|runtime: &mut Self, out: ()|
                                    {
                                        &&& *runtime == *final(read)
                                        &&& *final(runtime) == *final(self)
                                        &&& #[trigger] call_ensures(
                                            Self::listener_events,
                                            (runtime, id, io, time),
                                            out,
                                        )
                                    },
                                Err(_) => exists|runtime: &mut Self, out: ()|
                                    {
                                        &&& *runtime == *final(read)
                                        &&& *final(runtime) == *final(self)
                                        &&& #[trigger] call_ensures(
                                            Self::listener_failed,
                                            (runtime, id),
                                            out,
                                        )
                                    },
                            }
                        } else if old(self).transports().contains_key(id.0) {
                            match result {
                                Ok(io) => exists|runtime: &mut Self, out: ()|
                                    {
                                        &&& *runtime == *final(read)
                                        &&& *final(runtime) == *final(self)
                                        &&& #[trigger] call_ensures(
                                            Self::transport_events,
                                            (runtime, id, io, time),
                                            out,
                                        )
                                    },
                                Err(_) => exists|runtime: &mut Self, out: ()|
                                    {
                                        &&& *runtime == *final(read)
                                        &&& *final(runtime) == *final(self)
                                        &&& #[trigger] call_ensures(
                                            Self::transport_failed,
                                            (runtime, id),
                                            out,
                                        )
                                    },
                            }
                        } else {
                            *final(read) == *final(self)
                        },
                    }
                },
    {
        let (id, res) = match self.next_event() {
            Some(event) => event,
            None => return Handled::Drained,
        };
        if id.is_waker() {
            match res {
                Ok(_) => {
                    let ghost between = *self;
                    self.engine.waker.reset();
                    proof {
                        self.lemma_same_numbers(between);
                    }
                    Handled::Awoken
                },
                Err(fail) => Handled::Broken(Failure::Waker(fail)),
            }
        } else if self.listeners.contains_key(&id.0) {
            match res {
                Ok(io) => self.listener_events(id, io, time),
                Err(_) => self.listener_failed(id),
            }
            Handled::Dispatched
        } else if self.transports.contains_key(&id.0) {
            match res {
                Ok(io) => self.transport_events(id, io, time),
                Err(_) => self.transport_failed(id),
            }
            Handled::Dispatched
        } else {
            Handled::Broken(Failure::UnknownResource(id))
        }
    }

    fn receive_command(&mut self) -> (res: Received)
        ensures
            old(self).polls_resources_only() ==> final(self).polls_resources_only(),
            final(self).listeners() == old(self).listeners(),
            final(self).transports() == old(self).transports(),
            exists|engine: &mut Engine<H, P, W>|
                {
                    &&& *engine == old(self).engine()
                    &&& *final(engine) == final(self).engine()
                    &&& #[trigger] call_ensures(
                        Engine::<H, P, W>::receive_command,
                        (engine,),
                        res,
                    )
                },
    {
        let res = self.engine.receive_command();
        proof {
            self.lemma_same_numbers(*old(self));
        }
        res
    }

    fn handle_next_action(&mut self, time: Timestamp) -> (res: Performed)
        ensures
            old(self).polls_resources_only() ==> final(self).polls_resources_only(),
            exists|
                read: &mut Engine<H, P, W>,
                action: Option<Action<H::Listener, H::Transport>>,
            |
                {
                    &&& *read == old(self).engine()
                    &&& #[trigger] call_ensures(Engine::<H, P, W>::next_action, (read,), action)
                    &&& match action {
                        None => {
                            &&& res is Drained
                            &&& final(self).engine() == *final(read)
                            &&& final(self).listeners() == old(self).listeners()
                            &&& final(self).transports() == old(self).transports()
                        },
                        Some(action) => exists|
                            runtime: &mut Self,
                            outcome: Outcome<Error<H::Listener, H::Transport>>,
                        |
                            {
                                &&& runtime.engine() == *final(read)
                                &&& runtime.listeners() == old(self).listeners()
                                &&& runtime.transports() == old(self).transports()
                                &&& #[trigger] call_ensures(
                                    Self::handle_action,
                                    (runtime, action, time),
                                    outcome,
                                )
                                &&& match outcome {
                                    Outcome::Proceed(proceed) => {
                                        &&& res == Performed::Proceed(proceed)
                                        &&& *final(runtime) == *final(self)
                                    },
                                    Outcome::Broken(failure) => {
                                        &&& res == Performed::Broken(failure)
                                        &&& *final(runtime) == *final(self)
                                    },
                                    Outcome::Failed(err) => {
                                        &&& res is Failed
                                        &&& final(self).listeners() == final(runtime).listeners()
                                        &&& final(self).transports() == final(runtime).transports()
                                        &&& exists|engine: &mut Engine<H, P, W>, out: ()|
                                            {
                                                &&& *engine == final(runtime).engine()
                                                &&& *final(engine) == final(self).engine()
                                                &&& #[trigger] call_ensures(
                                                    Engine::<H, P, W>::report_error,
                                                    (engine, err),
                                                    out,
                                                )
                                            }
                                    },
                                }
                            },
                    }
                },
    {
        let action = match self.engine.next_action() {
            Some(action) => action,
            None => {
                proof {
                    self.lemma_same_numbers(*old(self));
                }
                return Performed::Drained;
            },
        };
        proof {
            self.lemma_same_numbers(*old(self));
        }
        match self.handle_action(action, time) {
            Outcome::Proceed(proceed) => Performed::Proceed(proceed),
            Outcome::Failed(err) => {
                let ghost between = *self;
                self.engine.report_error(err);
                proof {
                    self.lemma_same_numbers(between);
                }
                Performed::Failed
            },
            Outcome::Broken(failure) => Performed::Broken(failure),
        }
    }
}

} // verus!
