//! What all the reactor runtimes have in common.

use vstd::prelude::*;

use crate::error::IoError;
use crate::poller::Waker;
use crate::runtimes::controller::{ctl_recv, Controller, Ctl, ReceiveError};
use crate::runtimes::{Error, ReactorHandler, Received};
use crate::timeouts::{expired_by, unexpired_by, Timer, Timestamp};

verus! {

/// The service with all that the runtime needs for running it, apart from the resources.
#[verifier::reject_recursive_types(H)]
#[verifier::reject_recursive_types(W)]
pub struct Engine<H: ReactorHandler, P, W: Waker> {
    /// The service.
    pub service: H,
    /// The poll engine.
    pub poller: P,
    /// Control API to the service.
    pub controller: Controller<H::Command, W::Send>,
    /// The channel from which the commands are received.
    pub ctl_recv: crossbeam_channel::Receiver<Ctl<H::Command>>,
    /// The waker of the reactor.
    pub waker: W::Recv,
    /// The timeouts which were set by the service.
    pub timeouts: Timer,
}

impl<H: ReactorHandler, P, W: Waker> Engine<H, P, W> {
    /// Nothing differs but the service.
    pub open spec fn differs_in_service(self, after: Self) -> bool {
        after == Engine { service: after.service, ..self }
    }

    /// Creates the engine with no timeouts.
    pub fn new(
        service: H,
        poller: P,
        controller: Controller<H::Command, W::Send>,
        ctl_recv: crossbeam_channel::Receiver<Ctl<H::Command>>,
        waker: W::Recv,
    ) -> (res: Self)
        ensures
            res.service == service,
            res.poller == poller,
            res.controller == controller,
            res.ctl_recv == ctl_recv,
            res.waker == waker,
            res.timeouts@ == Set::<u128>::empty(),
    {
        Engine { service, poller, controller, ctl_recv, waker, timeouts: Timer::new() }
    }

    /// Calls the service at the start of the handling.
    pub fn tick(&mut self, now: Timestamp)
        ensures
            old(self).differs_in_service(*final(self)),
            exists|service: &mut H, out: ()|
                {
                    &&& *service == old(self).service
                    &&& *final(service) == final(self).service
                    &&& #[trigger] call_ensures(H::tick, (service, now), out)
                },
    {
        self.service.tick(now);
    }

    /// Removes the timeouts which expire by the moment `now` (inclusive) and tells the service if
    /// there were any.
    ///
    /// Which of the timeouts have expired is not told: as long as something timed out, the service
    /// is called.
    ///
    /// # Returns
    ///
    /// Number of the removed timeouts.
    pub fn expire(&mut self, now: Timestamp) -> (fired: usize)
        ensures
            fired == expired_by(old(self).timeouts@, now).len(),
            final(self).timeouts@ == unexpired_by(old(self).timeouts@, now),
            *final(self) == (Engine {
                service: final(self).service,
                timeouts: final(self).timeouts,
                ..*old(self)
            }),
            fired == 0 ==> final(self).service == old(self).service,
            fired > 0 ==> exists|service: &mut H, out: ()|
                {
                    &&& *service == old(self).service
                    &&& *final(service) == final(self).service
                    &&& #[trigger] call_ensures(H::handle_timer, (service,), out)
                },
    {
        let fired = self.timeouts.remove_expired_by(now);
        if fired > 0 {
            self.service.handle_timer();
        }
        fired
    }

    /// Tells the service if the poll has failed.
    pub fn report_poll(&mut self, res: Result<usize, IoError>)
        ensures
            old(self).differs_in_service(*final(self)),
            match res {
                Ok(_) => final(self).service == old(self).service,
                Err(err) => exists|service: &mut H, out: ()|
                    {
                        &&& *service == old(self).service
                        &&& *final(service) == final(self).service
                        &&& #[trigger] call_ensures(
                            H::handle_error,
                            (service, Error::Poll(err)),
                            out,
                        )
                    },
            },
    {
        match res {
            Ok(_) => {},
            Err(err) => self.service.handle_error(Error::Poll(err)),
        }
    }

    /// Handles the outcome `res` of the poll at the moment `now`.
    ///
    /// # Returns
    ///
    /// Number of the removed timeouts.
    pub fn finish_poll(&mut self, now: Timestamp, res: Result<usize, IoError>) -> (fired: usize)
        ensures
            exists|ticked: &mut Self, expired: &mut Self, reported: &mut Self, out: (), end: ()|
                {
                    &&& *ticked == *old(self)
                    &&& #[trigger] call_ensures(Self::tick, (ticked, now), out)
                    &&& *expired == *final(ticked)
                    &&& #[trigger] call_ensures(Self::expire, (expired, now), fired)
                    &&& *reported == *final(expired)
                    &&& #[trigger] call_ensures(Self::report_poll, (reported, res), end)
                    &&& *final(reported) == *final(self)
                },
    {
        self.tick(now);
        let fired = self.expire(now);
        self.report_poll(res);
        fired
    }

    /// Handles what was received from outside.
    pub fn handle_received(&mut self, received: Result<Ctl<H::Command>, ReceiveError>) -> (res:
        Received)
        ensures
            old(self).differs_in_service(*final(self)),
            match received {
                Ok(Ctl::Cmd(cmd)) => {
                    &&& res is Command
                    &&& exists|service: &mut H, out: ()|
                        {
                            &&& *service == old(self).service
                            &&& *final(service) == final(self).service
                            &&& #[trigger] call_ensures(H::handle_command, (service, cmd), out)
                        }
                },
                Ok(Ctl::Shutdown) => res is Shutdown && final(self).service == old(self).service,
                Err(ReceiveError::Empty) => res is Drained && final(self).service == old(
                    self,
                ).service,
                Err(ReceiveError::Disconnected) => res is Disconnected && final(self).service
                    == old(self).service,
            },
    {
        match received {
            Ok(Ctl::Cmd(cmd)) => {
                self.service.handle_command(cmd);
                Received::Command
            },
            Ok(Ctl::Shutdown) => Received::Shutdown,
            Err(ReceiveError::Empty) => Received::Drained,
            Err(ReceiveError::Disconnected) => Received::Disconnected,
        }
    }

    /// Reads control command sent to the service from outside the reactor.
    pub fn receive(&mut self) -> (res: Result<Ctl<H::Command>, ReceiveError>)
        ensures
            *final(self) == (Engine { ctl_recv: final(self).ctl_recv, ..*old(self) }),
            exists|
                receiver: &mut crossbeam_channel::Receiver<Ctl<H::Command>>,
                received: Result<Ctl<H::Command>, crossbeam_channel::TryRecvError>,
            |
                {
                    &&& *receiver == old(self).ctl_recv
                    &&& *final(receiver) == final(self).ctl_recv
                    &&& #[trigger] call_ensures(ctl_recv::<H::Command>, (receiver,), received)
                    &&& match received {
                        Ok(ctl) => res == Ok::<Ctl<H::Command>, ReceiveError>(ctl),
                        Err(err) => exists|empty: bool|
                            {
                                &&& #[trigger] call_ensures(
                                    crossbeam_channel::TryRecvError::is_empty,
                                    (&err,),
                                    empty,
                                )
                                &&& res == Err::<Ctl<H::Command>, ReceiveError>(
                                    if empty {
                                        ReceiveError::Empty
                                    } else {
                                        ReceiveError::Disconnected
                                    },
                                )
                            },
                    }
                },
    {
        match ctl_recv(&mut self.ctl_recv) {
            Ok(ctl) => Ok(ctl),
            Err(err) => if err.is_empty() {
                Err(ReceiveError::Empty)
            } else {
                Err(ReceiveError::Disconnected)
            },
        }
    }

    /// Receives the next command, if there is one, and hands it over to the service.
    pub fn receive_command(&mut self) -> (res: Received)
        ensures
            exists|
                read: &mut Self,
                received: Result<Ctl<H::Command>, ReceiveError>,
                handled: &mut Self,
            |
                {
                    &&& *read == *old(self)
                    &&& #[trigger] call_ensures(Self::receive, (read,), received)
                    &&& *handled == *final(read)
                    &&& #[trigger] call_ensures(Self::handle_received, (handled, received), res)
                    &&& *final(handled) == *final(self)
                },
    {
        let received = self.receive();
        self.handle_received(received)
    }

    /// Reads the next action of the service.
    pub fn next_action(&mut self) -> (action: Option<H::Action>)
        ensures
            old(self).differs_in_service(*final(self)),
            exists|service: &mut H|
                {
                    &&& *service == old(self).service
                    &&& *final(service) == final(self).service
                    &&& #[trigger] call_ensures(<H as Iterator>::next, (service,), action)
                },
    {
        self.service.next()
    }

    /// Tells the service that handling of a resource has failed.
    pub fn report_error(&mut self, err: H::Error)
        ensures
            old(self).differs_in_service(*final(self)),
            exists|service: &mut H, out: ()|
                {
                    &&& *service == old(self).service
                    &&& *final(service) == final(self).service
                    &&& #[trigger] call_ensures(
                        H::handle_error,
                        (service, Error::Handler(err)),
                        out,
                    )
                },
    {
        self.service.handle_error(Error::Handler(err));
    }
}

} // verus!
