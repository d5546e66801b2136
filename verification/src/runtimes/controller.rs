//! Control over a running reactor.

use vstd::prelude::*;

use crate::error::{error_of, ErrorKind, IoError};
use crate::poller::WakerSend;

verus! {

/// Declares the sending side of a channel.
#[verifier::external_type_specification]
#[verifier::external_body]
#[verifier::reject_recursive_types(T)]
pub struct ExSender<T>(crossbeam_channel::Sender<T>);

/// Declares the error of sending into a channel which has no receiving side any more.
#[verifier::external_type_specification]
#[verifier::external_body]
#[verifier::reject_recursive_types(T)]
pub struct ExSendError<T>(crossbeam_channel::SendError<T>);

/// Tells the capacity of a channel with `crossbeam_channel::Sender::capacity`: there is none if it
/// is unlimited.
///
/// Nothing is claimed of the result: nothing else is to be seen of a channel.
pub assume_specification<T>[ crossbeam_channel::Sender::<T>::capacity ](
    sender: &crossbeam_channel::Sender<T>,
) -> (res: Option<usize>)
;

/// Whether the capacity of a channel is unlimited.
pub open spec fn unlimited<T>(sender: crossbeam_channel::Sender<T>) -> bool {
    call_ensures(crossbeam_channel::Sender::<T>::capacity, (&sender,), None::<usize>)
}

/// Sends a message with `crossbeam_channel::Sender::send`.
///
/// The call would wait while a channel of limited capacity is full, hence the capacity has to be
/// unlimited. Nothing is claimed of the result: it depends on whether the receiving side still
/// exists.
pub assume_specification<T>[ crossbeam_channel::Sender::<T>::send ](
    sender: &crossbeam_channel::Sender<T>,
    msg: T,
) -> (res: Result<(), crossbeam_channel::SendError<T>>)
    requires
        unlimited(*sender),
;

/// Duplicates the sending side of a channel with its `Clone`.
///
/// Claims that the capacity of the channel stays unlimited. That both send into the same channel is
/// left unsaid: a channel has no contents to speak of.
pub assume_specification<T>[ <crossbeam_channel::Sender<T> as Clone>::clone ](
    sender: &crossbeam_channel::Sender<T>,
) -> (res: crossbeam_channel::Sender<T>)
    ensures
        unlimited(*sender) ==> unlimited(res),
;

/// Checks whether the capacity of a channel is unlimited.
pub fn is_unlimited<T>(sender: &crossbeam_channel::Sender<T>) -> (res: bool)
    ensures
        res ==> unlimited(*sender),
        exists|capacity: Option<usize>|
            {
                &&& #[trigger] call_ensures(
                    crossbeam_channel::Sender::<T>::capacity,
                    (sender,),
                    capacity,
                )
                &&& res == (capacity is None)
            },
{
    sender.capacity().is_none()
}

/// Declares the receiving side of a channel.
#[verifier::external_type_specification]
#[verifier::external_body]
#[verifier::reject_recursive_types(T)]
pub struct ExReceiver<T>(crossbeam_channel::Receiver<T>);

/// Declares the reason why nothing was received from a channel.
#[verifier::external_type_specification]
#[verifier::external_body]
pub struct ExTryRecvError(crossbeam_channel::TryRecvError);

/// Reads control command sent to the service from outside the reactor, if there is one, with
/// `crossbeam_channel::Receiver::try_recv`.
///
/// Nothing is claimed of the result: it depends on what other threads have sent. The receiving side
/// is borrowed exclusively, since a command which was read is not in the channel any more: what is
/// known of the receiving side before the call is not known of it after the call.
#[verifier::external_body]
pub fn ctl_recv<C>(receiver: &mut crossbeam_channel::Receiver<Ctl<C>>) -> (res: Result<
    Ctl<C>,
    crossbeam_channel::TryRecvError,
>) {
    receiver.try_recv()
}

/// Tells with `crossbeam_channel::TryRecvError::is_empty` whether nothing was received because the
/// channel is empty at the moment, and not because its sending side is gone.
///
/// Nothing is claimed of the result: nothing else is to be seen of the reason.
pub assume_specification[ crossbeam_channel::TryRecvError::is_empty ](
    err: &crossbeam_channel::TryRecvError,
) -> (res: bool)
;

/// Reasons why nothing was received from a channel.
#[derive(Copy, Clone, PartialEq, Eq, Debug, Structural)]
pub enum ReceiveError {
    /// There is nothing in the channel at the moment.
    Empty,
    /// There is nothing in the channel, and there never will be: the sending side is gone.
    Disconnected,
}

/// What can be sent to a reactor from outside.
#[derive(Debug)]
pub enum Ctl<C> {
    /// Command for the service which is run inside the reactor.
    Cmd(C),
    /// Request to shut the reactor down.
    Shutdown,
}

/// Control API to the service which is run inside a reactor.
///
/// The service is passed to the reactor as a parameter and also exposes an API to the reactor
/// itself for receiving reactor-generated events. This API is used by the reactor to inform the
/// service about incoming commands, sent via this [`Controller`] API.
#[verifier::reject_recursive_types(C)]
pub struct Controller<C, W: WakerSend> {
    ctl_send: crossbeam_channel::Sender<Ctl<C>>,
    waker: W,
}

impl<C, W: WakerSend> Controller<C, W> {
    /// The channel into which the commands are sent.
    pub closed spec fn ctl_send(self) -> crossbeam_channel::Sender<Ctl<C>> {
        self.ctl_send
    }

    /// The waker of the reactor.
    pub closed spec fn waker(self) -> W {
        self.waker
    }

    /// Sending a command never waits.
    #[verifier::type_invariant]
    spec fn sends_at_once(self) -> bool {
        unlimited(self.ctl_send)
    }

    /// Creates the control API from the channel for the commands, which must be of unlimited
    /// capacity, and the waker of the reactor.
    pub fn new(ctl_send: crossbeam_channel::Sender<Ctl<C>>, waker: W) -> (res: Self)
        requires
            unlimited(ctl_send),
        ensures
            res.ctl_send() == ctl_send,
            res.waker() == waker,
    {
        Controller { ctl_send, waker }
    }

    /// Send a command to the service inside a reactor.
    ///
    /// The reactor is awakened once the command is sent.
    pub fn cmd(&self, command: C) -> (res: Result<(), IoError>)
        ensures
            exists|sent: Result<(), crossbeam_channel::SendError<Ctl<C>>>|
                {
                    &&& #[trigger] call_ensures(
                        crossbeam_channel::Sender::<Ctl<C>>::send,
                        (&self.ctl_send(), Ctl::Cmd(command)),
                        sent,
                    )
                    &&& sent is Err ==> res == Err::<(), IoError>(error_of(ErrorKind::BrokenPipe))
                    &&& sent is Ok ==> call_ensures(W::wake, (&self.waker(),), res)
                },
    {
        proof {
            use_type_invariant(self);
        }
        match self.ctl_send.send(Ctl::Cmd(command)) {
            Err(_) => Err(IoError::new(ErrorKind::BrokenPipe)),
            Ok(()) => self.wake(),
        }
    }

    /// Shutdown the reactor.
    ///
    /// # Error
    ///
    /// Gives the API back if neither the request could be sent nor the reactor awakened.
    pub fn shutdown(self) -> (res: Result<(), Self>)
        ensures
            exists|
                sent: Result<(), crossbeam_channel::SendError<Ctl<C>>>,
                woken: Result<(), IoError>,
            |
                {
                    &&& #[trigger] call_ensures(
                        crossbeam_channel::Sender::<Ctl<C>>::send,
                        (&self.ctl_send(), Ctl::<C>::Shutdown),
                        sent,
                    )
                    &&& #[trigger] call_ensures(W::wake, (&self.waker(),), woken)
                    &&& res == if sent is Ok || woken is Ok {
                        Ok::<(), Self>(())
                    } else {
                        Err::<(), Self>(self)
                    }
                },
    {
        proof {
            use_type_invariant(&self);
        }
        let res1 = self.ctl_send.send(Ctl::Shutdown);
        let res2 = self.wake();
        match (res1, res2) {
            (Err(_), Err(_)) => Err(self),
            _ => Ok(()),
        }
    }

    /// Awakens the reactor.
    pub fn wake(&self) -> (res: Result<(), IoError>)
        ensures
            call_ensures(W::wake, (&self.waker(),), res),
    {
        self.waker.wake()
    }
}

impl<C, W: WakerSend> Clone for Controller<C, W> {
    fn clone(&self) -> (res: Self)
        ensures
            call_ensures(
                <crossbeam_channel::Sender<Ctl<C>> as Clone>::clone,
                (&self.ctl_send(),),
                res.ctl_send(),
            ),
            call_ensures(W::clone, (&self.waker(),), res.waker()),
    {
        proof {
            use_type_invariant(self);
        }
        Controller { ctl_send: self.ctl_send.clone(), waker: self.waker.clone() }
    }
}

} // verus!
