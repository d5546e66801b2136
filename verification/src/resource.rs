//! Resources which are managed by the reactor.

use vstd::prelude::*;

use crate::error::{ErrorKind, IoError};
use crate::poller::IoType;

verus! {

/// I/O events which can be subscribed for - or notified about by the reactor on a specific
/// [`Resource`].
#[derive(Copy, Clone, PartialEq, Eq, Hash, Debug, Structural)]
pub enum Io {
    /// Input event
    Read,
    /// Output event
    Write,
}

/// Identifier of a resource inside the reactor.
#[derive(Copy, Clone, PartialEq, Eq, PartialOrd, Ord, Hash, Debug, Structural)]
pub struct ResourceId(pub u64);

/// Number of the waker of the reactor. It is never given to any other resource.
pub const WAKER: u64 = 0xffff_ffff_ffff_ffff;

impl ResourceId {
    /// Identifier of the waker of the reactor.
    pub fn waker() -> (res: ResourceId)
        ensures
            res.0 == WAKER,
    {
        ResourceId(WAKER)
    }

    /// Checks whether this is the identifier of the waker.
    pub fn is_waker(&self) -> (res: bool)
        ensures
            res == (self.0 == WAKER),
    {
        self.0 == WAKER
    }
}

/// Kinds of resources in a networking reactor.
#[derive(Copy, Clone, PartialEq, Eq, Hash, Debug, Structural)]
pub enum ResourceType {
    /// Resource which may spawn more resources and can't be written to.
    Listener,
    /// Resource which can be read from and written to.
    Transport,
}

/// A resource which can be managed by the reactor.
pub trait Resource: WriteAtomic + Send {
    /// Events which resource may generate upon receiving I/O from the reactor via
    /// [`Self::handle_io`]. These events are passed to the service.
    type Event;

    /// File descriptor of the resource.
    fn as_raw_fd(&self) -> (fd: i32);

    /// Method informing the reactor which types of events this resource is subscribed for.
    fn interests(&self) -> (io: IoType);

    /// Method called by the reactor when an I/O event is received for this resource in a result of
    /// poll syscall.
    fn handle_io(&mut self, io: Io) -> (event: Option<Self::Event>);
}

/// Error during write operation for a reactor-managed [`Resource`].
#[derive(Debug)]
pub enum WriteError {
    /// Underlying resource is not ready to accept the data: for instance, a connection has not yet
    /// established in full or handshake is not complete. A specific case in which this error is
    /// returned is defined by an underlying resource type; however, this error happens only due to
    /// a business logic bugs in a service.
    NotReady,

    /// Error returned by the operation system and not by the resource itself.
    Io(IoError),
}

impl From<IoError> for WriteError {
    fn from(err: IoError) -> (res: WriteError) {
        WriteError::Io(err)
    }
}

impl vstd::std_specs::convert::FromSpecImpl<IoError> for WriteError {
    open spec fn obeys_from_spec() -> bool {
        true
    }

    open spec fn from_spec(err: IoError) -> WriteError {
        WriteError::Io(err)
    }
}

impl WriteError {
    /// Tells what has failed.
    pub fn to_string(&self) -> (res: String)
        ensures
            match *self {
                WriteError::NotReady => res@ == "resource not ready to accept the data"@,
                WriteError::Io(err) => call_ensures(IoError::to_string, (&err,), res),
            },
    {
        match self {
            WriteError::NotReady => "resource not ready to accept the data".to_string(),
            WriteError::Io(err) => err.to_string(),
        }
    }
}

impl ErrorKind {
    /// Whether a write which meets an error of this kind must keep the data buffered and carry on.
    pub open spec fn requires_buffering(self) -> bool {
        self is WouldBlock || self is Interrupted || self is WriteZero
    }
}

/// The trait guarantees that the data are either written in full - or, in case of an error, none of
/// the data is written. Types implementing the trait must also guarantee that multiple attempts to
/// do the write would not result in data to be written out of the initial ordering.
pub trait WriteAtomic: Sized {
    /// Atomic non-blocking I/O write operation, which must either write the whole buffer to a
    /// resource without blocking - or fail with [`WriteError::NotReady`] error.
    fn write_atomic(&mut self, buf: &[u8]) -> (res: Result<(), WriteError>)
        ensures
            exists|ready: bool|
                {
                    &&& #[trigger] call_ensures(Self::is_ready_to_write, (&*old(self),), ready)
                    &&& !ready ==> *final(self) == *old(self) && res == Err::<(), WriteError>(
                        WriteError::NotReady,
                    )
                    &&& ready ==> exists|writer: &mut Self, written: Result<(), IoError>|
                        {
                            &&& *writer == *old(self) && *final(writer) == *final(self)
                            &&& #[trigger] call_ensures(
                                Self::write_or_buf,
                                (writer, buf),
                                written,
                            )
                            &&& res == written_atomically(written)
                        }
                },
            res matches Err(WriteError::Io(err)) ==> !err.kind.requires_buffering(),
    {
        if !self.is_ready_to_write() {
            Err(WriteError::NotReady)
        } else {
            match self.write_or_buf(buf) {
                Ok(()) => Ok(()),
                Err(err) => Err(WriteError::Io(err)),
            }
        }
    }

    /// Checks whether resource can be written to without blocking.
    fn is_ready_to_write(&self) -> (ready: bool);

    /// Empties any write buffers in a non-blocking way. If a non-blocking operation is not
    /// possible, errors with [`ErrorKind::WouldBlock`] kind of [`IoError`].
    ///
    /// # Returns
    ///
    /// If the buffer contained any data before this operation.
    fn empty_write_buf(&mut self) -> (res: Result<bool, IoError>);

    /// Writes to the resource in a non-blocking way, buffering the data if necessary - or failing
    /// with a system-level error.
    ///
    /// This method shouldn't be called directly; [`Self::write_atomic`] must be used instead.
    ///
    /// The method must handle EAGAIN, EINTR, EWOULDBLOCK I/O errors and buffer the data in such
    /// cases: an implementation never returns them.
    fn write_or_buf(&mut self, buf: &[u8]) -> (res: Result<(), IoError>)
        ensures
            res matches Err(err) ==> !err.kind.requires_buffering(),
    ;
}

/// The result of an atomic write which stands for the result of [`WriteAtomic::write_or_buf`].
pub open spec fn written_atomically(written: Result<(), IoError>) -> Result<(), WriteError> {
    match written {
        Ok(()) => Ok(()),
        Err(err) => Err(WriteError::Io(err)),
    }
}

} // verus!
