//! OS and implementation-specific poll engines.

use vstd::prelude::*;
use vstd::std_specs::ops::NotSpec;

use crate::error::IoError;
use crate::resource::{Io, ResourceId, WAKER};

pub mod popol;

verus! {

/// Information about I/O events which has happened for a resource.
#[derive(Copy, Clone, PartialEq, Eq, PartialOrd, Ord, Hash, Debug, Structural)]
pub struct IoType {
    /// Specifies whether I/O source has data to read.
    pub read: bool,
    /// Specifies whether I/O source is ready for write operations.
    pub write: bool,
}

impl IoType {
    /// Indicates no I/O operations are tracked.
    pub fn none() -> (res: IoType)
        ensures
            !res.read && !res.write,
    {
        IoType { read: false, write: false }
    }

    /// Indicates interest in only read I/O events.
    pub fn read_only() -> (res: IoType)
        ensures
            res.read && !res.write,
    {
        IoType { read: true, write: false }
    }

    /// Indicates interest in only write I/O events.
    pub fn write_only() -> (res: IoType)
        ensures
            !res.read && res.write,
    {
        IoType { read: false, write: true }
    }

    /// Indicates interest in both read and write I/O events.
    pub fn read_write() -> (res: IoType)
        ensures
            res.read && res.write,
    {
        IoType { read: true, write: true }
    }

    /// Indicates no I/O operations has happened on a resource.
    pub fn is_none(self) -> (res: bool)
        ensures
            res == (!self.read && !self.write),
    {
        !self.read && !self.write
    }

    /// Indicates data available to be read from a resource.
    pub fn is_read_only(self) -> (res: bool)
        ensures
            res == (self.read && !self.write),
    {
        self.read && !self.write
    }

    /// Indicates that the resource is ready to accept data.
    pub fn is_write_only(self) -> (res: bool)
        ensures
            res == (!self.read && self.write),
    {
        !self.read && self.write
    }

    /// Indicates that the resource can accept data - and has a data which can be read.
    pub fn is_read_write(self) -> (res: bool)
        ensures
            res == (self.read && self.write),
    {
        self.read && self.write
    }

    /// The I/O events in the order in which they are handled: writes go before reads.
    pub open spec fn events(self) -> Seq<Io> {
        (if self.write {
            seq![Io::Write]
        } else {
            seq![]
        }) + (if self.read {
            seq![Io::Read]
        } else {
            seq![]
        })
    }

    /// Takes the event out which is to be handled next.
    ///
    /// # Returns
    ///
    /// `None` once all the events are taken.
    pub fn next(&mut self) -> (res: Option<Io>)
        ensures
            match res {
                Some(io) => {
                    &&& old(self).events().len() > 0
                    &&& io == old(self).events()[0]
                    &&& final(self).events() == old(self).events().drop_first()
                },
                None => old(self).events().len() == 0 && *final(self) == *old(self),
            },
    {
        if self.write {
            self.write = false;
            Some(Io::Write)
        } else if self.read {
            self.read = false;
            Some(Io::Read)
        } else {
            None
        }
    }

    /// Names the I/O events.
    pub fn to_string(&self) -> (res: String)
        ensures
            res@ == io_name(*self),
    {
        if self.is_none() {
            "none".to_string()
        } else if self.is_read_write() {
            "read-write".to_string()
        } else if self.read {
            "read".to_string()
        } else {
            "write".to_string()
        }
    }
}

/// The name of the I/O events.
pub open spec fn io_name(io: IoType) -> Seq<char> {
    match (io.read, io.write) {
        (false, false) => "none"@,
        (true, true) => "read-write"@,
        (true, false) => "read"@,
        (false, true) => "write"@,
    }
}

impl std::ops::Not for IoType {
    type Output = IoType;

    /// The I/O events which are not among these.
    fn not(self) -> (res: IoType) {
        IoType { read: !self.read, write: !self.write }
    }
}

impl vstd::std_specs::ops::NotSpecImpl for IoType {
    open spec fn obeys_not_spec() -> bool {
        true
    }

    open spec fn not_req(self) -> bool {
        true
    }

    open spec fn not_spec(self) -> IoType {
        IoType { read: !self.read, write: !self.write }
    }
}

/// Negation is its own inverse, and turns each kind of I/O events in those which are exactly the
/// others.
pub proof fn law_negation(io: IoType)
    ensures
        io.not_spec().not_spec() == io,
        forall|each: Io| #[trigger]
            io.not_spec().events().contains(each) <==> !io.events().contains(each),
{
    broadcast use vstd::seq_lib::group_seq_properties;

    lemma_events(io);
    lemma_events(io.not_spec());
}

proof fn lemma_events(io: IoType)
    ensures
        io.events().contains(Io::Read) <==> io.read,
        io.events().contains(Io::Write) <==> io.write,
{
    if io.write {
        assert(io.events()[0] == Io::Write);
    }
    if io.read {
        assert(io.events().last() == Io::Read);
    }
}

/// Each I/O event is handled once, and writes go before reads.
pub proof fn law_writes_before_reads(io: IoType)
    ensures
        io.events().no_duplicates(),
        io.events().contains(Io::Read) <==> io.read,
        io.events().contains(Io::Write) <==> io.write,
        forall|i: int, j: int|
            0 <= i < j < io.events().len() ==> #[trigger] io.events()[i] == Io::Write
                && #[trigger] io.events()[j] == Io::Read,
{
    lemma_events(io);
}

/// Reasons for the poll operation failure for a specific resource.
#[derive(Copy, Clone, PartialEq, Eq, Debug, Structural)]
pub enum IoFail {
    /// Connection is absent; holds the POSIX events.
    Connectivity(i16),
    /// OS-level error; holds the POSIX events.
    Os(i16),
}

/// An engine providing `poll` syscall interface to the reactor.
///
/// Since `poll` syscalls are platform-dependent and multiple crates can expose it with a different
/// API and tradeoffs, the current library allows selection of a specific poll engine
/// implementation.
///
/// The syscall itself is run outside of this interface, which keeps track of the polled resources
/// and of the events which were generated and are not yet read.
pub trait Poll: Sized {
    /// Internal consistency of the engine.
    spec fn inv(&self) -> bool;

    /// File descriptor and interest of each registered resource.
    spec fn registered(&self) -> Map<u64, (i32, IoType)>;

    /// Numbers of all the resources which were ever registered, apart from the waker.
    spec fn given(&self) -> Set<u64>;

    /// Whether there are numbers left for new resources.
    spec fn has_room(&self) -> bool;

    /// Events which were generated and are not yet read.
    spec fn pending(&self) -> Seq<(ResourceId, Result<IoType, IoFail>)>;

    /// Checks whether one more resource can be registered.
    fn can_register(&self) -> (res: bool)
        requires
            self.inv(),
        ensures
            res == self.has_room(),
    ;

    /// Registers a waker object.
    fn register_waker(&mut self, fd: i32)
        requires
            old(self).inv(),
            !old(self).registered().contains_key(WAKER),
        ensures
            final(self).inv(),
            final(self).registered() == old(self).registered().insert(
                WAKER,
                (fd, IoType { read: true, write: false }),
            ),
            final(self).given() == old(self).given(),
            final(self).has_room() == old(self).has_room(),
            final(self).pending() == old(self).pending(),
    ;

    /// Registers a file-descriptor based resource for a poll.
    fn register(&mut self, fd: i32, interest: IoType) -> (id: ResourceId)
        requires
            old(self).inv(),
            old(self).has_room(),
        ensures
            final(self).inv(),
            id.0 != WAKER,
            !old(self).given().contains(id.0),
            !old(self).registered().contains_key(id.0),
            final(self).registered() == old(self).registered().insert(id.0, (fd, interest)),
            final(self).given() == old(self).given().insert(id.0),
            final(self).pending() == old(self).pending(),
    ;

    /// Unregisters a file-descriptor based resource from a poll.
    fn unregister(&mut self, id: ResourceId)
        requires
            old(self).inv(),
        ensures
            final(self).inv(),
            final(self).registered() == old(self).registered().remove(id.0),
            final(self).given() == old(self).given(),
            final(self).has_room() == old(self).has_room(),
            final(self).pending() == old(self).pending(),
    ;

    /// Subscribes for a specific set of events for a given file descriptor-backed resource (see
    /// [`IoType`] for the details on event subscription).
    ///
    /// # Returns
    ///
    /// Whether the resource is registered.
    fn set_interest(&mut self, id: ResourceId, interest: IoType) -> (res: bool)
        requires
            old(self).inv(),
        ensures
            final(self).inv(),
            res == old(self).registered().contains_key(id.0),
            final(self).registered() == if res {
                old(self).registered().insert(
                    id.0,
                    (old(self).registered()[id.0].0, interest),
                )
            } else {
                old(self).registered()
            },
            final(self).given() == old(self).given(),
            final(self).has_room() == old(self).has_room(),
            final(self).pending() == old(self).pending(),
    ;

    /// Reads the next of the generated events.
    fn next(&mut self) -> (res: Option<(ResourceId, Result<IoType, IoFail>)>)
        requires
            old(self).inv(),
        ensures
            final(self).inv(),
            match res {
                Some(event) => {
                    &&& old(self).pending().len() > 0
                    &&& event == old(self).pending()[0]
                    &&& final(self).pending() == old(self).pending().drop_first()
                },
                None => old(self).pending().len() == 0 && final(self).pending().len() == 0,
            },
            final(self).registered() == old(self).registered(),
            final(self).given() == old(self).given(),
            final(self).has_room() == old(self).has_room(),
    ;
}

/// Waker object provided by the poller.
pub trait Waker {
    /// Data type for sending wake signals to the poller.
    type Send: WakerSend;

    /// Data type for receiving wake signals inside the poller.
    type Recv: WakerRecv;

    /// Constructs pair of waker receiver and sender objects.
    fn pair() -> (res: Result<(Self::Send, Self::Recv), IoError>);
}

/// Sending part of the waker.
pub trait WakerSend: Send + Sync + Clone {
    /// Awakes the poller to read events.
    fn wake(&self) -> (res: Result<(), IoError>);
}

/// Receiver part of the waker.
pub trait WakerRecv: Send {
    /// File descriptor which becomes readable once the waker is awoken.
    fn as_raw_fd(&self) -> (fd: i32);

    /// Resets the waker reader.
    fn reset(&mut self);
}

} // verus!
