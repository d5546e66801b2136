//! Laws of I/O events and of poll engines.

use vstd::prelude::*;

use crate::error::IoError;
use crate::poller::popol::{Interests, PollEvent, Poller};
use crate::poller::{IoFail, IoType, Poll};
use crate::resource::{Io, ResourceId};

verus! {

/// The kinds of I/O events are made of the two sorts of events as they are named.
pub proof fn law_kinds_of_io(none: IoType, read: IoType, write: IoType, both: IoType)
    requires
        call_ensures(IoType::none, (), none),
        call_ensures(IoType::read_only, (), read),
        call_ensures(IoType::write_only, (), write),
        call_ensures(IoType::read_write, (), both),
    ensures
        !none.read && !none.write,
        read.read && !read.write,
        !write.read && write.write,
        both.read && both.write,
{
}

/// Every I/O event is of just one of the kinds, and is told to be of that.
pub proof fn law_kind_is_told(io: IoType, none: bool, read: bool, write: bool, both: bool)
    requires
        call_ensures(IoType::is_none, (io,), none),
        call_ensures(IoType::is_read_only, (io,), read),
        call_ensures(IoType::is_write_only, (io,), write),
        call_ensures(IoType::is_read_write, (io,), both),
    ensures
        none <==> !io.read && !io.write,
        read <==> io.read && !io.write,
        write <==> !io.read && io.write,
        both <==> io.read && io.write,
{
}

/// The negation of I/O events has just those which are not among them.
pub proof fn law_negation_swaps_io(io: IoType, res: IoType)
    requires
        call_ensures(<IoType as std::ops::Not>::not, (io,), res),
    ensures
        res.read <==> !io.read,
        res.write <==> !io.write,
{
}

/// The write is taken out first, then the read, each just once.
pub proof fn law_io_is_taken_out(io: &mut IoType, res: Option<Io>)
    requires
        call_ensures(IoType::next, (io,), res),
    ensures
        old(io).write
            ==> res == Some(Io::Write) && !final(io).write && final(io).read == old(io).read,
        !old(io).write && old(io).read
            ==> res == Some(Io::Read) && !final(io).write && !final(io).read,
        !old(io).write && !old(io).read ==> res is None && !final(io).write && !final(io).read,
{
    let before = *io;
    let after = *final(io);
    if before.write {
        assert(before.events()[0] == Io::Write);
        assert(after.events() =~= if before.read {
            seq![Io::Read]
        } else {
            seq![]
        });
        if after.write {
            assert(after.events()[0] == Io::Write);
        }
        if after.read {
            assert(after.events().last() == Io::Read);
        }
    } else if before.read {
        assert(before.events()[0] == Io::Read);
        assert(after.events() =~= seq![]);
        if after.write {
            assert(after.events()[0] == Io::Write);
        }
        if after.read {
            assert(after.events().last() == Io::Read);
        }
    }
}

/// I/O events have the names they are known by.
pub proof fn law_io_is_named(io: IoType, name: String)
    requires
        call_ensures(IoType::to_string, (&io,), name),
    ensures
        !io.read && !io.write ==> name@ == "none"@,
        io.read && !io.write ==> name@ == "read"@,
        !io.read && io.write ==> name@ == "write"@,
        io.read && io.write ==> name@ == "read-write"@,
{
}

/// The POSIX events which are polled for stand for reads if and only if there is interest in reads,
/// and likewise for writes.
pub proof fn law_interest_is_polled(interests: Interests, io: IoType, events: i16)
    requires
        interests.none == 0,
        interests.read != 0,
        interests.write != 0,
        interests.read & interests.write == 0,
        call_ensures(Interests::from_io, (&interests, io), events),
    ensures
        events & interests.read != 0 <==> io.read,
        events & interests.write != 0 <==> io.write,
        !io.read && !io.write ==> events == 0,
{
    interests.law_io_of_bits(io);
    assert(0i16 | 0i16 == 0i16) by (bit_vector);
}

/// A registered resource gets a number which was never given to another one and is not that of the
/// waker. It is polled for what it is registered for, and nothing else changes.
pub proof fn law_resource_is_registered<P: Poll>(
    poller: &mut P,
    fd: i32,
    interest: IoType,
    id: ResourceId,
)
    requires
        call_ensures(P::register, (poller, fd, interest), id),
    ensures
        id.0 != 0xffff_ffff_ffff_ffff,
        !old(poller).given().contains(id.0),
        !old(poller).registered().contains_key(id.0),
        final(poller).registered().contains_key(id.0),
        final(poller).registered()[id.0] == (fd, interest),
        forall|k: u64|
            k != id.0 ==> {
                &&& #[trigger] final(poller).registered().contains_key(k)
                    == old(poller).registered().contains_key(k)
                &&& old(poller).registered().contains_key(k) ==> final(poller).registered()[k]
                    == old(poller).registered()[k]
            },
        forall|k: u64| #[trigger]
            final(poller).given().contains(k) <==> old(poller).given().contains(k) || k == id.0,
        final(poller).pending() == old(poller).pending(),
{
}

/// The waker is polled for reads under its own number, and nothing else changes.
pub proof fn law_waker_is_registered<P: Poll>(poller: &mut P, fd: i32, out: ())
    requires
        call_ensures(P::register_waker, (poller, fd), out),
    ensures
        final(poller).registered().contains_key(0xffff_ffff_ffff_ffff),
        final(poller).registered()[0xffff_ffff_ffff_ffff] == (
            fd,
            IoType { read: true, write: false },
        ),
        forall|k: u64|
            k != 0xffff_ffff_ffff_ffff ==> {
                &&& #[trigger] final(poller).registered().contains_key(k)
                    == old(poller).registered().contains_key(k)
                &&& old(poller).registered().contains_key(k) ==> final(poller).registered()[k]
                    == old(poller).registered()[k]
            },
        final(poller).given() == old(poller).given(),
        final(poller).pending() == old(poller).pending(),
{
}

/// An unregistered resource is not polled any more, and nothing else changes: its number stays
/// taken and its events stay to be read.
pub proof fn law_resource_is_unregistered<P: Poll>(poller: &mut P, id: ResourceId, out: ())
    requires
        call_ensures(P::unregister, (poller, id), out),
    ensures
        !final(poller).registered().contains_key(id.0),
        forall|k: u64|
            k != id.0 ==> {
                &&& #[trigger] final(poller).registered().contains_key(k)
                    == old(poller).registered().contains_key(k)
                &&& old(poller).registered().contains_key(k) ==> final(poller).registered()[k]
                    == old(poller).registered()[k]
            },
        final(poller).given() == old(poller).given(),
        final(poller).pending() == old(poller).pending(),
{
}

/// A registered resource is polled for just what it is interested in from then on. A resource which
/// is not registered is told to be unknown. Nothing else changes.
pub proof fn law_interest_is_set<P: Poll>(
    poller: &mut P,
    id: ResourceId,
    interest: IoType,
    res: bool,
)
    requires
        call_ensures(P::set_interest, (poller, id, interest), res),
    ensures
        res <==> old(poller).registered().contains_key(id.0),
        forall|k: u64| #[trigger]
            final(poller).registered().contains_key(k) == old(poller).registered().contains_key(k),
        res ==> final(poller).registered()[id.0] == (old(poller).registered()[id.0].0, interest),
        forall|k: u64|
            k != id.0 && old(poller).registered().contains_key(k)
                ==> #[trigger] final(poller).registered()[k] == old(poller).registered()[k],
        final(poller).given() == old(poller).given(),
        final(poller).pending() == old(poller).pending(),
{
}

/// Events are read one by one in the order in which they were generated, until there are no more.
/// Reading them changes no registration.
pub proof fn law_events_are_read_in_order<P: Poll>(
    poller: &mut P,
    res: Option<(ResourceId, Result<IoType, IoFail>)>,
)
    requires
        call_ensures(P::next, (poller,), res),
    ensures
        res is None <==> old(poller).pending().len() == 0,
        res matches Some(event) ==> {
            &&& event == old(poller).pending()[0]
            &&& final(poller).pending().len() == old(poller).pending().len() - 1
            &&& forall|i: int|
                0 <= i < final(poller).pending().len() ==> #[trigger] final(poller).pending()[i]
                    == old(poller).pending()[i + 1]
        },
        res is None ==> final(poller).pending().len() == 0,
        final(poller).registered() == old(poller).registered(),
        final(poller).given() == old(poller).given(),
{
}

/// An event which is read means a lost connection if and only if its source was hung up, an error
/// of the operating system if and only if its source was not hung up but has failed or is invalid,
/// and otherwise just that the source is ready for the reads and writes it says. It belongs to the
/// resource with its key.
pub proof fn law_event_is_read(
    poller: &mut Poller,
    res: Option<(ResourceId, Result<IoType, IoFail>)>,
)
    requires
        call_ensures(<Poller as Poll>::next, (poller,), res),
    ensures
        res is None <==> old(poller).queue().len() == 0,
        res matches Some((id, meaning)) ==> {
            let event = old(poller).queue()[0];
            &&& id == event.key
            &&& event.hangup <==> meaning == Err::<IoType, IoFail>(
                IoFail::Connectivity(event.fired),
            )
            &&& !event.hangup && (event.error || event.invalid) <==> meaning == Err::<
                IoType,
                IoFail,
            >(IoFail::Os(event.fired))
            &&& meaning is Ok <==> !event.hangup && !event.error && !event.invalid
            &&& meaning matches Ok(io) ==> io.read == event.readable && io.write == event.writable
            &&& final(poller).queue().len() == old(poller).queue().len() - 1
            &&& forall|i: int|
                0 <= i < final(poller).queue().len() ==> #[trigger] final(poller).queue()[i]
                    == old(poller).queue()[i + 1]
        },
        final(poller).sources() == old(poller).sources(),
{
}

/// Each event which waits to be read means what its source has reported.
pub proof fn law_pending_events_keep_their_meaning(poller: Poller, i: int)
    requires
        0 <= i < poller.queue().len(),
    ensures
        poller.pending().len() == poller.queue().len(),
        ({
            let event = poller.queue()[i];
            let (id, meaning) = poller.pending()[i];
            &&& id == event.key
            &&& event.hangup <==> meaning == Err::<IoType, IoFail>(
                IoFail::Connectivity(event.fired),
            )
            &&& !event.hangup && (event.error || event.invalid) <==> meaning == Err::<
                IoType,
                IoFail,
            >(IoFail::Os(event.fired))
            &&& meaning matches Ok(io) ==> io.read == event.readable && io.write == event.writable
        }),
{
}

/// A poll has failed if and only if the syscall has, other than by timing out, and then with the
/// very error of the syscall. Otherwise it returns the number of the generated events. Either way
/// these are put after the events which wait to be read, with none lost.
pub proof fn law_poll_tells_number_of_events(
    poller: &mut Poller,
    events: Vec<PollEvent>,
    res: Result<(), IoError>,
    count: Result<usize, IoError>,
)
    requires
        call_ensures(Poller::poll, (poller, events, res), count),
    ensures
        res is Ok ==> count is Ok,
        res matches Err(err) ==> {
            &&& count is Ok <==> err.kind is TimedOut
            &&& !(err.kind is TimedOut) ==> count == Err::<usize, IoError>(err)
        },
        count matches Ok(new) ==> {
            &&& new == events@.len()
            &&& final(poller).pending().len() == old(poller).pending().len() + new
        },
        final(poller).queue().len() == old(poller).queue().len() + events@.len(),
        forall|i: int|
            0 <= i < old(poller).queue().len() ==> #[trigger] final(poller).queue()[i]
                == old(poller).queue()[i],
        forall|i: int|
            0 <= i < events@.len() ==> final(poller).queue()[old(poller).queue().len() + i]
                == #[trigger] events@[i],
        final(poller).sources() == old(poller).sources(),
{
}

/// A new poll engine polls nothing and has nothing to read.
pub proof fn law_new_poller_is_empty(
    poller: Poller,
    default: Poller,
    capacity: usize,
    reserved: Poller,
    k: u64,
)
    requires
        call_ensures(Poller::new, (), poller),
        call_ensures(<Poller as Default>::default, (), default),
        call_ensures(Poller::with_capacity, (capacity,), reserved),
    ensures
        poller.inv() && default.inv() && reserved.inv(),
        !poller.registered().contains_key(k),
        !default.registered().contains_key(k),
        !reserved.registered().contains_key(k),
        poller.pending().len() == 0,
        default.pending().len() == 0,
        reserved.pending().len() == 0,
        !poller.given().contains(k),
        !default.given().contains(k),
        !reserved.given().contains(k),
{
}

/// The numbers of the resources count up from zero.
pub proof fn law_numbers_count_up(
    poller: Poller,
    first: &mut Poller,
    second: &mut Poller,
    fd: i32,
    interest: IoType,
    other_fd: i32,
    other_interest: IoType,
    id: ResourceId,
    next: ResourceId,
)
    requires
        call_ensures(<Poller as Poll>::register, (first, fd, interest), id),
        *second == *final(first),
        call_ensures(<Poller as Poll>::register, (second, other_fd, other_interest), next),
    ensures
        next.0 == id.0 + 1,
        call_ensures(Poller::new, (), poller) && *old(first) == poller ==> id.0 == 0,
{
}

/// The sources are just what is registered: each is polled under the number of its resource, with
/// its file descriptor, and for reads and writes as the resource is registered for.
pub proof fn law_sources_are_registered(poller: Poller, i: int, k: u64)
    requires
        poller.inv(),
        0 <= i < poller.sources().len(),
    ensures
        ({
            let (key, fd, events) = poller.sources()[i];
            &&& poller.registered().contains_key(key)
            &&& poller.registered()[key].0 == fd
            &&& poller.registered()[key].1.read <==> events & poller.interests().read != 0
            &&& poller.registered()[key].1.write <==> events & poller.interests().write != 0
        }),
        poller.registered().contains_key(k) ==> exists|j: int|
            0 <= j < poller.sources().len() && (#[trigger] poller.sources()[j]).0 == k,
{
    let sources = poller.sources();
    let key = sources[i].0;
    assert(crate::poller::popol::has_key(sources, key));
    let at = choose|at: int| 0 <= at < sources.len() && (#[trigger] sources[at]).0 == key;
    assert(at == i);
}

/// A resource can be registered as long as there is a number left for it, the last number being
/// that of the waker.
pub proof fn law_room_is_left_for_numbers(poller: Poller, res: bool)
    requires
        call_ensures(<Poller as Poll>::can_register, (&poller,), res),
    ensures
        res <==> poller.top() != 0xffff_ffff_ffff_ffff,
        poller.has_room() <==> poller.top() != 0xffff_ffff_ffff_ffff,
        forall|id: u64| #[trigger] poller.given().contains(id) <==> id < poller.top(),
{
}

} // verus!
