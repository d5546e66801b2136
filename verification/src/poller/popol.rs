//! Poll engine provided by the [`popol`] crate.

use std::collections::VecDeque;
use vstd::prelude::*;

use crate::error::{ErrorKind, IoError};
use crate::poller::{IoFail, IoType, Poll};
use crate::resource::{ResourceId, WAKER};

verus! {

/// Declares the sources which `popol` polls.
#[verifier::external_type_specification]
#[verifier::external_body]
#[verifier::reject_recursive_types(K)]
pub struct ExSources<K>(popol::Sources<K>);

/// Key, file descriptor and polled POSIX events of each source, in the order of the poll.
pub uninterp spec fn polled(sources: popol::Sources<u64>) -> Seq<(u64, i32, i16)>;

/// Whether `ix` is the first position at which a source has the given key.
pub open spec fn first_at(sources: Seq<(u64, i32, i16)>, key: u64, ix: int) -> bool {
    &&& 0 <= ix < sources.len()
    &&& sources[ix].0 == key
    &&& forall|i: int| 0 <= i < ix ==> (#[trigger] sources[i]).0 != key
}

/// Whether some source has the given key.
pub open spec fn has_key(sources: Seq<(u64, i32, i16)>, key: u64) -> bool {
    exists|ix: int| 0 <= ix < sources.len() && (#[trigger] sources[ix]).0 == key
}

/// The sequence with the element at `ix` taken out and the last element moved into its place.
pub open spec fn swap_removed(sources: Seq<(u64, i32, i16)>, ix: int) -> Seq<(u64, i32, i16)> {
    sources.update(ix, sources.last()).drop_last()
}

/// Creates sources with `popol::Sources::new`: claims that there are none.
#[verifier::external_body]
fn sources_new() -> (res: popol::Sources<u64>)
    ensures
        polled(res) == Seq::<(u64, i32, i16)>::empty(),
{
    popol::Sources::new()
}

/// Creates sources with `popol::Sources::with_capacity`: claims that there are none.
///
/// The memory for the keys, and that for the sources, of eight bytes each, is limited by the
/// address space.
#[verifier::external_body]
fn sources_with_capacity(capacity: usize) -> (res: popol::Sources<u64>)
    requires
        capacity * 8 <= isize::MAX,
    ensures
        polled(res) == Seq::<(u64, i32, i16)>::empty(),
{
    popol::Sources::with_capacity(capacity)
}

/// Registers a source with `popol::Sources::register`: claims that it is put after all the others.
#[verifier::external_body]
fn sources_register(sources: &mut popol::Sources<u64>, key: u64, fd: i32, events: i16)
    ensures
        polled(*final(sources)) == polled(*old(sources)).push((key, fd, events)),
{
    sources.register(key, &fd, events)
}

/// Unregisters a source with `popol::Sources::unregister`: claims that the first source with the
/// key is taken out, the last one moving into its place, and that nothing changes if there is none.
#[verifier::external_body]
fn sources_unregister(sources: &mut popol::Sources<u64>, key: u64)
    ensures
        forall|ix: int| #[trigger]
            first_at(polled(*old(sources)), key, ix) ==> polled(*final(sources)) == swap_removed(
                polled(*old(sources)),
                ix,
            ),
        !has_key(polled(*old(sources)), key) ==> polled(*final(sources)) == polled(*old(sources)),
{
    sources.unregister(&key)
}

/// Adds events to a source with `popol::Sources::set`: claims that the first source with the key
/// has them polled in addition, and that the result tells whether there is one.
#[verifier::external_body]
fn sources_set(sources: &mut popol::Sources<u64>, key: u64, events: i16) -> (res: bool)
    ensures
        res == has_key(polled(*old(sources)), key),
        forall|ix: int| #[trigger]
            first_at(polled(*old(sources)), key, ix) ==> polled(*final(sources)) == polled(
                *old(sources),
            ).update(
                ix,
                (
                    key,
                    polled(*old(sources))[ix].1,
                    polled(*old(sources))[ix].2 | events,
                ),
            ),
        !res ==> polled(*final(sources)) == polled(*old(sources)),
{
    sources.set(&key, events)
}

/// Removes events from a source with `popol::Sources::unset`: claims that the first source with the
/// key does not have them polled any more, and that the result tells whether there is one.
#[verifier::external_body]
fn sources_unset(sources: &mut popol::Sources<u64>, key: u64, events: i16) -> (res: bool)
    ensures
        res == has_key(polled(*old(sources)), key),
        forall|ix: int| #[trigger]
            first_at(polled(*old(sources)), key, ix) ==> polled(*final(sources)) == polled(
                *old(sources),
            ).update(
                ix,
                (
                    key,
                    polled(*old(sources))[ix].1,
                    polled(*old(sources))[ix].2 & !events,
                ),
            ),
        !res ==> polled(*final(sources)) == polled(*old(sources)),
{
    sources.unset(&key, events)
}

/// POSIX events which stand for the readiness of a source; they differ between the platforms.
#[derive(Copy, Clone, PartialEq, Eq, Debug, Structural)]
pub struct Interests {
    /// Events of a source which is not of interest.
    pub none: i16,
    /// Events of a source which is ready to be read.
    pub read: i16,
    /// Events of a source which is ready to be written.
    pub write: i16,
}

impl Interests {
    /// The two kinds of readiness have different events, at least one each.
    pub open spec fn inv(self) -> bool {
        &&& self.none == 0
        &&& self.read != 0
        &&& self.write != 0
        &&& self.read & self.write == 0
    }

    /// The POSIX events which stand for the I/O events.
    pub open spec fn bits(self, io: IoType) -> i16 {
        (if io.read {
            self.read
        } else {
            0
        }) | (if io.write {
            self.write
        } else {
            0
        })
    }

    /// The I/O events which the POSIX events stand for.
    pub open spec fn io(self, bits: i16) -> IoType {
        IoType { read: bits & self.read != 0, write: bits & self.write != 0 }
    }
}

/// Reads the constants `popol::interest::NONE`, `READ` and `WRITE`.
///
/// Claims that there are no events in the first one, and events in the two others, which have none
/// in common. Which events they are depends on the platform and is left unsaid.
#[verifier::external_body]
fn popol_interests() -> (res: Interests)
    ensures
        res.inv(),
{
    Interests {
        none: popol::interest::NONE,
        read: popol::interest::READ,
        write: popol::interest::WRITE,
    }
}

impl Interests {
    /// Turns the I/O events into the POSIX events which stand for them.
    pub fn from_io(&self, io: IoType) -> (res: i16)
        requires
            self.inv(),
        ensures
            res == self.bits(io),
    {
        let mut e: i16 = self.none;
        proof {
            let r = self.read;
            let w = self.write;
            assert((0i16 | r) | w == r | w && 0i16 | r == r | 0i16 && 0i16 | 0i16 == 0i16)
                by (bit_vector);
        }
        if io.read {
            e = e | self.read;
        }
        if io.write {
            e = e | self.write;
        }
        e
    }

    /// The POSIX events stand for just the I/O events which they were made from.
    pub proof fn law_io_of_bits(self, io: IoType)
        requires
            self.inv(),
        ensures
            self.io(self.bits(io)) == io,
    {
        let r = self.read;
        let w = self.write;
        assert((r | w) & r != 0 && (r | w) & w != 0 && (r | 0) & r != 0 && (r | 0) & w == 0 && (0i16
            | w) & w != 0 && (0i16 | w) & r == 0 && (0i16 | 0i16) & r == 0 && (0i16 | 0i16) & w
            == 0) by (bit_vector)
            requires
                r != 0,
                w != 0,
                r & w == 0,
        ;
    }

    /// Removing the events of no interest and then adding those of interest leaves just the events
    /// of interest, whichever there were before.
    proof fn lemma_interest_changed(self, was: IoType, io: IoType)
        ensures
            (self.bits(was) & !self.bits(IoType { read: !io.read, write: !io.write })) | self.bits(
                io,
            ) == self.bits(io),
    {
        let r = self.read;
        let w = self.write;
        let b = self.bits(was);
        let x = self.bits(io);
        let y = self.bits(IoType { read: !io.read, write: !io.write });
        assert((r | w) & !(r | w) == 0 && (r | 0i16) & !(r | w) == 0 && (0i16 | w) & !(r | w) == 0
            && (0i16 | 0i16) & !(r | w) == 0) by (bit_vector);
        assert((r | w) | (0i16 | 0i16) == r | w && (r | 0i16) | (0i16 | w) == r | w && (0i16 | w)
            | (r | 0i16) == r | w && (0i16 | 0i16) | (r | w) == r | w) by (bit_vector);
        assert(x | y == r | w);
        assert(b & !(x | y) == 0);
        assert((b & !y) | x == x) by (bit_vector)
            requires
                b & !(x | y) == 0,
        ;
    }
}

/// An event which the poll has generated for a source.
#[derive(Copy, Clone, PartialEq, Eq, Debug, Structural)]
pub struct PollEvent {
    /// Resource to which the source belongs.
    pub key: ResourceId,
    /// POSIX events which have fired.
    pub fired: i16,
    /// The source has been disconnected.
    pub hangup: bool,
    /// An error has occurred on the source.
    pub error: bool,
    /// The source is not valid.
    pub invalid: bool,
    /// The source is readable.
    pub readable: bool,
    /// The source is writable.
    pub writable: bool,
}

impl PollEvent {
    /// What the event means for the resource: a hangup outweighs an error, and an error outweighs
    /// the readiness for I/O.
    pub open spec fn meaning(self) -> (ResourceId, Result<IoType, IoFail>) {
        (
            self.key,
            if self.hangup {
                Err(IoFail::Connectivity(self.fired))
            } else if self.error || self.invalid {
                Err(IoFail::Os(self.fired))
            } else {
                Ok(IoType { read: self.readable, write: self.writable })
            },
        )
    }
}

/// The number of events which a poll has generated, unless it has failed: one which has timed out
/// has not.
pub open spec fn poll_result(res: Result<(), IoError>, generated: nat) -> Result<usize, IoError> {
    match res {
        Ok(()) => Ok(generated as usize),
        Err(err) => if err.kind == ErrorKind::TimedOut {
            Ok(generated as usize)
        } else {
            Err(err)
        },
    }
}

/// The events which are left once the next one was read so many times.
pub open spec fn left_after(
    pending: Seq<(ResourceId, Result<IoType, IoFail>)>,
    reads: nat,
) -> Seq<(ResourceId, Result<IoType, IoFail>)>
    decreases reads,
{
    if reads == 0 {
        pending
    } else {
        let left = left_after(pending, (reads - 1) as nat);
        if left.len() == 0 {
            left
        } else {
            left.drop_first()
        }
    }
}

/// The sources by their keys.
pub open spec fn by_key(
    sources: Seq<(u64, i32, i16)>,
    interests: Interests,
) -> Map<u64, (i32, IoType)> {
    Map::new(
        |key: u64| has_key(sources, key),
        |key: u64|
            {
                let ix = choose|ix: int|
                    0 <= ix < sources.len() && (#[trigger] sources[ix]).0 == key;
                (sources[ix].1, interests.io(sources[ix].2))
            },
    )
}

/// Whether no two sources have the same key.
pub open spec fn keys_differ(sources: Seq<(u64, i32, i16)>) -> bool {
    forall|i: int, j: int|
        0 <= i < j < sources.len() ==> (#[trigger] sources[i]).0 != (#[trigger] sources[j]).0
}

proof fn lemma_by_key(sources: Seq<(u64, i32, i16)>, interests: Interests, ix: int)
    requires
        keys_differ(sources),
        0 <= ix < sources.len(),
    ensures
        has_key(sources, sources[ix].0),
        by_key(sources, interests)[sources[ix].0] == (sources[ix].1, interests.io(sources[ix].2)),
        first_at(sources, sources[ix].0, ix),
{
    let key = sources[ix].0;
    assert(sources[ix].0 == key);
    let at = choose|at: int| 0 <= at < sources.len() && (#[trigger] sources[at]).0 == key;
    assert(at == ix);
}

/// Manager for a set of resources which are polled for an event loop by the reactor by using
/// [`popol`] library.
pub struct Poller {
    poll: popol::Sources<u64>,
    events: VecDeque<PollEvent>,
    id_top: u64,
    interests: Interests,
}

impl Poller {
    /// The sources which are polled.
    pub closed spec fn sources(self) -> Seq<(u64, i32, i16)> {
        polled(self.poll)
    }

    /// The POSIX events which are polled.
    pub closed spec fn interests(self) -> Interests {
        self.interests
    }

    /// The events which are not yet read.
    pub closed spec fn queue(self) -> Seq<PollEvent> {
        self.events@
    }

    /// The number which the next registered resource gets.
    pub closed spec fn top(self) -> u64 {
        self.id_top
    }

    /// Whether the memory for the sources and that for the events was reserved with the given
    /// capacity.
    pub closed spec fn reserved_for(self, capacity: usize) -> bool {
        &&& call_ensures(sources_with_capacity, (capacity,), self.poll)
        &&& call_ensures(VecDeque::<PollEvent>::with_capacity, (capacity,), self.events)
    }

    /// Constructs new [`popol`]-backed poll engine.
    pub fn new() -> (res: Poller)
        ensures
            res.inv(),
            res.top() == 0,
            res.registered() == Map::<u64, (i32, IoType)>::empty(),
            res.pending() == Seq::<(ResourceId, Result<IoType, IoFail>)>::empty(),
    {
        let res = Poller {
            poll: sources_new(),
            events: VecDeque::new(),
            id_top: 0,
            interests: popol_interests(),
        };
        assert(res.registered() =~= Map::empty());
        assert(res.pending() =~= Seq::empty());
        res
    }

    /// Constructs new [`popol`]-backed poll engine and reserves certain capacity for the resources
    /// which later will be registered for a poll operation.
    ///
    /// The memory for the capacity is limited by the address space.
    pub fn with_capacity(capacity: usize) -> (res: Poller)
        requires
            capacity * 16 <= isize::MAX,
        ensures
            res.inv(),
            res.reserved_for(capacity),
            res.top() == 0,
            res.registered() == Map::<u64, (i32, IoType)>::empty(),
            res.pending() == Seq::<(ResourceId, Result<IoType, IoFail>)>::empty(),
    {
        let res = Poller {
            poll: sources_with_capacity(capacity),
            events: VecDeque::with_capacity(capacity),
            id_top: 0,
            interests: popol_interests(),
        };
        assert(res.registered() =~= Map::empty());
        assert(res.pending() =~= Seq::empty());
        res
    }

    /// Takes over the outcome of a `poll` syscall: the events which it has generated and whether it
    /// has failed.
    ///
    /// # Returns
    ///
    /// Number of generated events.
    pub fn poll(&mut self, events: Vec<PollEvent>, res: Result<(), IoError>) -> (count: Result<
        usize,
        IoError,
    >)
        requires
            old(self).inv(),
        ensures
            final(self).inv(),
            final(self).sources() == old(self).sources(),
            final(self).interests() == old(self).interests(),
            final(self).top() == old(self).top(),
            final(self).queue() == old(self).queue() + events@,
            count == poll_result(res, events@.len()),
            count matches Ok(new) ==> final(self).pending().len() == old(self).pending().len() + new,
    {
        let generated = events.len();
        let mut ix: usize = 0;
        while ix < events.len()
            invariant
                ix <= events.len(),
                self.poll == old(self).poll,
                self.interests == old(self).interests,
                self.id_top == old(self).id_top,
                self.events@ == old(self).events@ + events@.take(ix as int),
            decreases events.len() - ix,
        {
            assert(events@.take(ix + 1) =~= events@.take(ix as int).push(events@[ix as int]));
            self.events.push_back(events[ix]);
            ix = ix + 1;
        }
        assert(events@.take(ix as int) =~= events@);
        match res {
            Ok(()) => Ok(generated),
            Err(err) => match err.kind {
                ErrorKind::TimedOut => Ok(generated),
                _ => Err(err),
            },
        }
    }

    /// Lends the sources for running a `poll` syscall on them.
    pub fn sources_mut(&mut self) -> (res: &mut popol::Sources<u64>)
        ensures
            polled(*res) == old(self).sources(),
            final(self).sources() == polled(*final(res)),
            final(self).interests() == old(self).interests(),
            final(self).top() == old(self).top(),
            final(self).queue() == old(self).queue(),
            old(self).inv() && polled(*final(res)) == polled(*res) ==> final(self).inv(),
    {
        &mut self.poll
    }
}

impl Default for Poller {
    fn default() -> (res: Poller)
        ensures
            res.inv(),
            res.top() == 0,
            res.registered() == Map::<u64, (i32, IoType)>::empty(),
            res.pending() == Seq::<(ResourceId, Result<IoType, IoFail>)>::empty(),
    {
        Poller::new()
    }
}

impl Poll for Poller {
    open spec fn inv(&self) -> bool {
        &&& self.interests().inv()
        &&& keys_differ(self.sources())
        &&& forall|i: int|
            0 <= i < self.sources().len() ==> {
                let source = #[trigger] self.sources()[i];
                &&& source.0 < self.top() || source.0 == WAKER
                &&& source.2 == self.interests().bits(self.interests().io(source.2))
            }
    }

    open spec fn registered(&self) -> Map<u64, (i32, IoType)> {
        by_key(self.sources(), self.interests())
    }

    open spec fn given(&self) -> Set<u64> {
        Set::new(|id: u64| id < self.top())
    }

    open spec fn has_room(&self) -> bool {
        self.top() < u64::MAX
    }

    open spec fn pending(&self) -> Seq<(ResourceId, Result<IoType, IoFail>)> {
        self.queue().map_values(|event: PollEvent| event.meaning())
    }

    fn can_register(&self) -> (res: bool) {
        self.id_top < u64::MAX
    }

    fn register_waker(&mut self, fd: i32) {
        let events = self.interests.from_io(IoType::read_only());
        sources_register(&mut self.poll, WAKER, fd, events);
        proof {
            let io = IoType { read: true, write: false };
            lemma_registered(old(self).sources(), self.interests, WAKER, fd, io);
        }
    }

    fn register(&mut self, fd: i32, interest: IoType) -> (id: ResourceId)
        ensures
            id.0 == old(self).top(),
            final(self).top() == old(self).top() + 1,
            final(self).sources() == old(self).sources().push(
                (id.0, fd, old(self).interests().bits(interest)),
            ),
            final(self).interests() == old(self).interests(),
            final(self).queue() == old(self).queue(),
    {
        let id = self.id_top;
        self.id_top = self.id_top + 1;
        let events = self.interests.from_io(interest);
        sources_register(&mut self.poll, id, fd, events);
        proof {
            lemma_registered(old(self).sources(), self.interests, id, fd, interest);
            assert(self.given() =~= old(self).given().insert(id));
        }
        ResourceId(id)
    }

    fn unregister(&mut self, id: ResourceId) {
        sources_unregister(&mut self.poll, id.0);
        proof {
            let before = old(self).sources();
            if has_key(before, id.0) {
                let ix = choose|ix: int|
                    0 <= ix < before.len() && (#[trigger] before[ix]).0 == id.0;
                lemma_by_key(before, self.interests, ix);
                lemma_unregistered(before, self.interests, ix);
            } else {
                assert(self.registered() =~= old(self).registered().remove(id.0));
            }
        }
    }

    fn set_interest(&mut self, id: ResourceId, interest: IoType) -> (res: bool) {
        let removed = self.interests.from_io(std::ops::Not::not(interest));
        let added = self.interests.from_io(interest);
        sources_unset(&mut self.poll, id.0, removed);
        let ghost between = self.sources();
        let res = sources_set(&mut self.poll, id.0, added);
        proof {
            let before = old(self).sources();
            if has_key(before, id.0) {
                let ix = choose|ix: int|
                    0 <= ix < before.len() && (#[trigger] before[ix]).0 == id.0;
                lemma_by_key(before, self.interests, ix);
                assert(between[ix].0 == id.0);
                lemma_by_key(between, self.interests, ix);
                self.interests.lemma_interest_changed(self.interests.io(before[ix].2), interest);
                lemma_reset(before, self.interests, ix, interest);
                assert(self.sources() =~= before.update(
                    ix,
                    (id.0, before[ix].1, self.interests.bits(interest)),
                ));
            }
        }
        res
    }

    fn next(&mut self) -> (res: Option<(ResourceId, Result<IoType, IoFail>)>)
        ensures
            final(self).queue() == if old(self).queue().len() == 0 {
                old(self).queue()
            } else {
                old(self).queue().drop_first()
            },
            final(self).sources() == old(self).sources(),
            final(self).interests() == old(self).interests(),
            final(self).top() == old(self).top(),
    {
        let event = match self.events.pop_front() {
            Some(event) => event,
            None => return None,
        };
        let id = event.key;
        let fired = event.fired;
        let res = if event.hangup {
            Err(IoFail::Connectivity(fired))
        } else if event.error || event.invalid {
            Err(IoFail::Os(fired))
        } else {
            Ok(IoType { read: event.readable, write: event.writable })
        };
        assert(self.pending() =~= old(self).pending().drop_first());
        Some((id, res))
    }
}

proof fn lemma_registered(
    sources: Seq<(u64, i32, i16)>,
    interests: Interests,
    key: u64,
    fd: i32,
    io: IoType,
)
    requires
        interests.inv(),
        keys_differ(sources),
        !has_key(sources, key),
    ensures
        keys_differ(sources.push((key, fd, interests.bits(io)))),
        by_key(sources.push((key, fd, interests.bits(io))), interests) == by_key(
            sources,
            interests,
        ).insert(key, (fd, io)),
        interests.io(interests.bits(io)) == io,
{
    let after = sources.push((key, fd, interests.bits(io)));
    interests.law_io_of_bits(io);
    assert forall|i: int, j: int| 0 <= i < j < after.len() implies (#[trigger] after[i]).0 != (
    #[trigger] after[j]).0 by {
        assert(after[i] == sources[i]);
    }
    lemma_by_key(after, interests, sources.len() as int);
    assert forall|k: u64|
        has_key(after, k) <==> has_key(sources, k) || k == key by {
        if has_key(sources, k) {
            let ix = choose|ix: int| 0 <= ix < sources.len() && (#[trigger] sources[ix]).0 == k;
            assert(after[ix].0 == k);
        }
        if has_key(after, k) {
            let ix = choose|ix: int| 0 <= ix < after.len() && (#[trigger] after[ix]).0 == k;
            if ix < sources.len() {
                assert(sources[ix].0 == k);
            }
        }
    }
    assert forall|k: u64| has_key(sources, k) implies by_key(after, interests)[k] == by_key(
        sources,
        interests,
    )[k] by {
        let ix = choose|ix: int| 0 <= ix < sources.len() && (#[trigger] sources[ix]).0 == k;
        lemma_by_key(sources, interests, ix);
        lemma_by_key(after, interests, ix);
    }
    assert(by_key(after, interests) =~= by_key(sources, interests).insert(key, (fd, io)));
}

proof fn lemma_unregistered(sources: Seq<(u64, i32, i16)>, interests: Interests, ix: int)
    requires
        keys_differ(sources),
        0 <= ix < sources.len(),
    ensures
        keys_differ(swap_removed(sources, ix)),
        by_key(swap_removed(sources, ix), interests) == by_key(sources, interests).remove(
            sources[ix].0,
        ),
        forall|i: int|
            0 <= i < swap_removed(sources, ix).len() ==> sources.contains(
                #[trigger] swap_removed(sources, ix)[i],
            ),
{
    let after = swap_removed(sources, ix);
    let key = sources[ix].0;
    let last = sources.len() - 1;
    assert forall|k: u64|
        has_key(after, k) <==> has_key(sources, k) && k != key by {
        if has_key(sources, k) && k != key {
            let at = choose|at: int| 0 <= at < sources.len() && (#[trigger] sources[at]).0 == k;
            if at == last {
                assert(after[ix].0 == k);
            } else {
                assert(after[at].0 == k);
            }
        }
        if has_key(after, k) {
            let at = choose|at: int| 0 <= at < after.len() && (#[trigger] after[at]).0 == k;
            if at == ix {
                assert(sources[last].0 == k);
            } else {
                assert(sources[at].0 == k);
            }
        }
    }
    assert forall|k: u64| has_key(after, k) implies by_key(after, interests)[k] == by_key(
        sources,
        interests,
    )[k] by {
        let at = choose|at: int| 0 <= at < after.len() && (#[trigger] after[at]).0 == k;
        lemma_by_key(after, interests, at);
        if at == ix {
            lemma_by_key(sources, interests, last);
        } else {
            lemma_by_key(sources, interests, at);
        }
    }
    assert(by_key(after, interests) =~= by_key(sources, interests).remove(key));
}

proof fn lemma_reset(sources: Seq<(u64, i32, i16)>, interests: Interests, ix: int, io: IoType)
    requires
        interests.inv(),
        keys_differ(sources),
        0 <= ix < sources.len(),
    ensures
        ({
            let key = sources[ix].0;
            let after = sources.update(ix, (key, sources[ix].1, interests.bits(io)));
            &&& keys_differ(after)
            &&& by_key(after, interests) == by_key(sources, interests).insert(
                key,
                (sources[ix].1, io),
            )
        }),
        interests.io(interests.bits(io)) == io,
{
    let key = sources[ix].0;
    let after = sources.update(ix, (key, sources[ix].1, interests.bits(io)));
    interests.law_io_of_bits(io);
    assert(keys_differ(after));
    lemma_by_key(after, interests, ix);
    assert forall|k: u64| has_key(after, k) <==> has_key(sources, k) by {
        if has_key(sources, k) {
            let at = choose|at: int| 0 <= at < sources.len() && (#[trigger] sources[at]).0 == k;
            assert(after[at].0 == k);
        }
        if has_key(after, k) {
            let at = choose|at: int| 0 <= at < after.len() && (#[trigger] after[at]).0 == k;
            assert(sources[at].0 == k);
        }
    }
    assert forall|k: u64| has_key(sources, k) && k != key implies by_key(after, interests)[k]
        == by_key(sources, interests)[k] by {
        let at = choose|at: int| 0 <= at < sources.len() && (#[trigger] sources[at]).0 == k;
        lemma_by_key(sources, interests, at);
        lemma_by_key(after, interests, at);
    }
    lemma_by_key(sources, interests, ix);
    assert(by_key(after, interests) =~= by_key(sources, interests).insert(
        key,
        (sources[ix].1, io),
    ));
}

/// The number which a poll returns is that of the events which it has generated: reading them gives
/// all the events which were not yet read, in their order, then just so many new ones, in theirs,
/// and then nothing.
pub proof fn law_poll_returns_number_of_events(
    before: Poller,
    after: Poller,
    events: Seq<PollEvent>,
    res: Result<(), IoError>,
    new: usize,
    reads: nat,
)
    requires
        events.len() <= usize::MAX,
        after.queue() == before.queue() + events,
        poll_result(res, events.len()) == Ok::<usize, IoError>(new),
    ensures
        ({
            let left = left_after(after.pending(), reads);
            let waiting = before.pending().len();
            if reads < waiting {
                left.len() > 0 && left[0] == before.pending()[reads as int]
            } else if reads < waiting + new {
                left.len() > 0 && left[0] == events[reads - waiting].meaning()
            } else {
                left.len() == 0
            }
        }),
{
    assert(after.pending() =~= before.pending() + events.map_values(
        |event: PollEvent| event.meaning(),
    ));
    lemma_left_after(after.pending(), reads);
}

proof fn lemma_left_after(pending: Seq<(ResourceId, Result<IoType, IoFail>)>, reads: nat)
    ensures
        reads <= pending.len() ==> left_after(pending, reads) == pending.skip(reads as int),
        reads > pending.len() ==> left_after(pending, reads).len() == 0,
    decreases reads,
{
    if reads == 0 {
        assert(pending.skip(0) =~= pending);
    } else {
        lemma_left_after(pending, (reads - 1) as nat);
        if reads <= pending.len() {
            assert(pending.skip(reads - 1).drop_first() =~= pending.skip(reads as int));
        }
    }
}

} // verus!
