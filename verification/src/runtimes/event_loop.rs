//! Event loop of a reactor.

use vstd::prelude::*;

use crate::duration::Duration;
use crate::error::IoError;
use crate::poller::Poll;
use crate::runtimes::{Failure, Performed, ReactorRuntime, Received};
use crate::timeouts::Timestamp;

verus! {

/// Position of the reactor within a turn of its event loop.
#[derive(Copy, Clone, Debug)]
pub enum Phase {
    /// Start of a turn.
    Start,
    /// The interests of the resources are told to the poll engine.
    Prepare {
        /// Moment before the poll.
        time: Timestamp,
    },
    /// The poll.
    Poll {
        /// The time for which to poll at most.
        timeout: Duration,
    },
    /// The poll is done.
    Polled,
    /// The outcome of the poll is handled.
    Finish {
        /// Moment after the poll.
        now: Timestamp,
    },
    /// The events of the poll are handled.
    Events {
        /// Moment after the poll.
        now: Timestamp,
    },
    /// The commands are received.
    Commands {
        /// Moment after the poll.
        now: Timestamp,
    },
    /// The actions of the service are handled.
    Actions {
        /// Moment after the poll.
        now: Timestamp,
        /// Whether the reactor must proceed operating.
        proceed: bool,
    },
    /// The event loop is left.
    Stop,
    /// The reactor can't go on.
    Broken(Failure),
}

/// Outcome of the work which is done in a phase.
#[derive(Copy, Clone, Debug)]
pub enum Reply {
    /// The reading of the system clock, unless it is before the UNIX epoch.
    Clock(Option<Timestamp>),
    /// The time for which to poll at most, unless it is out of range.
    Timeout(Option<Duration>),
    /// The poll is done.
    Polled,
    /// The number of the removed timeouts.
    Finished(usize),
    /// The events are handled; tells whether the reactor was awoken.
    Handled(Result<bool, Failure>),
    /// What has become of an attempt to receive a command.
    Received(Received),
    /// What has become of an action of the service.
    Performed(Performed),
}

impl Reply {
    /// Whether an action of the service was handled without revealing that the reactor can't go
    /// on.
    pub open spec fn is_action_done(self) -> bool {
        self matches Reply::Performed(performed) && (performed is Proceed || performed is Failed)
    }
}

impl Phase {
    /// Whether the reply is the outcome of the work which is to be done in the phase.
    pub open spec fn accepts(self, reply: Reply) -> bool {
        match self {
            Phase::Start | Phase::Polled => reply is Clock,
            Phase::Prepare { .. } => reply is Timeout,
            Phase::Poll { .. } => reply is Polled,
            Phase::Finish { .. } => reply is Finished,
            Phase::Events { .. } => reply is Handled,
            Phase::Commands { .. } => reply is Received,
            Phase::Actions { .. } => reply is Performed,
            Phase::Stop | Phase::Broken(_) => false,
        }
    }

    /// The phase which follows once the work is done.
    pub open spec fn after(self, reply: Reply) -> Phase {
        match (self, reply) {
            (_, Reply::Clock(None)) => Phase::Broken(Failure::SystemTime),
            (Phase::Start, Reply::Clock(Some(time))) => Phase::Prepare { time },
            (_, Reply::Clock(Some(now))) => Phase::Finish { now },
            (_, Reply::Timeout(None)) => Phase::Broken(Failure::TimeOverflow),
            (_, Reply::Timeout(Some(timeout))) => Phase::Poll { timeout },
            (_, Reply::Polled) => Phase::Polled,
            (Phase::Finish { now }, Reply::Finished(_)) => Phase::Events { now },
            (_, Reply::Handled(Err(failure))) => Phase::Broken(failure),
            (Phase::Events { now }, Reply::Handled(Ok(awoken))) => if awoken {
                Phase::Commands { now }
            } else {
                Phase::Actions { now, proceed: true }
            },
            (_, Reply::Received(Received::Disconnected)) => Phase::Broken(Failure::ControlChannel),
            (_, Reply::Received(Received::Shutdown)) => Phase::Stop,
            (Phase::Commands { now }, Reply::Received(Received::Command)) => Phase::Commands {
                now,
            },
            (Phase::Commands { now }, Reply::Received(Received::Drained)) => Phase::Actions {
                now,
                proceed: true,
            },
            (_, Reply::Performed(Performed::Broken(failure))) => Phase::Broken(failure),
            (Phase::Actions { now, proceed }, Reply::Performed(Performed::Proceed(ret))) =>
                Phase::Actions { now, proceed: proceed && ret },
            (Phase::Actions { now, proceed }, Reply::Performed(Performed::Failed)) =>
                Phase::Actions { now, proceed },
            (Phase::Actions { proceed, .. }, Reply::Performed(Performed::Drained)) => if proceed {
                Phase::Start
            } else {
                Phase::Stop
            },
            _ => self,
        }
    }

    /// The phase which follows once the work is done.
    fn next(self, reply: Reply) -> (res: Phase)
        requires
            self.accepts(reply),
        ensures
            res == self.after(reply),
    {
        match (self, reply) {
            (Phase::Start, Reply::Clock(Some(time))) => Phase::Prepare { time },
            (Phase::Prepare { .. }, Reply::Timeout(Some(timeout))) => Phase::Poll { timeout },
            (Phase::Poll { .. }, Reply::Polled) => Phase::Polled,
            (Phase::Polled, Reply::Clock(Some(now))) => Phase::Finish { now },
            (Phase::Finish { now }, Reply::Finished(_)) => Phase::Events { now },
            // The commands are processed only if the reactor was awoken by the waker.
            (Phase::Events { now }, Reply::Handled(Ok(true))) => Phase::Commands { now },
            (Phase::Events { now }, Reply::Handled(Ok(false))) => Phase::Actions {
                now,
                proceed: true,
            },
            (Phase::Commands { now }, Reply::Received(received)) => match received {
                Received::Command => Phase::Commands { now },
                Received::Drained => Phase::Actions { now, proceed: true },
                Received::Shutdown => Phase::Stop,
                Received::Disconnected => Phase::Broken(Failure::ControlChannel),
            },
            (Phase::Actions { now, proceed }, Reply::Performed(performed)) => match performed {
                Performed::Proceed(ret) => Phase::Actions { now, proceed: proceed && ret },
                Performed::Failed => Phase::Actions { now, proceed },
                Performed::Drained => if proceed {
                    Phase::Start
                } else {
                    Phase::Stop
                },
                Performed::Broken(failure) => Phase::Broken(failure),
            },
            (_, Reply::Clock(None)) => Phase::Broken(Failure::SystemTime),
            (_, Reply::Timeout(None)) => Phase::Broken(Failure::TimeOverflow),
            (_, Reply::Handled(Err(failure))) => Phase::Broken(failure),
            (phase, _) => phase,
        }
    }
}

/// The event loop of a reactor.
///
/// All the work of the reactor but the `poll` syscall is done by [`EventLoop::perform`]; the
/// syscall is left to the driver.
#[derive(Debug)]
pub struct EventLoop {
    phase: Phase,
    polled: Result<usize, IoError>,
}

impl View for EventLoop {
    type V = Phase;

    closed spec fn view(&self) -> Phase {
        self.phase
    }
}

impl EventLoop {
    /// Outcome of the last poll.
    pub closed spec fn outcome(self) -> Result<usize, IoError> {
        self.polled
    }

    /// Creates the event loop which is about to start its first turn.
    pub fn new() -> (res: EventLoop)
        ensures
            res@ == Phase::Start,
    {
        EventLoop { phase: Phase::Start, polled: Ok(0) }
    }

    /// Position within the turn.
    pub fn phase(&self) -> (phase: Phase)
        ensures
            phase == self@,
    {
        self.phase
    }

    /// Goes on once the poll is done, with its outcome.
    pub fn finish(&mut self, res: Result<usize, IoError>)
        requires
            old(self)@ is Poll,
        ensures
            final(self)@ == old(self)@.after(Reply::Polled),
            final(self).outcome() == res,
    {
        self.phase = self.phase.next(Reply::Polled);
        self.polled = res;
    }

    /// Does the work of the current phase, which is not the poll, and goes on with its outcome.
    pub fn perform<P: Poll, R: ReactorRuntime<P>>(&mut self, runtime: &mut R)
        requires
            old(runtime).inv(),
            !(old(self)@ is Poll || old(self)@ is Stop || old(self)@ is Broken),
        ensures
            final(runtime).inv(),
            !(old(self)@ is Finish) ==> final(self).outcome() == old(self).outcome(),
            match old(self)@ {
                Phase::Start | Phase::Polled => exists|time: Option<Timestamp>|
                    {
                        &&& #[trigger] call_ensures(Timestamp::now, (), time)
                        &&& *final(runtime) == *old(runtime)
                        &&& final(self)@ == old(self)@.after(Reply::Clock(time))
                    },
                Phase::Prepare { time } => exists|prepared: &mut R, timeout: Option<Duration>|
                    {
                        &&& *prepared == *old(runtime)
                        &&& *final(prepared) == *final(runtime)
                        &&& #[trigger] call_ensures(R::prepare_poll, (prepared, time), timeout)
                        &&& final(self)@ == old(self)@.after(Reply::Timeout(timeout))
                    },
                Phase::Finish { now } => exists|finished: &mut R, fired: usize|
                    {
                        &&& *finished == *old(runtime)
                        &&& *final(finished) == *final(runtime)
                        &&& #[trigger] call_ensures(
                            R::finish_poll,
                            (finished, now, old(self).outcome()),
                            fired,
                        )
                        &&& final(self)@ == old(self)@.after(Reply::Finished(fired))
                    },
                Phase::Events { now } => exists|handled: &mut R, awoken: Result<bool, Failure>|
                    {
                        &&& *handled == *old(runtime)
                        &&& *final(handled) == *final(runtime)
                        &&& #[trigger] call_ensures(R::handle_events, (handled, now), awoken)
                        &&& final(self)@ == old(self)@.after(Reply::Handled(awoken))
                    },
                Phase::Commands { .. } => exists|told: &mut R, received: Received|
                    {
                        &&& *told == *old(runtime)
                        &&& *final(told) == *final(runtime)
                        &&& #[trigger] call_ensures(R::receive_command, (told,), received)
                        &&& final(self)@ == old(self)@.after(Reply::Received(received))
                    },
                Phase::Actions { now, .. } => exists|acted: &mut R, performed: Performed|
                    {
                        &&& *acted == *old(runtime)
                        &&& *final(acted) == *final(runtime)
                        &&& #[trigger] call_ensures(R::handle_next_action, (acted, now), performed)
                        &&& final(self)@ == old(self)@.after(Reply::Performed(performed))
                    },
                _ => false,
            },
    {
        let reply = match self.phase {
            Phase::Start | Phase::Polled => Reply::Clock(Timestamp::now()),
            Phase::Prepare { time } => Reply::Timeout(runtime.prepare_poll(time)),
            Phase::Finish { now } => {
                let mut polled = Ok(0);
                std::mem::swap(&mut polled, &mut self.polled);
                Reply::Finished(runtime.finish_poll(now, polled))
            },
            Phase::Events { now } => Reply::Handled(runtime.handle_events(now)),
            Phase::Commands { .. } => Reply::Received(runtime.receive_command()),
            Phase::Actions { now, .. } => Reply::Performed(runtime.handle_next_action(now)),
            Phase::Poll { .. } | Phase::Stop | Phase::Broken(_) => return,
        };
        self.phase = self.phase.next(reply);
    }
}

/// The phase in which the event loop is after the work with the given outcomes.
pub open spec fn run(phase: Phase, replies: Seq<Reply>) -> Phase
    decreases replies.len(),
{
    if replies.len() == 0 {
        phase
    } else {
        run(phase.after(replies.first()), replies.drop_first())
    }
}

impl Phase {
    /// Place of the phase in the order in which a turn goes through them.
    pub open spec fn place(self) -> int {
        match self {
            Phase::Start => 0,
            Phase::Prepare { .. } => 1,
            Phase::Poll { .. } => 2,
            Phase::Polled => 3,
            Phase::Finish { .. } => 4,
            Phase::Events { .. } => 5,
            Phase::Commands { .. } => 6,
            Phase::Actions { .. } => 7,
            Phase::Stop => 8,
            Phase::Broken(_) => 9,
        }
    }

    /// The moment after the poll, once it is known.
    pub open spec fn moment(self) -> Option<Timestamp> {
        match self {
            Phase::Finish { now } => Some(now),
            Phase::Events { now } => Some(now),
            Phase::Commands { now } => Some(now),
            Phase::Actions { now, .. } => Some(now),
            _ => None,
        }
    }
}

/// A turn goes through its phases in order: none is repeated, apart from the receiving of the
/// commands and the handling of the actions, and none is skipped, apart from the receiving of the
/// commands, as long as the reactor goes on. The next turn starts only after the handling of the
/// actions.
pub proof fn law_turn_is_ordered(phase: Phase, reply: Reply)
    requires
        phase.accepts(reply),
    ensures
        ({
            let next = phase.after(reply);
            ||| next is Broken
            ||| next is Stop && (phase is Commands || phase is Actions)
            ||| next is Start && phase is Actions
            ||| next is Commands && phase is Commands
            ||| next is Actions && phase is Actions
            ||| next is Actions && phase is Events
            ||| next.place() == phase.place() + 1
        }),
{
}

/// All the work after the poll of a turn is done with the same moment.
pub proof fn law_moment_is_kept(phase: Phase, reply: Reply)
    requires
        phase.accepts(reply),
        phase.moment() is Some,
    ensures
        phase.after(reply).moment() is Some ==> phase.after(reply).moment() == phase.moment(),
{
}

/// The commands are received only if the reactor was awoken by the waker.
pub proof fn law_commands_only_if_awoken(phase: Phase, reply: Reply)
    requires
        phase.accepts(reply),
        phase !is Commands,
    ensures
        phase.after(reply) is Commands <==> reply == Reply::Handled(Ok(true)),
{
}

/// Once the event loop is left, or the reactor can't go on, no work is left to do.
pub proof fn law_end_is_final(phase: Phase, reply: Reply)
    requires
        phase is Stop || phase is Broken,
    ensures
        !phase.accepts(reply),
{
}

/// The reactor can't go on just if the work has revealed a failure, which is told.
pub proof fn law_only_failures_break(phase: Phase, reply: Reply, failure: Failure)
    requires
        phase.accepts(reply),
    ensures
        phase.after(reply) == Phase::Broken(failure) <==> match reply {
            Reply::Clock(time) => time is None && failure is SystemTime,
            Reply::Timeout(timeout) => timeout is None && failure is TimeOverflow,
            Reply::Polled | Reply::Finished(_) => false,
            Reply::Handled(awoken) => awoken == Err::<bool, Failure>(failure),
            Reply::Received(received) => received is Disconnected && failure is ControlChannel,
            Reply::Performed(performed) => performed == Performed::Broken(failure),
        },
{
}

/// The commands are received one after another until there are no more of them, or until the
/// request for shutting down is received, upon which the event loop is left without any further
/// work.
pub proof fn law_commands_are_drained(now: Timestamp, replies: Seq<Reply>, last: Received)
    requires
        forall|i: int|
            0 <= i < replies.len() ==> #[trigger] replies[i] == Reply::Received(Received::Command),
    ensures
        run(Phase::Commands { now }, replies.push(Reply::Received(last))) == match last {
            Received::Command => Phase::Commands { now },
            Received::Drained => Phase::Actions { now, proceed: true },
            Received::Shutdown => Phase::Stop,
            Received::Disconnected => Phase::Broken(Failure::ControlChannel),
        },
    decreases replies.len(),
{
    let all = replies.push(Reply::Received(last));
    reveal_with_fuel(run, 2);
    if replies.len() > 0 {
        assert(all.first() == replies[0]);
        assert(all.drop_first() =~= replies.drop_first().push(Reply::Received(last)));
        law_commands_are_drained(now, replies.drop_first(), last);
    } else {
        assert(all.first() == Reply::Received(last));
        assert(all.drop_first() =~= Seq::empty());
    }
}

/// All the actions of a turn are handled, and then the event loop is left if and only if one of
/// them has told to terminate.
pub proof fn law_termination_is_graceful(now: Timestamp, proceed: bool, replies: Seq<Reply>)
    requires
        forall|i: int|
            0 <= i < replies.len() ==> (#[trigger] replies[i]).is_action_done(),
    ensures
        run(
            Phase::Actions { now, proceed },
            replies.push(Reply::Performed(Performed::Drained)),
        ) == if !proceed || replies.contains(Reply::Performed(Performed::Proceed(false))) {
            Phase::Stop
        } else {
            Phase::Start
        },
    decreases replies.len(),
{
    let drained = Reply::Performed(Performed::Drained);
    let terminate = Reply::Performed(Performed::Proceed(false));
    let all = replies.push(drained);
    reveal_with_fuel(run, 2);
    if replies.len() > 0 {
        let rest = replies.drop_first();
        assert(all.first() == replies[0]);
        assert(all.drop_first() =~= rest.push(drained));
        assert forall|i: int| 0 <= i < rest.len() implies (#[trigger] rest[i]).is_action_done() by {
            assert(rest[i] == replies[i + 1]);
        }
        let ret = replies[0] != terminate;
        law_termination_is_graceful(now, proceed && ret, rest);
        assert(replies.contains(terminate) <==> replies[0] == terminate || rest.contains(
            terminate,
        )) by {
            if rest.contains(terminate) {
                let i = choose|i: int| 0 <= i < rest.len() && rest[i] == terminate;
                assert(replies[i + 1] == terminate);
            }
            if replies.contains(terminate) && replies[0] != terminate {
                let i = choose|i: int| 0 <= i < replies.len() && replies[i] == terminate;
                assert(rest[i - 1] == terminate);
            }
        }
    } else {
        assert(all.first() == drained);
        assert(all.drop_first() =~= Seq::empty());
    }
}

} // verus!
