use io_reactor::poller::popol::{PollEvent, Poller};
use io_reactor::poller::{IoType, Poll, Waker, WakerRecv, WakerSend};
use io_reactor::runtimes::net::{Action, Error, Handler, Runtime};
use io_reactor::runtimes::{self, Ctl, EventLoop, Failure, Phase};
use io_reactor::{
    Controller, Duration, ErrorKind, Io, IoError, ReactorHandler, ReactorRuntime, Resource,
    ResourceId, ResourceType, Timestamp, WriteAtomic,
};

#[derive(Clone)]
struct Bell;

impl Waker for Bell {
    type Send = Bell;
    type Recv = Bell;

    fn pair() -> Result<(Bell, Bell), IoError> {
        Ok((Bell, Bell))
    }
}

impl WakerSend for Bell {
    fn wake(&self) -> Result<(), IoError> {
        Ok(())
    }
}

impl WakerRecv for Bell {
    fn as_raw_fd(&self) -> i32 {
        99
    }

    fn reset(&mut self) {}
}

struct Res;

impl WriteAtomic for Res {
    fn is_ready_to_write(&self) -> bool {
        true
    }

    fn empty_write_buf(&mut self) -> Result<bool, IoError> {
        Ok(true)
    }

    fn write_or_buf(&mut self, _buf: &[u8]) -> Result<(), IoError> {
        Ok(())
    }
}

impl Resource for Res {
    type Event = ();

    fn as_raw_fd(&self) -> i32 {
        1
    }

    fn interests(&self) -> IoType {
        IoType::read_write()
    }

    fn handle_io(&mut self, _io: Io) -> Option<()> {
        None
    }
}

/// Sets a timer of 3 milliseconds again and again, starting on a command.
#[derive(Default)]
struct Service {
    set_timer: bool,
    terminate_after: Option<usize>,
    timers: usize,
    log: Vec<String>,
}

impl Iterator for Service {
    type Item = Action<Res, Res>;

    fn next(&mut self) -> Option<Action<Res, Res>> {
        if self.terminate_after == Some(self.timers) {
            self.terminate_after = None;
            Some(Action::Terminate)
        } else if self.set_timer {
            self.set_timer = false;
            self.log.push("set timer".to_string());
            Some(Action::SetTimer(Duration::from_millis(3)))
        } else {
            None
        }
    }
}

impl ReactorHandler for Service {
    type Command = usize;
    type Action = Action<Res, Res>;
    type Error = Error<Res, Res>;

    fn handle_error(&mut self, err: runtimes::Error<Error<Res, Res>>) {
        match err {
            runtimes::Error::Poll(err) => self.log.push(format!("poll error {:?}", err.kind)),
            runtimes::Error::Handler(_) => panic!("no resources"),
        }
    }

    fn tick(&mut self, _time: Timestamp) {
        self.log.push("tick".to_string());
    }

    fn handle_timer(&mut self) {
        self.log.push("timer".to_string());
        self.timers += 1;
        self.set_timer = true;
    }

    fn handle_command(&mut self, cmd: usize) {
        self.log.push(format!("command {cmd}"));
        self.terminate_after = Some(cmd);
        self.set_timer = true;
    }
}

impl Handler for Service {
    type Listener = Res;
    type Transport = Res;

    fn handle_listener_event(&mut self, _fd: i32, _id: ResourceId, _event: (), _time: Timestamp) {
        unreachable!()
    }

    fn handle_transport_event(&mut self, _fd: i32, _id: ResourceId, _event: (), _time: Timestamp) {
        unreachable!()
    }

    fn handle_registered(&mut self, _fd: i32, _id: ResourceId, _ty: ResourceType) {}

    fn handover_listener(&mut self, _id: ResourceId, _listener: Res) {
        unreachable!()
    }

    fn handover_transport(&mut self, _id: ResourceId, _transport: Res) {
        unreachable!()
    }
}

type NetRuntime = Runtime<Service, Poller, Bell>;

fn setup() -> (NetRuntime, Controller<usize, Bell>) {
    let (ctl_send, ctl_recv) = crossbeam_channel::unbounded::<Ctl<usize>>();
    let controller = Controller::new(ctl_send, Bell);
    let runtime = Runtime::with(
        Service::default(),
        Poller::new(),
        controller.clone(),
        ctl_recv,
        Bell,
    );
    (runtime, controller)
}

fn log(runtime: &mut NetRuntime) -> Vec<String> {
    std::mem::take(&mut runtime.service().log)
}

fn awoken() -> Vec<PollEvent> {
    vec![PollEvent {
        key: ResourceId::waker(),
        fired: 1,
        hangup: false,
        error: false,
        invalid: false,
        readable: true,
        writable: false,
    }]
}

/// Goes through a turn until the poll, or to the end.
fn until_poll(event_loop: &mut EventLoop, runtime: &mut NetRuntime) -> Option<Duration> {
    loop {
        match event_loop.phase() {
            Phase::Poll { timeout } => return Some(timeout),
            Phase::Stop => return None,
            Phase::Broken(failure) => panic!("{failure:?}"),
            _ => event_loop.perform(runtime),
        }
    }
}

fn polled(
    event_loop: &mut EventLoop,
    runtime: &mut NetRuntime,
    events: Vec<PollEvent>,
    res: Result<(), ErrorKind>,
) {
    let res = runtime.poller().poll(events, res.map_err(IoError::new));
    event_loop.finish(res);
}

#[test]
fn phases_of_a_turn() {
    let (mut runtime, controller) = setup();
    let mut event_loop = EventLoop::new();
    assert!(matches!(event_loop.phase(), Phase::Start));
    event_loop.perform(&mut runtime);
    let before = match event_loop.phase() {
        Phase::Prepare { time } => time,
        _ => panic!("the poll must be prepared"),
    };
    event_loop.perform(&mut runtime);
    match event_loop.phase() {
        Phase::Poll { timeout } => assert_eq!(timeout, Duration::from_secs(3600)),
        _ => panic!("the poll must follow"),
    }
    assert!(controller.cmd(1).is_ok());
    polled(&mut event_loop, &mut runtime, awoken(), Ok(()));
    assert!(matches!(event_loop.phase(), Phase::Polled));
    event_loop.perform(&mut runtime);
    let after = match event_loop.phase() {
        Phase::Finish { now } => now,
        _ => panic!("the outcome of the poll must be handled"),
    };
    assert!(after >= before);
    event_loop.perform(&mut runtime);
    assert_eq!(log(&mut runtime), vec!["tick"]);
    assert!(matches!(event_loop.phase(), Phase::Events { now } if now == after));
    event_loop.perform(&mut runtime);
    assert!(matches!(event_loop.phase(), Phase::Commands { now } if now == after));
    event_loop.perform(&mut runtime);
    assert!(matches!(event_loop.phase(), Phase::Commands { now } if now == after));
    assert_eq!(log(&mut runtime), vec!["command 1"]);
    event_loop.perform(&mut runtime);
    assert!(matches!(event_loop.phase(), Phase::Actions { now, proceed: true } if now == after));
    event_loop.perform(&mut runtime);
    assert!(matches!(event_loop.phase(), Phase::Actions { now, proceed: true } if now == after));
    assert_eq!(log(&mut runtime), vec!["set timer"]);
    event_loop.perform(&mut runtime);
    assert!(matches!(event_loop.phase(), Phase::Start));
}

#[test]
fn commands_only_if_awoken() {
    let (mut runtime, controller) = setup();
    let mut event_loop = EventLoop::new();
    assert!(controller.cmd(7).is_ok());
    assert!(until_poll(&mut event_loop, &mut runtime).is_some());
    polled(&mut event_loop, &mut runtime, vec![], Ok(()));
    assert!(until_poll(&mut event_loop, &mut runtime).is_some());
    assert_eq!(log(&mut runtime), vec!["tick"]);
    polled(&mut event_loop, &mut runtime, awoken(), Ok(()));
    assert!(until_poll(&mut event_loop, &mut runtime).is_some());
    assert_eq!(log(&mut runtime), vec!["tick", "command 7", "set timer"]);
}

#[test]
fn shutdown_leaves_at_once() {
    let (mut runtime, controller) = setup();
    let mut event_loop = EventLoop::new();
    assert!(controller.cmd(7).is_ok());
    assert!(controller.shutdown().is_ok());
    assert!(until_poll(&mut event_loop, &mut runtime).is_some());
    polled(&mut event_loop, &mut runtime, awoken(), Ok(()));
    assert_eq!(until_poll(&mut event_loop, &mut runtime), None);
    // The action which follows the command is not handled any more.
    assert_eq!(log(&mut runtime), vec!["tick", "command 7"]);
}

#[test]
fn failed_poll_is_reported() {
    let (mut runtime, _controller) = setup();
    let mut event_loop = EventLoop::new();
    assert!(until_poll(&mut event_loop, &mut runtime).is_some());
    polled(&mut event_loop, &mut runtime, vec![], Err(ErrorKind::Other));
    assert!(until_poll(&mut event_loop, &mut runtime).is_some());
    assert_eq!(log(&mut runtime), vec!["tick", "poll error Other"]);
    polled(&mut event_loop, &mut runtime, vec![], Err(ErrorKind::TimedOut));
    assert!(until_poll(&mut event_loop, &mut runtime).is_some());
    assert_eq!(log(&mut runtime), vec!["tick"]);
}

#[test]
fn unknown_resource_breaks() {
    let (mut runtime, _controller) = setup();
    let mut event_loop = EventLoop::new();
    assert!(until_poll(&mut event_loop, &mut runtime).is_some());
    let mut events = awoken();
    events[0].key = ResourceId(5);
    polled(&mut event_loop, &mut runtime, events, Ok(()));
    while !matches!(event_loop.phase(), Phase::Broken(_)) {
        event_loop.perform(&mut runtime);
    }
    assert!(matches!(
        event_loop.phase(),
        Phase::Broken(Failure::UnknownResource(ResourceId(5)))
    ));
}

#[test]
fn timers_fire_until_termination() {
    let (mut runtime, controller) = setup();
    let mut event_loop = EventLoop::new();
    let waker = popol::Waker::new().expect("waker");
    runtime.poller().sources_mut().register(u64::MAX, &waker, popol::interest::READ);
    assert!(controller.cmd(6).is_ok());
    waker.wake().expect("awake");
    while let Some(timeout) = until_poll(&mut event_loop, &mut runtime) {
        assert!(timeout == Duration::from_secs(3600) || timeout <= Duration::from_millis(3));
        let timeout = std::time::Duration::new(timeout.as_secs(), timeout.subsec_nanos());
        let mut fired: Vec<popol::Event<u64>> = vec![];
        let res = runtime.poller().sources_mut().poll(&mut fired, timeout);
        if !fired.is_empty() {
            popol::Waker::reset(&waker).expect("reset");
        }
        let events = if fired.is_empty() { vec![] } else { awoken() };
        polled(&mut event_loop, &mut runtime, events, res.map(|_| ()).map_err(|_| ErrorKind::TimedOut));
    }
    assert_eq!(runtime.service().timers, 6);
    let lines = log(&mut runtime);
    assert_eq!(lines.iter().filter(|line| *line == "timer").count(), 6);
    // The action which follows the termination is still handled.
    assert_eq!(lines.last().map(String::as_str), Some("set timer"));
    assert_eq!(runtime.timeouts().count(), 1);
}
