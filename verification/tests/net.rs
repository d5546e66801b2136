use std::collections::VecDeque;
use std::sync::{Arc, Mutex};

use io_reactor::poller::popol::{PollEvent, Poller};
use io_reactor::poller::{IoFail, IoType, Poll, Waker, WakerRecv, WakerSend};
use io_reactor::runtimes::net::{Action, Error, Handler, Runtime};
use io_reactor::runtimes::{self, Ctl, Failure, Handled, Outcome, Performed, Received};
use io_reactor::{
    Controller, Duration, ErrorKind, Io, IoError, ReactorHandler, ReactorRuntime, Resource,
    ResourceId, ResourceType, Timestamp, WriteAtomic,
};

const TIME: Timestamp = Timestamp(1_000_000);

#[derive(Clone, Default)]
struct Log(Arc<Mutex<Vec<String>>>);

impl Log {
    fn add(&self, line: String) {
        self.0.lock().unwrap().push(line);
    }

    fn take(&self) -> Vec<String> {
        std::mem::take(&mut *self.0.lock().unwrap())
    }
}

#[derive(Clone)]
struct Bell(Log);

impl Waker for Bell {
    type Send = Bell;
    type Recv = Bell;

    fn pair() -> Result<(Bell, Bell), IoError> {
        let log = Log::default();
        Ok((Bell(log.clone()), Bell(log)))
    }
}

impl WakerSend for Bell {
    fn wake(&self) -> Result<(), IoError> {
        self.0.add("wake".to_string());
        Ok(())
    }
}

impl WakerRecv for Bell {
    fn as_raw_fd(&self) -> i32 {
        99
    }

    fn reset(&mut self) {
        self.0.add("reset".to_string());
    }
}

#[derive(Debug)]
struct Res {
    fd: i32,
    interest: IoType,
    ready: bool,
    write_fails: Option<ErrorKind>,
    written: Vec<u8>,
    quiet: bool,
}

fn res(fd: i32) -> Res {
    Res {
        fd,
        interest: IoType::read_write(),
        ready: true,
        write_fails: None,
        written: vec![],
        quiet: false,
    }
}

impl WriteAtomic for Res {
    fn is_ready_to_write(&self) -> bool {
        self.ready
    }

    fn empty_write_buf(&mut self) -> Result<bool, IoError> {
        Ok(false)
    }

    fn write_or_buf(&mut self, buf: &[u8]) -> Result<(), IoError> {
        if let Some(kind) = self.write_fails {
            return Err(IoError::new(kind));
        }
        self.written.extend_from_slice(buf);
        Ok(())
    }
}

impl Resource for Res {
    type Event = Io;

    fn as_raw_fd(&self) -> i32 {
        self.fd
    }

    fn interests(&self) -> IoType {
        self.interest
    }

    fn handle_io(&mut self, io: Io) -> Option<Io> {
        // The descriptor may change while I/O is handled.
        self.fd += 100;
        if self.quiet {
            None
        } else {
            Some(io)
        }
    }
}

struct Service {
    log: Log,
    actions: VecDeque<Action<Res, Res>>,
    handed_over: Vec<Res>,
}

impl Iterator for Service {
    type Item = Action<Res, Res>;

    fn next(&mut self) -> Option<Action<Res, Res>> {
        self.actions.pop_front()
    }
}

impl ReactorHandler for Service {
    type Command = &'static str;
    type Action = Action<Res, Res>;
    type Error = Error<Res, Res>;

    fn handle_error(&mut self, err: runtimes::Error<Error<Res, Res>>) {
        let line = match err {
            runtimes::Error::Poll(err) => format!("poll error {:?}", err.kind),
            runtimes::Error::Handler(Error::ListenerDisconnect(id, res)) => {
                format!("listener {} disconnected (fd={})", id.0, res.fd)
            }
            runtimes::Error::Handler(Error::TransportDisconnect(id, res)) => {
                format!("transport {} disconnected (fd={})", id.0, res.fd)
            }
        };
        self.log.add(line);
    }

    fn tick(&mut self, time: Timestamp) {
        self.log.add(format!("tick {}", time.0));
    }

    fn handle_timer(&mut self) {
        self.log.add("timer".to_string());
    }

    fn handle_command(&mut self, cmd: &'static str) {
        self.log.add(format!("command {cmd}"));
    }
}

impl Handler for Service {
    type Listener = Res;
    type Transport = Res;

    fn handle_listener_event(&mut self, fd: i32, id: ResourceId, event: Io, time: Timestamp) {
        self.log.add(format!("listener {} fd={fd} {event:?} at {}", id.0, time.0));
    }

    fn handle_transport_event(&mut self, fd: i32, id: ResourceId, event: Io, time: Timestamp) {
        self.log.add(format!("transport {} fd={fd} {event:?} at {}", id.0, time.0));
    }

    fn handle_registered(&mut self, fd: i32, id: ResourceId, ty: ResourceType) {
        self.log.add(format!("registered {ty:?} {} fd={fd}", id.0));
    }

    fn handover_listener(&mut self, id: ResourceId, listener: Res) {
        self.log.add(format!("handover listener {}", id.0));
        self.handed_over.push(listener);
    }

    fn handover_transport(&mut self, id: ResourceId, transport: Res) {
        self.log.add(format!("handover transport {}", id.0));
        self.handed_over.push(transport);
    }
}

struct Setup {
    runtime: Runtime<Service, Poller, Bell>,
    controller: Controller<&'static str, Bell>,
    log: Log,
}

fn setup() -> Setup {
    let log = Log::default();
    let bell = Bell(log.clone());
    let service = Service { log: log.clone(), actions: VecDeque::new(), handed_over: vec![] };
    let (ctl_send, ctl_recv) = crossbeam_channel::unbounded::<Ctl<&'static str>>();
    let controller = Controller::new(ctl_send, bell.clone());
    let mut poller = Poller::new();
    poller.register_waker(bell.as_raw_fd());
    let runtime = Runtime::with(service, poller, controller.clone(), ctl_recv, bell);
    Setup { runtime, controller, log }
}

impl Setup {
    fn act(&mut self, action: Action<Res, Res>) -> Outcome<Error<Res, Res>> {
        self.runtime.handle_action(action, TIME)
    }

    fn events(&mut self, events: Vec<PollEvent>) {
        let count = events.len();
        assert!(matches!(self.runtime.poller().poll(events, Ok(())), Ok(n) if n == count));
    }

    fn source(&mut self, id: u64) -> Option<String> {
        self.runtime.poller().sources_mut().get(&id).map(|source| format!("{source:?}"))
    }

    fn polled(&mut self) -> usize {
        self.runtime.poller().sources_mut().len()
    }
}

fn ready(key: ResourceId, readable: bool, writable: bool) -> PollEvent {
    PollEvent {
        key,
        fired: 1,
        hangup: false,
        error: false,
        invalid: false,
        readable,
        writable,
    }
}

fn hangup(key: ResourceId) -> PollEvent {
    PollEvent { hangup: true, ..ready(key, false, false) }
}

fn polls(fd: i32, events: i16) -> Option<String> {
    Some(format!("Source {{ fd: {fd}, events: {events}, revents: 0 }}"))
}

#[test]
fn registering() {
    let mut setup = setup();
    assert!(matches!(setup.act(Action::RegisterListener(res(5))), Outcome::Proceed(true)));
    assert!(matches!(setup.act(Action::RegisterTransport(res(6))), Outcome::Proceed(true)));
    assert_eq!(setup.log.take(), vec!["registered Listener 0 fd=5", "registered Transport 1 fd=6"]);
    assert_eq!(setup.source(0), polls(5, popol::interest::READ));
    assert_eq!(setup.source(1), polls(6, popol::interest::READ));
    assert_eq!(setup.polled(), 3);
}

#[test]
fn unregistering_undoes_registering() {
    let mut setup = setup();
    setup.act(Action::RegisterListener(res(5)));
    setup.act(Action::RegisterTransport(res(6)));
    setup.log.take();

    // A transport is no listener.
    assert!(matches!(
        setup.act(Action::UnregisterListener(ResourceId(1))),
        Outcome::Proceed(true)
    ));
    assert!(matches!(
        setup.act(Action::UnregisterTransport(ResourceId(0))),
        Outcome::Proceed(true)
    ));
    assert_eq!(setup.polled(), 3);
    assert!(setup.log.take().is_empty());

    assert!(matches!(
        setup.act(Action::UnregisterListener(ResourceId(0))),
        Outcome::Proceed(true)
    ));
    assert!(matches!(
        setup.act(Action::UnregisterTransport(ResourceId(1))),
        Outcome::Proceed(true)
    ));
    assert_eq!(setup.log.take(), vec!["handover listener 0", "handover transport 1"]);
    assert_eq!(setup.polled(), 1);
    let fds: Vec<i32> = setup.runtime.service().handed_over.iter().map(|res| res.fd).collect();
    assert_eq!(fds, vec![5, 6]);

    // Numbers of the resources are not used again.
    setup.act(Action::RegisterTransport(res(7)));
    assert_eq!(setup.log.take(), vec!["registered Transport 2 fd=7"]);
}

#[test]
fn unregistering_without_service() {
    let mut setup = setup();
    setup.act(Action::RegisterListener(res(5)));
    setup.act(Action::RegisterTransport(res(6)));
    assert!(setup.runtime.unregister_listener(ResourceId(1)).is_none());
    assert_eq!(setup.runtime.unregister_listener(ResourceId(0)).map(|res| res.fd), Some(5));
    assert!(setup.runtime.unregister_listener(ResourceId(0)).is_none());
    assert_eq!(setup.runtime.unregister_transport(ResourceId(1)).map(|res| res.fd), Some(6));
    assert!(setup.runtime.unregister_transport(ResourceId(1)).is_none());
    assert_eq!(setup.polled(), 1);
}

#[test]
fn sending() {
    let mut setup = setup();
    setup.act(Action::RegisterTransport(res(6)));
    let id = ResourceId(0);
    assert!(matches!(setup.act(Action::Send(id, vec![1, 2])), Outcome::Proceed(true)));
    assert!(matches!(setup.act(Action::Send(id, vec![3])), Outcome::Proceed(true)));
    // Data to unknown transports is dropped.
    assert!(matches!(
        setup.act(Action::Send(ResourceId(7), vec![4])),
        Outcome::Proceed(true)
    ));
    let transport = setup.runtime.unregister_transport(id).expect("transport");
    assert_eq!(transport.written, vec![1, 2, 3]);
}

#[test]
fn sending_fails() {
    let mut setup = setup();
    let broken = Res { write_fails: Some(ErrorKind::BrokenPipe), ..res(6) };
    setup.act(Action::RegisterTransport(broken));
    let outcome = setup.act(Action::Send(ResourceId(0), vec![1]));
    match outcome {
        Outcome::Failed(Error::TransportDisconnect(id, transport)) => {
            assert_eq!(id, ResourceId(0));
            assert_eq!(transport.fd, 6);
        }
        _ => panic!("the transport must be disconnected"),
    }
    assert_eq!(setup.polled(), 1);
    assert!(matches!(
        setup.act(Action::Send(ResourceId(0), vec![1])),
        Outcome::Proceed(true)
    ));
}

#[test]
fn sending_before_ready() {
    let mut setup = setup();
    setup.act(Action::RegisterTransport(Res { ready: false, ..res(6) }));
    assert!(matches!(
        setup.act(Action::Send(ResourceId(0), vec![1])),
        Outcome::Broken(Failure::NotReady(ResourceId(0)))
    ));
}

#[test]
fn timers_and_termination() {
    let mut setup = setup();
    assert!(matches!(
        setup.act(Action::SetTimer(Duration::from_millis(30))),
        Outcome::Proceed(true)
    ));
    assert_eq!(setup.runtime.timeouts().count(), 1);
    assert_eq!(
        setup.runtime.timeouts().next_expiring_from(TIME),
        Some(Duration::from_millis(30))
    );
    assert!(matches!(setup.act(Action::Terminate), Outcome::Proceed(false)));
    let late = setup.runtime.handle_action(
        Action::SetTimer(Duration::from_millis(1)),
        Timestamp(u128::MAX),
    );
    assert!(matches!(late, Outcome::Broken(Failure::TimeOverflow)));
    assert_eq!(setup.runtime.timeouts().count(), 1);
}

#[test]
fn preparing_poll() {
    let mut setup = setup();
    setup.act(Action::RegisterListener(Res { interest: IoType::write_only(), ..res(5) }));
    setup.act(Action::RegisterTransport(Res { interest: IoType::none(), ..res(6) }));
    setup.act(Action::RegisterTransport(res(7)));
    // Nothing to wait for but I/O.
    assert_eq!(setup.runtime.prepare_poll(TIME), Some(Duration::from_secs(60 * 60)));
    assert_eq!(setup.source(0), polls(5, popol::interest::WRITE));
    assert_eq!(setup.source(1), polls(6, popol::interest::NONE));
    assert_eq!(setup.source(2), polls(7, popol::interest::ALL));
    assert_eq!(setup.source(u64::MAX), polls(99, popol::interest::READ));

    setup.act(Action::SetTimer(Duration::from_secs(2)));
    assert_eq!(setup.runtime.prepare_poll(TIME), Some(Duration::from_secs(2)));
    assert_eq!(
        setup.runtime.prepare_poll(TIME + Duration::from_secs(3)),
        Some(Duration::from_secs(0))
    );
}

#[test]
fn finishing_poll() {
    let mut setup = setup();
    setup.act(Action::SetTimer(Duration::from_secs(2)));
    assert_eq!(setup.runtime.finish_poll(TIME, Ok(0)), 0);
    assert_eq!(setup.log.take(), vec!["tick 1000000"]);

    let later = TIME + Duration::from_secs(2);
    let failed = Err(IoError::new(ErrorKind::Other));
    assert_eq!(setup.runtime.finish_poll(later, failed), 1);
    assert_eq!(setup.log.take(), vec!["tick 1002000", "timer", "poll error Other"]);
    assert_eq!(setup.runtime.timeouts().count(), 0);

    setup.act(Action::SetTimer(Duration::from_secs(2)));
    assert_eq!(setup.runtime.finish_poll(Timestamp(u128::MAX), Ok(0)), 1);
    assert_eq!(setup.log.take().len(), 2);
}

#[test]
fn handling_events() {
    let mut setup = setup();
    setup.act(Action::RegisterListener(res(5)));
    setup.act(Action::RegisterTransport(res(6)));
    setup.act(Action::RegisterTransport(Res { quiet: true, ..res(7) }));
    setup.log.take();
    setup.events(vec![
        ready(ResourceId(1), true, true),
        ready(ResourceId(2), true, false),
        ready(ResourceId(0), true, false),
    ]);
    assert_eq!(setup.runtime.handle_events(TIME), Ok(false));
    assert_eq!(setup.log.take(), vec![
        "transport 1 fd=106 Write at 1000000",
        "transport 1 fd=206 Read at 1000000",
        "listener 0 fd=105 Read at 1000000",
    ]);
    let quiet = setup.runtime.unregister_transport(ResourceId(2)).expect("transport");
    assert_eq!(quiet.fd, 107);
}

#[test]
fn handling_events_one_by_one() {
    let mut setup = setup();
    setup.act(Action::RegisterListener(res(5)));
    setup.log.take();
    setup.events(vec![ready(ResourceId(0), false, true), ready(ResourceId::waker(), true, false)]);
    assert_eq!(setup.runtime.handle_event(TIME), Handled::Dispatched);
    assert_eq!(setup.log.take(), vec!["listener 0 fd=105 Write at 1000000"]);
    assert_eq!(setup.runtime.handle_event(TIME), Handled::Awoken);
    assert_eq!(setup.log.take(), vec!["reset"]);
    assert_eq!(setup.runtime.handle_event(TIME), Handled::Drained);
    assert!(setup.log.take().is_empty());
}

#[test]
fn disconnected_resources() {
    let mut setup = setup();
    setup.act(Action::RegisterListener(res(5)));
    setup.act(Action::RegisterTransport(res(6)));
    setup.log.take();
    setup.events(vec![hangup(ResourceId(1)), hangup(ResourceId(0))]);
    assert_eq!(setup.runtime.handle_events(TIME), Ok(false));
    assert_eq!(setup.log.take(), vec![
        "transport 1 disconnected (fd=6)",
        "listener 0 disconnected (fd=5)",
    ]);
    assert_eq!(setup.polled(), 1);
}

#[test]
fn awakening() {
    let mut setup = setup();
    setup.act(Action::RegisterTransport(res(6)));
    setup.log.take();
    setup.events(vec![
        ready(ResourceId::waker(), true, false),
        ready(ResourceId(0), false, true),
    ]);
    assert_eq!(setup.runtime.handle_events(TIME), Ok(true));
    assert_eq!(setup.log.take(), vec!["reset", "transport 0 fd=106 Write at 1000000"]);
    assert_eq!(setup.runtime.handle_events(TIME), Ok(false));
}

#[test]
fn broken_waker() {
    let mut setup = setup();
    setup.events(vec![hangup(ResourceId::waker()), ready(ResourceId::waker(), true, false)]);
    assert_eq!(
        setup.runtime.handle_events(TIME),
        Err(Failure::Waker(IoFail::Connectivity(1)))
    );
    // The remaining events are not handled.
    assert!(setup.log.take().is_empty());
    assert!(setup.runtime.poller().next().is_some());
}

#[test]
fn unknown_resource() {
    let mut setup = setup();
    setup.act(Action::RegisterTransport(res(6)));
    setup.log.take();
    setup.events(vec![hangup(ResourceId(0)), hangup(ResourceId(0))]);
    assert_eq!(
        setup.runtime.handle_events(TIME),
        Err(Failure::UnknownResource(ResourceId(0)))
    );
    assert_eq!(setup.log.take(), vec!["transport 0 disconnected (fd=6)"]);
}

#[test]
fn receiving_commands() {
    let mut setup = setup();
    assert_eq!(setup.runtime.receive_command(), Received::Drained);
    assert!(setup.controller.cmd("one").is_ok());
    assert!(setup.runtime.controller().cmd("two").is_ok());
    assert_eq!(setup.log.take(), vec!["wake", "wake"]);
    assert_eq!(setup.runtime.receive_command(), Received::Command);
    assert_eq!(setup.runtime.receive_command(), Received::Command);
    assert_eq!(setup.runtime.receive_command(), Received::Drained);
    assert_eq!(setup.log.take(), vec!["command one", "command two"]);
    assert!(setup.controller.shutdown().is_ok());
    assert_eq!(setup.runtime.receive_command(), Received::Shutdown);
}

#[test]
fn broken_control_channel() {
    let setup = setup();
    let log = setup.log.clone();
    let bell = Bell(log.clone());
    let (ctl_send, _) = crossbeam_channel::unbounded();
    let (gone, ctl_recv) = crossbeam_channel::unbounded();
    drop(gone);
    let service = Service { log, actions: VecDeque::new(), handed_over: vec![] };
    let mut runtime: Runtime<Service, Poller, Bell> = Runtime::with(
        service,
        Poller::new(),
        Controller::new(ctl_send, bell.clone()),
        ctl_recv,
        bell,
    );
    assert_eq!(runtime.receive_command(), Received::Disconnected);
}

#[test]
fn performing_actions() {
    let mut setup = setup();
    setup.runtime.service().actions = VecDeque::from(vec![
        Action::RegisterTransport(Res { write_fails: Some(ErrorKind::Other), ..res(6) }),
        Action::Terminate,
        Action::Send(ResourceId(0), vec![1]),
        Action::RegisterTransport(Res { ready: false, ..res(7) }),
        Action::Send(ResourceId(1), vec![1]),
    ]);
    assert_eq!(setup.runtime.handle_next_action(TIME), Performed::Proceed(true));
    assert_eq!(setup.runtime.handle_next_action(TIME), Performed::Proceed(false));
    assert_eq!(setup.runtime.handle_next_action(TIME), Performed::Failed);
    assert_eq!(setup.log.take(), vec![
        "registered Transport 0 fd=6",
        "transport 0 disconnected (fd=6)"
    ]);
    assert_eq!(setup.runtime.handle_next_action(TIME), Performed::Proceed(true));
    assert_eq!(
        setup.runtime.handle_next_action(TIME),
        Performed::Broken(Failure::NotReady(ResourceId(1)))
    );
    assert_eq!(setup.runtime.handle_next_action(TIME), Performed::Drained);
}

#[test]
fn action_names() {
    let id = ResourceId(1_209_345_678);
    let actions: Vec<(Action<Res, Res>, &str)> = vec![
        (Action::RegisterListener(res(1)), "register_listener"),
        (Action::RegisterTransport(res(1)), "register_transport"),
        (Action::UnregisterListener(id), "unregister_listener"),
        (Action::UnregisterTransport(id), "unregister_transport"),
        (Action::Send(id, vec![1]), "send_to(1209345678)"),
        (Action::Send(ResourceId(0), vec![]), "send_to(0)"),
        (Action::Send(ResourceId(u64::MAX), vec![]), "send_to(18446744073709551615)"),
        (Action::SetTimer(Duration::from_millis(3)), "set_timer(3ms)"),
        (Action::Terminate, "terminate"),
    ];
    for (action, name) in actions {
        assert_eq!(action.to_string(), name);
    }
}
