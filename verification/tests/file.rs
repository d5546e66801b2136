use std::collections::VecDeque;

use io_reactor::poller::popol::{PollEvent, Poller};
use io_reactor::poller::{IoFail, IoType, Poll, Waker, WakerRecv, WakerSend};
use io_reactor::runtimes::file::{Action, Error, Handler, Runtime};
use io_reactor::runtimes::{self, Ctl, Failure, Handled, Outcome, Performed, Received};
use io_reactor::{
    Controller, Duration, ErrorKind, Io, IoError, ReactorHandler, ReactorRuntime, Resource,
    ResourceId, Timestamp, WriteAtomic,
};

const TIME: Timestamp = Timestamp(2_000_000);

#[derive(Clone)]
struct Bell;

impl Waker for Bell {
    type Send = Bell;
    type Recv = Bell;

    fn pair() -> Result<(Bell, Bell), IoError> {
        Ok((Bell, Bell))
    }
}

impl WakerSend for Bell {
    fn wake(&self) -> Result<(), IoError> {
        Ok(())
    }
}

impl WakerRecv for Bell {
    fn as_raw_fd(&self) -> i32 {
        99
    }

    fn reset(&mut self) {}
}

struct File {
    fd: i32,
    ready: bool,
    write_fails: bool,
    written: Vec<u8>,
}

fn file(fd: i32) -> File {
    File { fd, ready: true, write_fails: false, written: vec![] }
}

impl WriteAtomic for File {
    fn is_ready_to_write(&self) -> bool {
        self.ready
    }

    fn empty_write_buf(&mut self) -> Result<bool, IoError> {
        Ok(false)
    }

    fn write_or_buf(&mut self, buf: &[u8]) -> Result<(), IoError> {
        if self.write_fails {
            return Err(IoError::new(ErrorKind::Other));
        }
        self.written.extend_from_slice(buf);
        Ok(())
    }
}

impl Resource for File {
    type Event = String;

    fn as_raw_fd(&self) -> i32 {
        self.fd
    }

    fn interests(&self) -> IoType {
        if self.written.is_empty() {
            IoType::read_only()
        } else {
            IoType::read_write()
        }
    }

    fn handle_io(&mut self, io: Io) -> Option<String> {
        match io {
            Io::Read => Some("read".to_string()),
            Io::Write => None,
        }
    }
}

#[derive(Default)]
struct Service {
    log: Vec<String>,
    actions: VecDeque<Action<File>>,
    handed_over: Vec<File>,
}

impl Iterator for Service {
    type Item = Action<File>;

    fn next(&mut self) -> Option<Action<File>> {
        self.actions.pop_front()
    }
}

impl ReactorHandler for Service {
    type Command = u8;
    type Action = Action<File>;
    type Error = Error<File>;

    fn handle_error(&mut self, err: runtimes::Error<Error<File>>) {
        self.log.push(match err {
            runtimes::Error::Poll(err) => format!("poll error {:?}", err.kind),
            runtimes::Error::Handler(Error::Closed(id, file)) => {
                format!("file {} closed (fd={})", id.0, file.fd)
            }
        });
    }

    fn tick(&mut self, time: Timestamp) {
        self.log.push(format!("tick {}", time.0));
    }

    fn handle_timer(&mut self) {
        self.log.push("timer".to_string());
    }

    fn handle_command(&mut self, cmd: u8) {
        self.log.push(format!("command {cmd}"));
    }
}

impl Handler for Service {
    type File = File;

    fn handle_registered(&mut self, fd: i32, id: ResourceId) {
        self.log.push(format!("registered {} fd={fd}", id.0));
    }

    fn handle_event(&mut self, fd: i32, id: ResourceId, event: String, time: Timestamp) {
        self.log.push(format!("file {} fd={fd} {event} at {}", id.0, time.0));
    }

    fn handover_file(&mut self, id: ResourceId, file: File) {
        self.log.push(format!("handover {}", id.0));
        self.handed_over.push(file);
    }
}

type FileRuntime = Runtime<Service, Poller, Bell>;

fn setup() -> (FileRuntime, Controller<u8, Bell>) {
    let (ctl_send, ctl_recv) = crossbeam_channel::unbounded::<Ctl<u8>>();
    let controller = Controller::new(ctl_send, Bell);
    let mut poller = Poller::new();
    poller.register_waker(99);
    let runtime =
        Runtime::with(Service::default(), poller, controller.clone(), ctl_recv, Bell);
    (runtime, controller)
}

fn log(runtime: &mut FileRuntime) -> Vec<String> {
    std::mem::take(&mut runtime.service().log)
}

fn events(runtime: &mut FileRuntime, events: Vec<PollEvent>) {
    let count = events.len();
    assert!(matches!(runtime.poller().poll(events, Ok(())), Ok(n) if n == count));
}

fn ready(id: u64) -> PollEvent {
    PollEvent {
        key: ResourceId(id),
        fired: 4,
        hangup: false,
        error: false,
        invalid: false,
        readable: true,
        writable: true,
    }
}

#[test]
fn file_registration() {
    let (mut runtime, _) = setup();
    assert!(matches!(
        runtime.handle_action(Action::RegisterFile(file(7)), TIME),
        Outcome::Proceed(true)
    ));
    assert_eq!(log(&mut runtime), vec!["registered 0 fd=7"]);
    assert_eq!(runtime.poller().sources_mut().len(), 2);

    assert!(matches!(
        runtime.handle_action(Action::UnregisterFile(ResourceId(1)), TIME),
        Outcome::Proceed(true)
    ));
    assert!(log(&mut runtime).is_empty());

    assert!(matches!(
        runtime.handle_action(Action::UnregisterFile(ResourceId(0)), TIME),
        Outcome::Proceed(true)
    ));
    assert_eq!(log(&mut runtime), vec!["handover 0"]);
    assert_eq!(runtime.service().handed_over[0].fd, 7);
    assert_eq!(runtime.poller().sources_mut().len(), 1);
    assert!(runtime.unregister_file(ResourceId(0)).is_none());
}

#[test]
fn file_writes() {
    let (mut runtime, _) = setup();
    runtime.handle_action(Action::RegisterFile(file(7)), TIME);
    runtime.handle_action(Action::RegisterFile(File { write_fails: true, ..file(8) }), TIME);
    runtime.handle_action(Action::RegisterFile(File { ready: false, ..file(9) }), TIME);
    assert!(matches!(
        runtime.handle_action(Action::Write(ResourceId(0), vec![4, 2]), TIME),
        Outcome::Proceed(true)
    ));
    match runtime.handle_action(Action::Write(ResourceId(1), vec![4, 2]), TIME) {
        Outcome::Failed(Error::Closed(id, file)) => {
            assert_eq!((id, file.fd), (ResourceId(1), 8));
        }
        _ => panic!("the file must be closed"),
    }
    assert!(matches!(
        runtime.handle_action(Action::Write(ResourceId(2), vec![4, 2]), TIME),
        Outcome::Broken(Failure::NotReady(ResourceId(2)))
    ));
    assert!(matches!(
        runtime.handle_action(Action::Write(ResourceId(3), vec![4, 2]), TIME),
        Outcome::Proceed(true)
    ));
    assert_eq!(runtime.unregister_file(ResourceId(0)).expect("file").written, vec![4, 2]);
}

#[test]
fn file_events() {
    let (mut runtime, _) = setup();
    runtime.handle_action(Action::RegisterFile(file(7)), TIME);
    runtime.handle_action(Action::RegisterFile(file(8)), TIME);
    log(&mut runtime);
    events(&mut runtime, vec![
        ready(1),
        PollEvent { error: true, ..ready(0) },
        ready(u64::MAX),
    ]);
    assert_eq!(runtime.handle_events(TIME), Ok(true));
    assert_eq!(log(&mut runtime), vec!["file 1 fd=8 read at 2000000", "file 0 closed (fd=7)"]);
    assert_eq!(runtime.poller().sources_mut().len(), 2);

    events(&mut runtime, vec![ready(1), ready(0), ready(1)]);
    assert_eq!(runtime.handle_event(TIME), Handled::Dispatched);
    assert_eq!(
        runtime.handle_events(TIME),
        Err(Failure::UnknownResource(ResourceId(0)))
    );
    assert_eq!(runtime.handle_events(TIME), Ok(false));
    events(&mut runtime, vec![PollEvent { invalid: true, ..ready(u64::MAX) }]);
    assert_eq!(runtime.handle_events(TIME), Err(Failure::Waker(IoFail::Os(4))));
}

#[test]
fn file_poll() {
    let (mut runtime, _) = setup();
    runtime.handle_action(Action::RegisterFile(file(7)), TIME);
    runtime.handle_action(Action::Write(ResourceId(0), vec![1]), TIME);
    log(&mut runtime);
    assert_eq!(runtime.prepare_poll(TIME), Some(Duration::from_secs(1)));
    let source = runtime.poller().sources_mut().get(&0).map(|source| format!("{source:?}"));
    assert_eq!(
        source,
        Some(format!("Source {{ fd: 7, events: {}, revents: 0 }}", popol::interest::ALL))
    );

    assert!(matches!(
        runtime.handle_action(Action::SetTimer(Duration::from_millis(5)), TIME),
        Outcome::Proceed(true)
    ));
    assert_eq!(runtime.prepare_poll(TIME), Some(Duration::from_millis(5)));
    let later = TIME + Duration::from_millis(5);
    assert_eq!(runtime.finish_poll(later, Err(IoError::new(ErrorKind::BrokenPipe))), 1);
    assert_eq!(log(&mut runtime), vec!["tick 2000005", "timer", "poll error BrokenPipe"]);
    assert!(!runtime.timeouts().has_timeouts());
}

#[test]
fn file_commands_and_actions() {
    let (mut runtime, controller) = setup();
    assert!(controller.cmd(3).is_ok());
    assert_eq!(runtime.receive_command(), Received::Command);
    assert_eq!(runtime.receive_command(), Received::Drained);
    assert!(runtime.controller().shutdown().is_ok());
    assert_eq!(runtime.receive_command(), Received::Shutdown);
    assert_eq!(log(&mut runtime), vec!["command 3"]);

    runtime.service().actions = VecDeque::from(vec![
        Action::RegisterFile(File { write_fails: true, ..file(8) }),
        Action::Write(ResourceId(0), vec![1]),
        Action::Terminate,
    ]);
    assert_eq!(runtime.handle_next_action(TIME), Performed::Proceed(true));
    assert_eq!(runtime.handle_next_action(TIME), Performed::Failed);
    assert_eq!(runtime.handle_next_action(TIME), Performed::Proceed(false));
    assert_eq!(runtime.handle_next_action(TIME), Performed::Drained);
    assert_eq!(log(&mut runtime), vec!["registered 0 fd=8", "file 0 closed (fd=8)"]);
}

#[test]
fn file_action_names() {
    assert_eq!(Action::RegisterFile(file(1)).to_string(), "register_file");
    assert_eq!(Action::<File>::UnregisterFile(ResourceId(5)).to_string(), "unregister_transport");
    assert_eq!(Action::<File>::Write(ResourceId(10), vec![]).to_string(), "send_to(10)");
    assert_eq!(
        Action::<File>::SetTimer(Duration::from_secs(2)).to_string(),
        "set_timer(2s)"
    );
    assert_eq!(Action::<File>::Terminate.to_string(), "terminate");
}
