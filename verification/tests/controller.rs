use std::sync::atomic::{AtomicUsize, Ordering};
use std::sync::Arc;

use io_reactor::poller::WakerSend;
use io_reactor::runtimes::controller::{ctl_recv, is_unlimited};
use io_reactor::runtimes::Ctl;
use io_reactor::{Controller, ErrorKind, IoError};

#[derive(Clone)]
struct Bell {
    rings: Arc<AtomicUsize>,
    works: bool,
}

impl Bell {
    fn new(works: bool) -> Bell {
        Bell { rings: Arc::new(AtomicUsize::new(0)), works }
    }

    fn rings(&self) -> usize {
        self.rings.load(Ordering::SeqCst)
    }
}

impl WakerSend for Bell {
    fn wake(&self) -> Result<(), IoError> {
        self.rings.fetch_add(1, Ordering::SeqCst);
        if self.works {
            Ok(())
        } else {
            Err(IoError::new(ErrorKind::Other))
        }
    }
}

#[test]
fn command_is_sent_and_reactor_awoken() {
    let (ctl_send, ctl_recv) = crossbeam_channel::unbounded();
    let bell = Bell::new(true);
    let controller = Controller::new(ctl_send, bell.clone());
    assert!(controller.cmd("first").is_ok());
    assert!(controller.cmd("second").is_ok());
    assert_eq!(bell.rings(), 2);
    assert!(matches!(ctl_recv.try_recv(), Ok(Ctl::Cmd("first"))));
    assert!(matches!(ctl_recv.try_recv(), Ok(Ctl::Cmd("second"))));
    assert!(ctl_recv.try_recv().is_err());
}

#[test]
fn command_to_finished_reactor() {
    let (ctl_send, ctl_recv) = crossbeam_channel::unbounded();
    let bell = Bell::new(true);
    let controller = Controller::new(ctl_send, bell.clone());
    drop(ctl_recv);
    match controller.cmd(1) {
        Err(err) => assert_eq!(err.kind, ErrorKind::BrokenPipe),
        Ok(()) => panic!("nobody can receive the command"),
    }
    assert_eq!(bell.rings(), 0);
}

#[test]
fn command_with_broken_waker() {
    let (ctl_send, ctl_recv) = crossbeam_channel::unbounded();
    let controller = Controller::new(ctl_send, Bell::new(false));
    match controller.cmd(1) {
        Err(err) => assert_eq!(err.kind, ErrorKind::Other),
        Ok(()) => panic!("the reactor can't be awoken"),
    }
    assert!(matches!(ctl_recv.try_recv(), Ok(Ctl::Cmd(1))));
}

#[test]
fn shutdown_request() {
    let (ctl_send, ctl_recv) = crossbeam_channel::unbounded::<Ctl<()>>();
    let bell = Bell::new(true);
    assert!(Controller::new(ctl_send, bell.clone()).shutdown().is_ok());
    assert_eq!(bell.rings(), 1);
    assert!(matches!(ctl_recv.try_recv(), Ok(Ctl::Shutdown)));
}

#[test]
fn shutdown_fails_only_if_nothing_works() {
    let (ctl_send, _ctl_recv) = crossbeam_channel::unbounded::<Ctl<()>>();
    assert!(Controller::new(ctl_send, Bell::new(false)).shutdown().is_ok());

    let (ctl_send, ctl_recv) = crossbeam_channel::unbounded::<Ctl<()>>();
    drop(ctl_recv);
    assert!(Controller::new(ctl_send, Bell::new(true)).shutdown().is_ok());

    let (ctl_send, ctl_recv) = crossbeam_channel::unbounded::<Ctl<()>>();
    drop(ctl_recv);
    let bell = Bell::new(false);
    let controller = Controller::new(ctl_send, bell.clone());
    assert!(controller.shutdown().is_err());
    assert_eq!(bell.rings(), 1);
}

#[test]
fn clones_control_the_same_reactor() {
    let (ctl_send, ctl_recv) = crossbeam_channel::unbounded();
    let bell = Bell::new(true);
    let controller = Controller::new(ctl_send, bell.clone());
    let clone = controller.clone();
    assert!(clone.cmd(5).is_ok());
    assert!(controller.wake().is_ok());
    assert_eq!(bell.rings(), 2);
    assert!(matches!(ctl_recv.try_recv(), Ok(Ctl::Cmd(5))));
}

#[test]
fn channel_capacity() {
    assert!(is_unlimited(&crossbeam_channel::unbounded::<u8>().0));
    assert!(!is_unlimited(&crossbeam_channel::bounded::<u8>(5).0));
    assert!(!is_unlimited(&crossbeam_channel::bounded::<u8>(0).0));
}

#[test]
fn commands_are_read_once() {
    let (ctl_send, mut receiver) = crossbeam_channel::unbounded();
    assert_eq!(
        ctl_recv::<u8>(&mut receiver).err(),
        Some(crossbeam_channel::TryRecvError::Empty)
    );
    let controller = Controller::new(ctl_send, Bell::new(true));
    assert!(controller.cmd(1).is_ok());
    assert!(controller.cmd(2).is_ok());
    assert!(controller.shutdown().is_ok());
    assert!(matches!(ctl_recv(&mut receiver), Ok(Ctl::Cmd(1))));
    assert!(matches!(ctl_recv(&mut receiver), Ok(Ctl::Cmd(2))));
    assert!(matches!(ctl_recv(&mut receiver), Ok(Ctl::Shutdown)));
    assert_eq!(
        ctl_recv(&mut receiver).err(),
        Some(crossbeam_channel::TryRecvError::Disconnected)
    );
}
