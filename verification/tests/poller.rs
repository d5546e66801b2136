use io_reactor::poller::popol::{PollEvent, Poller};
use io_reactor::poller::{IoFail, IoType, Poll};
use io_reactor::{ErrorKind, Io, IoError, ResourceId};

fn event(key: u64) -> PollEvent {
    PollEvent {
        key: ResourceId(key),
        fired: 0b101,
        hangup: false,
        error: false,
        invalid: false,
        readable: true,
        writable: false,
    }
}

fn source(poller: &mut Poller, id: ResourceId) -> Option<String> {
    poller.sources_mut().get(&id.0).map(|source| format!("{source:?}"))
}

fn polled(fd: i32, events: i16) -> Option<String> {
    Some(format!("Source {{ fd: {fd}, events: {events}, revents: 0 }}"))
}

#[test]
fn io_types() {
    assert!(IoType::none().is_none());
    assert!(IoType::read_only().is_read_only());
    assert!(IoType::write_only().is_write_only());
    assert!(IoType::read_write().is_read_write());
    assert!(!IoType::read_only().is_read_write());
    assert!(!IoType::read_only().is_none());
    assert!(!IoType::read_write().is_read_only());
    assert!(!IoType::read_write().is_write_only());
}

#[test]
fn io_type_negation() {
    assert_eq!(!IoType::none(), IoType::read_write());
    assert_eq!(!IoType::read_only(), IoType::write_only());
    assert_eq!(!!IoType::write_only(), IoType::write_only());
}

#[test]
fn io_type_events() {
    let mut io = IoType::read_write();
    assert_eq!(io.next(), Some(Io::Write));
    assert_eq!(io.next(), Some(Io::Read));
    assert_eq!(io.next(), None);
    assert_eq!(io, IoType::none());

    let mut io = IoType::read_only();
    assert_eq!(io.next(), Some(Io::Read));
    assert_eq!(io.next(), None);
}

#[test]
fn io_type_names() {
    assert_eq!(IoType::none().to_string(), "none");
    assert_eq!(IoType::read_write().to_string(), "read-write");
    assert_eq!(IoType::read_only().to_string(), "read");
    assert_eq!(IoType::write_only().to_string(), "write");
}

#[test]
fn registration() {
    let mut poller = Poller::new();
    assert!(poller.sources_mut().is_empty());
    let first = poller.register(10, IoType::read_only());
    let second = poller.register(11, IoType::read_write());
    assert_eq!((first, second), (ResourceId(0), ResourceId(1)));
    assert_eq!(poller.sources_mut().len(), 2);
    assert_eq!(source(&mut poller, first), polled(10, popol::interest::READ));
    assert_eq!(source(&mut poller, second), polled(11, popol::interest::ALL));

    poller.unregister(first);
    assert_eq!(poller.sources_mut().len(), 1);
    assert_eq!(source(&mut poller, first), None);
    assert_eq!(source(&mut poller, second), polled(11, popol::interest::ALL));

    // Numbers are never given twice.
    assert_eq!(poller.register(10, IoType::none()), ResourceId(2));
    assert_eq!(source(&mut poller, ResourceId(2)), polled(10, 0));

    poller.unregister(first);
    assert_eq!(poller.sources_mut().len(), 2);
}

#[test]
fn waker_registration() {
    let mut poller = Poller::default();
    poller.register_waker(3);
    assert_eq!(source(&mut poller, ResourceId::waker()), polled(3, popol::interest::READ));
    assert_eq!(poller.register(4, IoType::write_only()), ResourceId(0));
    assert_eq!(source(&mut poller, ResourceId(0)), polled(4, popol::interest::WRITE));
}

#[test]
fn interests() {
    let mut poller = Poller::with_capacity(4);
    assert!(poller.can_register());
    let id = poller.register(10, IoType::read_only());
    for (interest, events) in [
        (IoType::write_only(), popol::interest::WRITE),
        (IoType::read_write(), popol::interest::ALL),
        (IoType::none(), popol::interest::NONE),
        (IoType::read_only(), popol::interest::READ),
    ] {
        assert!(poller.set_interest(id, interest));
        assert_eq!(source(&mut poller, id), polled(10, events));
    }
    assert!(!poller.set_interest(ResourceId(1), IoType::read_only()));
    assert_eq!(poller.sources_mut().len(), 1);
}

#[test]
fn events_are_read_in_order() {
    let mut poller = Poller::new();
    assert_eq!(poller.next(), None);
    let res = poller.poll(vec![event(3), event(1)], Ok(()));
    assert!(matches!(res, Ok(2)));
    let res = poller.poll(vec![event(2)], Ok(()));
    assert!(matches!(res, Ok(1)));
    for key in [3, 1, 2] {
        assert_eq!(poller.next(), Some((ResourceId(key), Ok(IoType::read_only()))));
    }
    assert_eq!(poller.next(), None);
}

#[test]
fn event_meanings() {
    let mut poller = Poller::new();
    let hangup = PollEvent { hangup: true, error: true, ..event(1) };
    let error = PollEvent { error: true, ..event(2) };
    let invalid = PollEvent { invalid: true, writable: true, ..event(3) };
    let both = PollEvent { writable: true, ..event(4) };
    let neither = PollEvent { readable: false, ..event(5) };
    let res = poller.poll(vec![hangup, error, invalid, both, neither], Ok(()));
    assert!(res.is_ok());
    assert_eq!(poller.next(), Some((ResourceId(1), Err(IoFail::Connectivity(0b101)))));
    assert_eq!(poller.next(), Some((ResourceId(2), Err(IoFail::Os(0b101)))));
    assert_eq!(poller.next(), Some((ResourceId(3), Err(IoFail::Os(0b101)))));
    assert_eq!(poller.next(), Some((ResourceId(4), Ok(IoType::read_write()))));
    assert_eq!(poller.next(), Some((ResourceId(5), Ok(IoType::none()))));
}

#[test]
fn poll_results() {
    let mut poller = Poller::new();
    assert!(matches!(poller.poll(vec![], Ok(())), Ok(0)));
    assert!(matches!(poller.poll(vec![event(1)], Ok(())), Ok(1)));
    let timed_out = poller.poll(vec![], Err(IoError::new(ErrorKind::TimedOut)));
    assert!(matches!(timed_out, Ok(0)));
    match poller.poll(vec![], Err(IoError::new(ErrorKind::Other))) {
        Err(err) => assert_eq!(err.kind, ErrorKind::Other),
        Ok(_) => panic!("the poll has failed"),
    }
}

#[test]
fn poll_syscall_reports_waker() {
    let waker = popol::Waker::new().expect("waker");
    let mut sources = popol::Sources::new();
    sources.register(ResourceId::waker().0, &waker, popol::interest::READ);
    let mut poller = Poller::new();
    *poller.sources_mut() = sources;
    waker.wake().expect("awake");

    let mut fired: Vec<popol::Event<u64>> = vec![];
    let count = poller
        .sources_mut()
        .poll(&mut fired, std::time::Duration::from_secs(5))
        .expect("poll");
    assert_eq!(count, 1);
    let events = fired
        .iter()
        .map(|event| PollEvent {
            key: ResourceId(event.key),
            fired: event.raw_events(),
            hangup: event.is_hangup(),
            error: event.is_error(),
            invalid: event.is_invalid(),
            readable: event.is_readable(),
            writable: event.is_writable(),
        })
        .collect();
    assert!(matches!(poller.poll(events, Ok(())), Ok(1)));
    assert_eq!(poller.next(), Some((ResourceId::waker(), Ok(IoType::read_only()))));
    assert_eq!(poller.next(), None);
}

#[test]
fn poll_returns_number_of_events() {
    let mut poller = Poller::new();
    assert!(matches!(poller.poll(vec![event(7), event(8)], Ok(())), Ok(2)));
    let new = poller.poll(vec![event(1), event(2), event(3)], Ok(())).expect("poll");
    assert_eq!(new, 3);
    for key in [7, 8, 1, 2, 3] {
        assert_eq!(poller.next().map(|event| event.0), Some(ResourceId(key)));
    }
    assert_eq!(poller.next(), None);
    let none = poller.poll(vec![], Err(IoError::new(ErrorKind::TimedOut))).expect("poll");
    assert_eq!(none, 0);
    assert_eq!(poller.next(), None);
}
