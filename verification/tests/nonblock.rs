use std::collections::VecDeque;

use io_reactor::{Duration, ErrorKind, IoError, IoStatus, ReadNonblocking, WriteNonblocking};

struct Stream {
    results: VecDeque<Result<usize, ErrorKind>>,
    connected: bool,
    calls: Vec<String>,
}

impl Stream {
    fn with(results: Vec<Result<usize, ErrorKind>>) -> Stream {
        Stream { results: results.into(), connected: true, calls: vec![] }
    }

    fn result(&mut self) -> Result<usize, IoError> {
        self.results.pop_front().expect("no more calls").map_err(IoError::new)
    }
}

impl ReadNonblocking for Stream {
    fn set_read_nonblocking(&mut self, _timeout: Option<Duration>) -> Result<(), IoError> {
        Ok(())
    }

    fn read(&mut self, buf: &mut [u8]) -> Result<usize, IoError> {
        self.calls.push(format!("read {}", buf.len()));
        let res = self.result();
        if let Ok(len) = res {
            for byte in &mut buf[..len] {
                *byte = 7;
            }
        }
        res
    }
}

impl WriteNonblocking for Stream {
    fn set_write_nonblocking(&mut self, _timeout: Option<Duration>) -> Result<(), IoError> {
        Ok(())
    }

    fn can_write(&self) -> bool {
        self.connected
    }

    fn write(&mut self, buf: &[u8]) -> Result<usize, IoError> {
        self.calls.push(format!("write {buf:?}"));
        self.result()
    }

    fn flush(&mut self) -> Result<(), IoError> {
        self.calls.push("flush".to_string());
        self.result().map(|_| ())
    }
}

fn failed(status: IoStatus, kind: ErrorKind) -> bool {
    match status {
        IoStatus::Failed(err) => err.kind == kind && err.source.is_none(),
        _ => false,
    }
}

#[test]
fn read_statuses() {
    let mut stream = Stream::with(vec![
        Ok(2),
        Ok(0),
        Err(ErrorKind::WouldBlock),
        Err(ErrorKind::BrokenPipe),
    ]);
    let mut buf = [0u8; 3];
    assert!(matches!(stream.read_nonblocking(&mut buf), IoStatus::Success(2)));
    assert_eq!(buf, [7, 7, 0]);
    // No bytes are read during a handshake.
    assert!(matches!(stream.read_nonblocking(&mut buf), IoStatus::Success(0)));
    assert!(matches!(stream.read_nonblocking(&mut buf), IoStatus::WouldBlock));
    assert!(failed(stream.read_nonblocking(&mut buf), ErrorKind::BrokenPipe));
    assert_eq!(stream.calls, vec!["read 3"; 4]);
}

#[test]
fn write_statuses() {
    let mut stream = Stream::with(vec![
        Ok(2),
        Ok(0),
        Err(ErrorKind::WriteZero),
        Err(ErrorKind::WouldBlock),
        Err(ErrorKind::Interrupted),
    ]);
    assert!(matches!(stream.write_nonblocking(&[1, 2, 3]), IoStatus::Success(2)));
    assert!(matches!(stream.write_nonblocking(&[1]), IoStatus::WouldBlock));
    assert!(matches!(stream.write_nonblocking(&[2]), IoStatus::WouldBlock));
    assert!(matches!(stream.write_nonblocking(&[3]), IoStatus::WouldBlock));
    assert!(failed(stream.write_nonblocking(&[4]), ErrorKind::Interrupted));
    assert_eq!(stream.calls, vec![
        "write [1, 2, 3]",
        "write [1]",
        "write [2]",
        "write [3]",
        "write [4]"
    ]);
}

#[test]
fn nothing_to_write() {
    let mut stream = Stream::with(vec![]);
    assert!(matches!(stream.write_nonblocking(&[]), IoStatus::Success(0)));
    assert!(stream.calls.is_empty());
}

#[test]
fn write_without_connection() {
    let mut stream = Stream::with(vec![]);
    stream.connected = false;
    assert!(failed(stream.write_nonblocking(&[1]), ErrorKind::NotConnected));
    assert!(failed(stream.write_nonblocking(&[]), ErrorKind::NotConnected));
    assert!(stream.calls.is_empty());
}

#[test]
fn flush_statuses() {
    let mut stream = Stream::with(vec![
        Ok(5),
        Err(ErrorKind::WouldBlock),
        Err(ErrorKind::WriteZero),
    ]);
    assert!(matches!(stream.flush_nonblocking(), IoStatus::Success(0)));
    assert!(matches!(stream.flush_nonblocking(), IoStatus::WouldBlock));
    assert!(failed(stream.flush_nonblocking(), ErrorKind::WriteZero));
    assert_eq!(stream.calls, vec!["flush"; 3]);
}
