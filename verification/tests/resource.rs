use io_reactor::{ErrorKind, IoError, ResourceId, WriteAtomic, WriteError};

struct Buffer {
    ready: bool,
    fails: Option<ErrorKind>,
    written: Vec<u8>,
}

impl WriteAtomic for Buffer {
    fn is_ready_to_write(&self) -> bool {
        self.ready
    }

    fn empty_write_buf(&mut self) -> Result<bool, IoError> {
        let had_data = !self.written.is_empty();
        self.written.clear();
        Ok(had_data)
    }

    fn write_or_buf(&mut self, buf: &[u8]) -> Result<(), IoError> {
        match self.fails {
            Some(kind) => Err(IoError::new(kind)),
            None => {
                self.written.extend_from_slice(buf);
                Ok(())
            }
        }
    }
}

#[test]
fn atomic_write() {
    let mut buffer = Buffer { ready: true, fails: None, written: vec![] };
    assert!(buffer.write_atomic(&[1, 2]).is_ok());
    assert!(buffer.write_atomic(&[3]).is_ok());
    assert_eq!(buffer.written, vec![1, 2, 3]);
    assert!(matches!(buffer.empty_write_buf(), Ok(true)));
    assert!(matches!(buffer.empty_write_buf(), Ok(false)));
}

#[test]
fn atomic_write_before_ready() {
    let mut buffer = Buffer { ready: false, fails: None, written: vec![] };
    assert!(matches!(buffer.write_atomic(&[1, 2]), Err(WriteError::NotReady)));
    assert!(buffer.written.is_empty());
}

#[test]
fn atomic_write_fails() {
    let mut buffer = Buffer { ready: true, fails: Some(ErrorKind::BrokenPipe), written: vec![] };
    match buffer.write_atomic(&[1, 2]) {
        Err(WriteError::Io(err)) => assert_eq!(err.kind, ErrorKind::BrokenPipe),
        _ => panic!("write must fail"),
    }
    assert!(buffer.written.is_empty());
}

#[test]
fn write_error_from_io_error() {
    let err = WriteError::from(IoError::new(ErrorKind::Other));
    assert!(matches!(err, WriteError::Io(IoError { kind: ErrorKind::Other, source: None })));
}

#[test]
fn waker_identifier() {
    assert_eq!(ResourceId::waker(), ResourceId(u64::MAX));
    assert!(ResourceId::waker().is_waker());
    assert!(!ResourceId(0).is_waker());
}

#[test]
fn error_texts() {
    assert_eq!(WriteError::NotReady.to_string(), "resource not ready to accept the data");
    for (kind, text) in [
        (ErrorKind::WouldBlock, std::io::ErrorKind::WouldBlock.to_string()),
        (ErrorKind::Interrupted, std::io::ErrorKind::Interrupted.to_string()),
        (ErrorKind::WriteZero, std::io::ErrorKind::WriteZero.to_string()),
        (ErrorKind::TimedOut, std::io::ErrorKind::TimedOut.to_string()),
        (ErrorKind::NotConnected, std::io::ErrorKind::NotConnected.to_string()),
        (ErrorKind::BrokenPipe, "broken pipe".to_string()),
        (ErrorKind::Other, std::io::ErrorKind::Other.to_string()),
    ] {
        assert_eq!(IoError::new(kind).to_string(), text);
        assert_eq!(WriteError::Io(IoError::new(kind)).to_string(), text);
    }
    let source = std::io::Error::new(std::io::ErrorKind::Other, "out of paper");
    let err = IoError { kind: ErrorKind::Other, source: Some(source) };
    assert_eq!(WriteError::Io(err).to_string(), "out of paper");
}
