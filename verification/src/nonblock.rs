//! Reading and writing without blocking.

use vstd::prelude::*;

use crate::duration::Duration;
use crate::error::{ErrorKind, IoError};

verus! {

/// Outcome of a non-blocking I/O operation.
#[derive(Debug)]
pub enum IoStatus {
    /// The given number of bytes was processed.
    Success(usize),
    /// The operation can't proceed without blocking.
    WouldBlock,
    /// The resource was shut down.
    Shutdown,
    /// The operation has failed.
    Failed(IoError),
}

/// The status which stands for the result of a read.
pub open spec fn read_status(res: Result<usize, IoError>) -> IoStatus {
    match res {
        Ok(len) => IoStatus::Success(len),
        Err(err) => if err.kind == ErrorKind::WouldBlock {
            IoStatus::WouldBlock
        } else {
            IoStatus::Failed(err)
        },
    }
}

/// The status which stands for the result of writing some data.
pub open spec fn write_status(res: Result<usize, IoError>) -> IoStatus {
    match res {
        Ok(len) => if len == 0 {
            IoStatus::WouldBlock
        } else {
            IoStatus::Success(len)
        },
        Err(err) => if err.kind == ErrorKind::WriteZero || err.kind == ErrorKind::WouldBlock {
            IoStatus::WouldBlock
        } else {
            IoStatus::Failed(err)
        },
    }
}

/// The status which stands for the result of a flush.
pub open spec fn flush_status(res: Result<(), IoError>) -> IoStatus {
    match res {
        Ok(_) => IoStatus::Success(0),
        Err(err) => if err.kind == ErrorKind::WouldBlock {
            IoStatus::WouldBlock
        } else {
            IoStatus::Failed(err)
        },
    }
}

impl IoStatus {
    /// Interprets the result of a read.
    pub fn from_read(res: Result<usize, IoError>) -> (status: IoStatus)
        ensures
            status == read_status(res),
    {
        match res {
            // Zero bytes are read while the handshake is still going on.
            Ok(len) => IoStatus::Success(len),
            Err(err) => match err.kind {
                ErrorKind::WouldBlock => IoStatus::WouldBlock,
                _ => IoStatus::Failed(err),
            },
        }
    }

    /// Interprets the result of writing some data.
    pub fn from_write(res: Result<usize, IoError>) -> (status: IoStatus)
        ensures
            status == write_status(res),
    {
        match res {
            Ok(len) => if len == 0 {
                IoStatus::WouldBlock
            } else {
                IoStatus::Success(len)
            },
            Err(err) => match err.kind {
                ErrorKind::WriteZero => IoStatus::WouldBlock,
                ErrorKind::WouldBlock => IoStatus::WouldBlock,
                _ => IoStatus::Failed(err),
            },
        }
    }

    /// Interprets the result of a flush.
    pub fn from_flush(res: Result<(), IoError>) -> (status: IoStatus)
        ensures
            status == flush_status(res),
    {
        match res {
            Ok(_) => IoStatus::Success(0),
            Err(err) => match err.kind {
                ErrorKind::WouldBlock => IoStatus::WouldBlock,
                _ => IoStatus::Failed(err),
            },
        }
    }
}

/// A source which can be read without blocking.
pub trait ReadNonblocking: Sized {
    /// Makes the reads non-blocking, giving them a timeout.
    fn set_read_nonblocking(&mut self, timeout: Option<Duration>) -> (res: Result<(), IoError>);

    /// Reads some data into the buffer.
    fn read(&mut self, buf: &mut [u8]) -> (res: Result<usize, IoError>);

    /// Reads some data into the buffer with [`Self::read`], telling a read which would block from a
    /// failed one.
    fn read_nonblocking(&mut self, buf: &mut [u8]) -> (status: IoStatus)
        ensures
            exists|reader: &mut Self, target: &mut [u8], res: Result<usize, IoError>|
                {
                    &&& *reader == *old(self) && *final(reader) == *final(self)
                    &&& target@ == old(buf)@ && final(target)@ == final(buf)@
                    &&& #[trigger] call_ensures(Self::read, (reader, target), res)
                    &&& status == read_status(res)
                },
    {
        IoStatus::from_read(self.read(buf))
    }
}

/// A destination which can be written without blocking.
pub trait WriteNonblocking: Sized {
    /// Makes the writes non-blocking, giving them a timeout.
    fn set_write_nonblocking(&mut self, timeout: Option<Duration>) -> (res: Result<(), IoError>);

    /// Whether the destination is able to take data at all.
    fn can_write(&self) -> (res: bool);

    /// Writes some of the data.
    fn write(&mut self, buf: &[u8]) -> (res: Result<usize, IoError>);

    /// Pushes the data out which was buffered by the previous writes.
    fn flush(&mut self) -> (res: Result<(), IoError>);

    /// Writes some of the data with [`Self::write`], telling a write which would block from a
    /// failed one.
    ///
    /// Nothing is written if there is no data, or if the destination is not able to take any: the
    /// latter is an error.
    fn write_nonblocking(&mut self, buf: &[u8]) -> (status: IoStatus)
        ensures
            exists|able: bool|
                {
                    &&& #[trigger] call_ensures(Self::can_write, (&*old(self),), able)
                    &&& !able ==> *final(self) == *old(self) && status == IoStatus::Failed(
                        crate::error::error_of(ErrorKind::NotConnected),
                    )
                    &&& able && buf@.len() == 0 ==> *final(self) == *old(self) && status
                        == IoStatus::Success(0)
                    &&& able && buf@.len() > 0 ==> exists|
                        writer: &mut Self,
                        res: Result<usize, IoError>,
                    |
                        {
                            &&& *writer == *old(self) && *final(writer) == *final(self)
                            &&& #[trigger] call_ensures(Self::write, (writer, buf), res)
                            &&& status == write_status(res)
                        }
                },
    {
        if !self.can_write() {
            return IoStatus::Failed(IoError::new(ErrorKind::NotConnected));
        }
        if buf.len() == 0 {
            return IoStatus::Success(0);
        }
        IoStatus::from_write(self.write(buf))
    }

    /// Pushes the buffered data out with [`Self::flush`], telling a flush which would block from a
    /// failed one.
    fn flush_nonblocking(&mut self) -> (status: IoStatus)
        ensures
            exists|writer: &mut Self, res: Result<(), IoError>|
                {
                    &&& *writer == *old(self) && *final(writer) == *final(self)
                    &&& #[trigger] call_ensures(Self::flush, (writer,), res)
                    &&& status == flush_status(res)
                },
    {
        IoStatus::from_flush(self.flush())
    }
}

} // verus!
