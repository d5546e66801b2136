//! Laws of errors, of non-blocking I/O and of atomic writes.

use vstd::prelude::*;

use crate::error::{ErrorKind, IoError};
use crate::nonblock::{IoStatus, ReadNonblocking, WriteNonblocking};
use crate::resource::{ResourceId, WriteAtomic, WriteError};

verus! {

/// An error which the library makes is of the kind it is made for, and does not come from the
/// operating system.
pub proof fn law_error_is_of_its_kind(kind: ErrorKind, err: IoError)
    requires
        call_ensures(IoError::new, (kind,), err),
    ensures
        err.kind == kind,
        err.source is None,
{
}

/// A read would block if and only if its error is of that kind, whatever else the error carries. It
/// fails with every other error, and succeeds with the number of the read bytes.
pub proof fn law_status_of_read(res: Result<usize, IoError>, status: IoStatus)
    requires
        call_ensures(IoStatus::from_read, (res,), status),
    ensures
        match res {
            Ok(len) => status == IoStatus::Success(len),
            Err(err) => {
                &&& status is WouldBlock <==> err.kind is WouldBlock
                &&& status !is WouldBlock ==> status == IoStatus::Failed(err)
            },
        },
{
}

/// A write of some data would block if and only if it has taken no data, or if its error says so.
/// It fails with every other error, and succeeds with the number of the taken bytes.
pub proof fn law_status_of_write(res: Result<usize, IoError>, status: IoStatus)
    requires
        call_ensures(IoStatus::from_write, (res,), status),
    ensures
        match res {
            Ok(len) => {
                &&& status is WouldBlock <==> len == 0
                &&& len > 0 ==> status == IoStatus::Success(len)
            },
            Err(err) => {
                &&& status is WouldBlock <==> err.kind is WouldBlock || err.kind is WriteZero
                &&& status !is WouldBlock ==> status == IoStatus::Failed(err)
            },
        },
{
}

/// A flush would block if and only if its error is of that kind, whatever else the error carries.
/// It fails with every other error.
pub proof fn law_status_of_flush(res: Result<(), IoError>, status: IoStatus)
    requires
        call_ensures(IoStatus::from_flush, (res,), status),
    ensures
        match res {
            Ok(_) => status == IoStatus::Success(0),
            Err(err) => {
                &&& status is WouldBlock <==> err.kind is WouldBlock
                &&& status !is WouldBlock ==> status == IoStatus::Failed(err)
            },
        },
{
}

/// A non-blocking read reads once and tells what has become of that read.
pub proof fn law_read_nonblocking<T: ReadNonblocking>(
    source: &mut T,
    buf: &mut [u8],
    status: IoStatus,
)
    requires
        call_ensures(T::read_nonblocking, (source, buf), status),
    ensures
        exists|reader: &mut T, target: &mut [u8], res: Result<usize, IoError>|
            {
                &&& *reader == *old(source)
                &&& *final(reader) == *final(source)
                &&& target@ == old(buf)@
                &&& final(target)@ == final(buf)@
                &&& #[trigger] call_ensures(T::read, (reader, target), res)
                &&& match res {
                    Ok(len) => status == IoStatus::Success(len),
                    Err(err) => if err.kind is WouldBlock {
                        status is WouldBlock
                    } else {
                        status == IoStatus::Failed(err)
                    },
                }
            },
{
}

/// A non-blocking write changes nothing if the destination can't be written, which is an error, or
/// if there is no data. Otherwise it writes once and tells what has become of that write.
pub proof fn law_write_nonblocking<T: WriteNonblocking>(
    destination: &mut T,
    buf: &[u8],
    status: IoStatus,
)
    requires
        call_ensures(T::write_nonblocking, (destination, buf), status),
    ensures
        exists|able: bool|
            {
                &&& #[trigger] call_ensures(T::can_write, (&*old(destination),), able)
                &&& if !able {
                    &&& *final(destination) == *old(destination)
                    &&& status matches IoStatus::Failed(err)
                    &&& err.kind is NotConnected
                    &&& err.source is None
                } else if buf@.len() == 0 {
                    &&& *final(destination) == *old(destination)
                    &&& status == IoStatus::Success(0)
                } else {
                    exists|writer: &mut T, res: Result<usize, IoError>|
                        {
                            &&& *writer == *old(destination)
                            &&& *final(writer) == *final(destination)
                            &&& #[trigger] call_ensures(T::write, (writer, buf), res)
                            &&& match res {
                                Ok(len) => if len == 0 {
                                    status is WouldBlock
                                } else {
                                    status == IoStatus::Success(len)
                                },
                                Err(err) => if err.kind is WouldBlock || err.kind is WriteZero {
                                    status is WouldBlock
                                } else {
                                    status == IoStatus::Failed(err)
                                },
                            }
                        }
                }
            },
{
}

/// A non-blocking flush flushes once and tells what has become of that flush.
pub proof fn law_flush_nonblocking<T: WriteNonblocking>(destination: &mut T, status: IoStatus)
    requires
        call_ensures(T::flush_nonblocking, (destination,), status),
    ensures
        exists|writer: &mut T, res: Result<(), IoError>|
            {
                &&& *writer == *old(destination)
                &&& *final(writer) == *final(destination)
                &&& #[trigger] call_ensures(T::flush, (writer,), res)
                &&& match res {
                    Ok(_) => status == IoStatus::Success(0),
                    Err(err) => if err.kind is WouldBlock {
                        status is WouldBlock
                    } else {
                        status == IoStatus::Failed(err)
                    },
                }
            },
{
}

/// An atomic write to a resource which is not ready changes nothing and says so. To one which is
/// ready it succeeds if and only if the data was written or buffered, and fails with the very error
/// which has kept the data from that.
pub proof fn law_atomic_write<T: WriteAtomic>(
    resource: &mut T,
    buf: &[u8],
    res: Result<(), WriteError>,
)
    requires
        call_ensures(T::write_atomic, (resource, buf), res),
    ensures
        exists|ready: bool|
            {
                &&& #[trigger] call_ensures(T::is_ready_to_write, (&*old(resource),), ready)
                &&& !ready ==> {
                    &&& *final(resource) == *old(resource)
                    &&& res == Err::<(), WriteError>(WriteError::NotReady)
                }
                &&& ready ==> exists|writer: &mut T, written: Result<(), IoError>|
                    {
                        &&& *writer == *old(resource)
                        &&& *final(writer) == *final(resource)
                        &&& #[trigger] call_ensures(T::write_or_buf, (writer, buf), written)
                        &&& res is Ok <==> written is Ok
                        &&& written matches Err(err) ==> res == Err::<(), WriteError>(
                            WriteError::Io(err),
                        )
                    }
            },
{
}

/// Neither an atomic write nor the writing below it fails with an error which calls for buffering
/// the data.
pub proof fn law_data_is_buffered<T: WriteAtomic>(
    resource: &mut T,
    buf: &[u8],
    written: Result<(), IoError>,
    res: Result<(), WriteError>,
)
    ensures
        call_ensures(T::write_or_buf, (resource, buf), written) ==> (written matches Err(err) ==> !(
        err.kind is WouldBlock || err.kind is Interrupted || err.kind is WriteZero)),
        call_ensures(T::write_atomic, (resource, buf), res) ==> (res matches Err(
            WriteError::Io(err),
        ) ==> !(err.kind is WouldBlock || err.kind is Interrupted || err.kind is WriteZero)),
{
}

/// An error of the operating system becomes an error of a write with nothing lost.
pub proof fn law_write_error_keeps_io_error(err: IoError, res: WriteError)
    requires
        call_ensures(<WriteError as From<IoError>>::from, (err,), res),
    ensures
        res == WriteError::Io(err),
{
}

/// The last number belongs to the waker, and no other.
pub proof fn law_waker_has_last_number(id: ResourceId, waker: ResourceId, is_waker: bool)
    requires
        call_ensures(ResourceId::waker, (), waker),
        call_ensures(ResourceId::is_waker, (&id,), is_waker),
    ensures
        waker.0 == 0xffff_ffff_ffff_ffff,
        is_waker <==> id == waker,
{
}

} // verus!
