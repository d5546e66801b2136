//! Errors reported by the operating system.

use vstd::prelude::*;

verus! {

/// Declares the error of the standard I/O operations; the library only carries it through.
#[verifier::external_type_specification]
#[verifier::external_body]
pub struct ExStdIoError(std::io::Error);

/// Kinds of I/O errors which the library tells apart.
#[derive(Copy, Clone, PartialEq, Eq, Hash, Debug, Structural)]
pub enum ErrorKind {
    /// The operation needs to block to complete.
    WouldBlock,
    /// The operation was interrupted.
    Interrupted,
    /// A write consumed none of the data.
    WriteZero,
    /// The operation has not completed in time.
    TimedOut,
    /// The resource is not connected.
    NotConnected,
    /// The other side is gone.
    BrokenPipe,
    /// Any other kind of error.
    Other,
}

/// I/O error: its kind and the error of the operating system, if that was the origin.
#[derive(Debug)]
pub struct IoError {
    /// Kind of the error.
    pub kind: ErrorKind,
    /// Error of the operating system with all its details.
    pub source: Option<std::io::Error>,
}

/// The error of a certain kind which does not come from the operating system.
pub open spec fn error_of(kind: ErrorKind) -> IoError {
    IoError { kind, source: None }
}

impl IoError {
    /// Creates the error of a certain kind which does not come from the operating system.
    pub fn new(kind: ErrorKind) -> (res: IoError)
        ensures
            res == error_of(kind),
    {
        IoError { kind, source: None }
    }
}

/// The text of the error of the standard library which is of the given kind.
pub uninterp spec fn kind_text(kind: ErrorKind) -> Seq<char>;

/// Shows the kind of an error with the `Display` formatting of `std::io::ErrorKind`.
///
/// Claims that the text depends on the kind alone. Which text it is, is left unsaid.
#[verifier::external_body]
fn show_kind(kind: ErrorKind) -> (res: String)
    ensures
        res@ == kind_text(kind),
{
    let kind = match kind {
        ErrorKind::WouldBlock => std::io::ErrorKind::WouldBlock,
        ErrorKind::Interrupted => std::io::ErrorKind::Interrupted,
        ErrorKind::WriteZero => std::io::ErrorKind::WriteZero,
        ErrorKind::TimedOut => std::io::ErrorKind::TimedOut,
        ErrorKind::NotConnected => std::io::ErrorKind::NotConnected,
        ErrorKind::BrokenPipe => std::io::ErrorKind::BrokenPipe,
        ErrorKind::Other => std::io::ErrorKind::Other,
    };
    kind.to_string()
}

impl IoError {
    /// Shows the error of the operating system, or the kind of the error if that was not the
    /// origin.
    pub fn to_string(&self) -> (res: String)
        ensures
            match self.source {
                Some(source) => vstd::string::to_string_from_display_ensures(&source, res),
                None => res@ == kind_text(self.kind),
            },
    {
        match &self.source {
            Some(source) => source.to_string(),
            None => show_kind(self.kind),
        }
    }
}

} // verus!
