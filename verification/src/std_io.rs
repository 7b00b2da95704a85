//! Conversions between this crate's I/O vocabulary and `std::io`: seek positions, error kinds
//! and errors.
use crate::io::{Error, ErrorKind, ReadExactError, SeekFrom};
use vstd::prelude::*;

verus! {

#[verifier::external_type_specification]
pub struct ExStdErrorKind(std::io::ErrorKind);

#[verifier::external_type_specification]
pub struct ExStdSeekFrom(std::io::SeekFrom);

#[verifier::external_type_specification]
#[verifier::external_body]
pub struct ExStdIoError(std::io::Error);

/// The `std::io` error kind that an error kind of this crate stands for; the kinds that
/// `std::io` does not share with this crate become `Other`.
pub open spec fn std_kind_of(kind: ErrorKind) -> std::io::ErrorKind {
    match kind {
        ErrorKind::NotFound => std::io::ErrorKind::NotFound,
        ErrorKind::PermissionDenied => std::io::ErrorKind::PermissionDenied,
        ErrorKind::ConnectionRefused => std::io::ErrorKind::ConnectionRefused,
        ErrorKind::ConnectionReset => std::io::ErrorKind::ConnectionReset,
        ErrorKind::ConnectionAborted => std::io::ErrorKind::ConnectionAborted,
        ErrorKind::NotConnected => std::io::ErrorKind::NotConnected,
        ErrorKind::AddrInUse => std::io::ErrorKind::AddrInUse,
        ErrorKind::AddrNotAvailable => std::io::ErrorKind::AddrNotAvailable,
        ErrorKind::BrokenPipe => std::io::ErrorKind::BrokenPipe,
        ErrorKind::AlreadyExists => std::io::ErrorKind::AlreadyExists,
        ErrorKind::InvalidInput => std::io::ErrorKind::InvalidInput,
        ErrorKind::InvalidData => std::io::ErrorKind::InvalidData,
        ErrorKind::TimedOut => std::io::ErrorKind::TimedOut,
        ErrorKind::Interrupted => std::io::ErrorKind::Interrupted,
        ErrorKind::Unsupported => std::io::ErrorKind::Unsupported,
        ErrorKind::OutOfMemory => std::io::ErrorKind::OutOfMemory,
        ErrorKind::WriteZero => std::io::ErrorKind::WriteZero,
        _ => std::io::ErrorKind::Other,
    }
}

/// The error kind of this crate that a `std::io` error kind stands for; the kinds that this
/// crate does not share with `std::io` become `Other`.
pub open spec fn kind_from_std(kind: std::io::ErrorKind) -> ErrorKind {
    match kind {
        std::io::ErrorKind::NotFound => ErrorKind::NotFound,
        std::io::ErrorKind::PermissionDenied => ErrorKind::PermissionDenied,
        std::io::ErrorKind::ConnectionRefused => ErrorKind::ConnectionRefused,
        std::io::ErrorKind::ConnectionReset => ErrorKind::ConnectionReset,
        std::io::ErrorKind::ConnectionAborted => ErrorKind::ConnectionAborted,
        std::io::ErrorKind::NotConnected => ErrorKind::NotConnected,
        std::io::ErrorKind::AddrInUse => ErrorKind::AddrInUse,
        std::io::ErrorKind::AddrNotAvailable => ErrorKind::AddrNotAvailable,
        std::io::ErrorKind::BrokenPipe => ErrorKind::BrokenPipe,
        std::io::ErrorKind::AlreadyExists => ErrorKind::AlreadyExists,
        std::io::ErrorKind::InvalidInput => ErrorKind::InvalidInput,
        std::io::ErrorKind::InvalidData => ErrorKind::InvalidData,
        std::io::ErrorKind::TimedOut => ErrorKind::TimedOut,
        std::io::ErrorKind::Interrupted => ErrorKind::Interrupted,
        std::io::ErrorKind::Unsupported => ErrorKind::Unsupported,
        std::io::ErrorKind::OutOfMemory => ErrorKind::OutOfMemory,
        std::io::ErrorKind::WriteZero => ErrorKind::WriteZero,
        _ => ErrorKind::Other,
    }
}

/// The `std::io` seek position with the same variant and offset.
pub open spec fn std_seek_of(pos: SeekFrom) -> std::io::SeekFrom {
    match pos {
        SeekFrom::Start(n) => std::io::SeekFrom::Start(n),
        SeekFrom::End(n) => std::io::SeekFrom::End(n),
        SeekFrom::Current(n) => std::io::SeekFrom::Current(n),
    }
}

/// The seek position of this crate with the same variant and offset.
pub open spec fn seek_from_std(pos: std::io::SeekFrom) -> SeekFrom {
    match pos {
        std::io::SeekFrom::Start(n) => SeekFrom::Start(n),
        std::io::SeekFrom::End(n) => SeekFrom::End(n),
        std::io::SeekFrom::Current(n) => SeekFrom::Current(n),
    }
}

/// Converting an error kind of this crate to `std::io` and back gives the same kind: every
/// kind of this crate has a `std::io` counterpart.
pub proof fn lemma_kind_round_trip(kind: ErrorKind)
    ensures
        kind_from_std(std_kind_of(kind)) == kind,
{
}

/// Converting a seek position to `std::io` and back, or the other way round, gives it back.
pub proof fn lemma_seek_round_trip(pos: SeekFrom, std_pos: std::io::SeekFrom)
    ensures
        seek_from_std(std_seek_of(pos)) == pos,
        std_seek_of(seek_from_std(std_pos)) == std_pos,
{
}

impl From<SeekFrom> for std::io::SeekFrom {
    fn from(pos: SeekFrom) -> (r: Self) {
        match pos {
            SeekFrom::Start(n) => std::io::SeekFrom::Start(n),
            SeekFrom::End(n) => std::io::SeekFrom::End(n),
            SeekFrom::Current(n) => std::io::SeekFrom::Current(n),
        }
    }
}

impl vstd::std_specs::convert::FromSpecImpl<SeekFrom> for std::io::SeekFrom {
    open spec fn obeys_from_spec() -> bool {
        true
    }

    open spec fn from_spec(v: SeekFrom) -> Self {
        std_seek_of(v)
    }
}

impl From<std::io::SeekFrom> for SeekFrom {
    fn from(pos: std::io::SeekFrom) -> (r: SeekFrom) {
        match pos {
            std::io::SeekFrom::Start(n) => SeekFrom::Start(n),
            std::io::SeekFrom::End(n) => SeekFrom::End(n),
            std::io::SeekFrom::Current(n) => SeekFrom::Current(n),
        }
    }
}

impl vstd::std_specs::convert::FromSpecImpl<std::io::SeekFrom> for SeekFrom {
    open spec fn obeys_from_spec() -> bool {
        true
    }

    open spec fn from_spec(v: std::io::SeekFrom) -> Self {
        seek_from_std(v)
    }
}

impl From<ErrorKind> for std::io::ErrorKind {
    fn from(value: ErrorKind) -> (r: Self) {
        match value {
            ErrorKind::NotFound => std::io::ErrorKind::NotFound,
            ErrorKind::PermissionDenied => std::io::ErrorKind::PermissionDenied,
            ErrorKind::ConnectionRefused => std::io::ErrorKind::ConnectionRefused,
            ErrorKind::ConnectionReset => std::io::ErrorKind::ConnectionReset,
            ErrorKind::ConnectionAborted => std::io::ErrorKind::ConnectionAborted,
            ErrorKind::NotConnected => std::io::ErrorKind::NotConnected,
            ErrorKind::AddrInUse => std::io::ErrorKind::AddrInUse,
            ErrorKind::AddrNotAvailable => std::io::ErrorKind::AddrNotAvailable,
            ErrorKind::BrokenPipe => std::io::ErrorKind::BrokenPipe,
            ErrorKind::AlreadyExists => std::io::ErrorKind::AlreadyExists,
            ErrorKind::InvalidInput => std::io::ErrorKind::InvalidInput,
            ErrorKind::InvalidData => std::io::ErrorKind::InvalidData,
            ErrorKind::TimedOut => std::io::ErrorKind::TimedOut,
            ErrorKind::Interrupted => std::io::ErrorKind::Interrupted,
            ErrorKind::Unsupported => std::io::ErrorKind::Unsupported,
            ErrorKind::OutOfMemory => std::io::ErrorKind::OutOfMemory,
            ErrorKind::WriteZero => std::io::ErrorKind::WriteZero,
            _ => std::io::ErrorKind::Other,
        }
    }
}

impl vstd::std_specs::convert::FromSpecImpl<ErrorKind> for std::io::ErrorKind {
    open spec fn obeys_from_spec() -> bool {
        true
    }

    open spec fn from_spec(v: ErrorKind) -> Self {
        std_kind_of(v)
    }
}

impl From<std::io::ErrorKind> for ErrorKind {
    fn from(value: std::io::ErrorKind) -> (r: Self) {
        match value {
            std::io::ErrorKind::NotFound => ErrorKind::NotFound,
            std::io::ErrorKind::PermissionDenied => ErrorKind::PermissionDenied,
            std::io::ErrorKind::ConnectionRefused => ErrorKind::ConnectionRefused,
            std::io::ErrorKind::ConnectionReset => ErrorKind::ConnectionReset,
            std::io::ErrorKind::ConnectionAborted => ErrorKind::ConnectionAborted,
            std::io::ErrorKind::NotConnected => ErrorKind::NotConnected,
            std::io::ErrorKind::AddrInUse => ErrorKind::AddrInUse,
            std::io::ErrorKind::AddrNotAvailable => ErrorKind::AddrNotAvailable,
            std::io::ErrorKind::BrokenPipe => ErrorKind::BrokenPipe,
            std::io::ErrorKind::AlreadyExists => ErrorKind::AlreadyExists,
            std::io::ErrorKind::InvalidInput => ErrorKind::InvalidInput,
            std::io::ErrorKind::InvalidData => ErrorKind::InvalidData,
            std::io::ErrorKind::TimedOut => ErrorKind::TimedOut,
            std::io::ErrorKind::Interrupted => ErrorKind::Interrupted,
            std::io::ErrorKind::Unsupported => ErrorKind::Unsupported,
            std::io::ErrorKind::OutOfMemory => ErrorKind::OutOfMemory,
            std::io::ErrorKind::WriteZero => ErrorKind::WriteZero,
            _ => ErrorKind::Other,
        }
    }
}

impl vstd::std_specs::convert::FromSpecImpl<std::io::ErrorKind> for ErrorKind {
    open spec fn obeys_from_spec() -> bool {
        true
    }

    open spec fn from_spec(v: std::io::ErrorKind) -> Self {
        kind_from_std(v)
    }
}

/// The kind that `std::io::Error::kind` reports for an error. The error is opaque here; its kind
/// is all that this crate reads of it.
pub uninterp spec fn std_error_kind(err: std::io::Error) -> std::io::ErrorKind;

/// The kind of a `std::io::Error` (`std::io::Error::kind`).
#[verifier::external_body]
pub(crate) fn io_error_kind_of(err: &std::io::Error) -> (r: std::io::ErrorKind)
    ensures
        r == std_error_kind(*err),
{
    err.kind()
}

/// A `std::io::Error` of the given kind whose payload is the `Debug` rendering of `err`
/// (`std::io::Error::new`). Claimed: the error reports the kind it was made with. Its payload
/// is not described.
#[verifier::external_body]
pub(crate) fn io_error_with_debug<T: core::fmt::Debug + ?Sized>(kind: std::io::ErrorKind, err: &T) -> (r: std::io::Error)
    ensures
        std_error_kind(r) == kind,
{
    std::io::Error::new(kind, format!("{err:?}"))
}

/// A `std::io::Error` of the given kind with no payload (`From<std::io::ErrorKind>` for
/// `std::io::Error`). Claimed: the error reports the kind it was made from.
#[verifier::external_body]
pub(crate) fn io_error_of_kind(kind: std::io::ErrorKind) -> (r: std::io::Error)
    ensures
        std_error_kind(r) == kind,
{
    std::io::Error::from(kind)
}

impl Error for std::io::Error {
    /// The kind of this crate that the `std::io` kind stands for.
    open spec fn models_kind(&self) -> bool {
        true
    }

    open spec fn kind_of(&self) -> ErrorKind {
        kind_from_std(std_error_kind(*self))
    }

    fn kind(&self) -> (k: ErrorKind) {
        ErrorKind::from(io_error_kind_of(self))
    }
}

/// Convert an error of this crate into a [`std::io::Error`], keeping its kind (as far as
/// `std::io` has it) and carrying its `Debug` rendering as the payload.
pub fn to_std_error<T: Error + core::fmt::Debug>(err: T) -> (r: std::io::Error)
    ensures
        err.models_kind() ==> std_error_kind(r) == std_kind_of(err.kind_of()),
{
    let kind = std::io::ErrorKind::from(err.kind());
    io_error_with_debug(kind, &err)
}

/// A `std::io::Error` of the given kind carrying `msg` as its payload
/// (`std::io::Error::new`). Claimed: the error reports the kind it was made with. Its payload
/// is not described.
#[verifier::external_body]
fn io_error_with_message(kind: std::io::ErrorKind, msg: &str) -> (r: std::io::Error)
    ensures
        std_error_kind(r) == kind,
{
    std::io::Error::new(kind, msg.to_owned())
}

impl From<ReadExactError<std::io::Error>> for std::io::Error {
    /// A premature end of the stream becomes an `UnexpectedEof` error; any other error keeps
    /// its kind and carries its `Debug` rendering.
    fn from(err: ReadExactError<std::io::Error>) -> (r: Self)
        ensures
            err matches ReadExactError::UnexpectedEof ==> std_error_kind(r) == std::io::ErrorKind::UnexpectedEof,
            err matches ReadExactError::Other(e) ==> std_error_kind(r) == std_error_kind(e),
    {
        match err {
            ReadExactError::UnexpectedEof => io_error_with_message(std::io::ErrorKind::UnexpectedEof, "UnexpectedEof"),
            ReadExactError::Other(e) => {
                let kind = io_error_kind_of(&e);
                io_error_with_debug(kind, &e)
            },
        }
    }
}

impl vstd::std_specs::convert::FromSpecImpl<ReadExactError<std::io::Error>> for std::io::Error {
    /// `std::io::Error` is opaque here: no specification describes the error built.
    open spec fn obeys_from_spec() -> bool {
        false
    }

    open spec fn from_spec(v: ReadExactError<std::io::Error>) -> Self {
        vstd::pervasive::arbitrary()
    }
}

} // verus!
