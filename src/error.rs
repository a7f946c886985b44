//! Engine status codes and the closed error taxonomy they stand for.
use vstd::prelude::*;

verus! {

/// Success.
pub const EOK: i32 = 0;
/// Operation not permitted.
pub const EPERM: i32 = 1;
/// No such file or directory.
pub const ENOENT: i32 = 2;
/// I/O error.
pub const EIO: i32 = 5;
/// Permission denied.
pub const EACCES: i32 = 13;
/// Entry already exists.
pub const EEXIST: i32 = 17;
/// Not a directory.
pub const ENOTDIR: i32 = 20;
/// Is a directory.
pub const EISDIR: i32 = 21;
/// Invalid argument.
pub const EINVAL: i32 = 22;
/// No space left on device.
pub const ENOSPC: i32 = 28;
/// Operation not supported.
pub const ENOTSUP: i32 = 95;

/// What went wrong in an engine call, as a kind without payload
/// (but for codes that have no kind of their own).
#[derive(Clone, Copy, Debug, PartialEq, Eq, Structural)]
pub enum Error {
    NoEntry,
    AlreadyExists,
    InvalidArgument,
    PermissionDenied,
    IoError,
    NoSpace,
    NotADirectory,
    IsADirectory,
    Unsupported,
    Other(i32),
}

/// The kind that an engine status code stands for.
pub open spec fn error_of(code: i32) -> Error {
    if code == ENOENT {
        Error::NoEntry
    } else if code == EEXIST {
        Error::AlreadyExists
    } else if code == EINVAL {
        Error::InvalidArgument
    } else if code == EPERM || code == EACCES {
        Error::PermissionDenied
    } else if code == EIO {
        Error::IoError
    } else if code == ENOSPC {
        Error::NoSpace
    } else if code == ENOTDIR {
        Error::NotADirectory
    } else if code == EISDIR {
        Error::IsADirectory
    } else if code == ENOTSUP {
        Error::Unsupported
    } else {
        Error::Other(code)
    }
}

/// The status code handed back to the engine for an error kind; never `EOK`.
pub open spec fn errno_of(e: Error) -> i32 {
    match e {
        Error::NoEntry => ENOENT,
        Error::AlreadyExists => EEXIST,
        Error::InvalidArgument => EINVAL,
        Error::PermissionDenied => EACCES,
        Error::IoError => EIO,
        Error::NoSpace => ENOSPC,
        Error::NotADirectory => ENOTDIR,
        Error::IsADirectory => EISDIR,
        Error::Unsupported => ENOTSUP,
        Error::Other(c) => if c == EOK { EIO } else { c },
    }
}

/// The result an engine status code stands for.
pub open spec fn result_of(code: i32) -> Result<(), Error> {
    if code == EOK {
        Ok(())
    } else {
        Err(error_of(code))
    }
}

/// The status code handed back to the engine for a result.
pub open spec fn status_of(r: Result<(), Error>) -> i32 {
    match r {
        Ok(()) => EOK,
        Err(e) => errno_of(e),
    }
}

impl Error {
    /// Maps a non-zero engine status code.
    pub fn from_errno(code: i32) -> (e: Error)
        ensures
            e == error_of(code),
    {
        if code == ENOENT {
            Error::NoEntry
        } else if code == EEXIST {
            Error::AlreadyExists
        } else if code == EINVAL {
            Error::InvalidArgument
        } else if code == EPERM || code == EACCES {
            Error::PermissionDenied
        } else if code == EIO {
            Error::IoError
        } else if code == ENOSPC {
            Error::NoSpace
        } else if code == ENOTDIR {
            Error::NotADirectory
        } else if code == EISDIR {
            Error::IsADirectory
        } else if code == ENOTSUP {
            Error::Unsupported
        } else {
            Error::Other(code)
        }
    }

    /// The status code that reports this error to the engine.
    pub fn errno(&self) -> (c: i32)
        ensures
            c == errno_of(*self),
            c != EOK,
    {
        match *self {
            Error::NoEntry => ENOENT,
            Error::AlreadyExists => EEXIST,
            Error::InvalidArgument => EINVAL,
            Error::PermissionDenied => EACCES,
            Error::IoError => EIO,
            Error::NoSpace => ENOSPC,
            Error::NotADirectory => ENOTDIR,
            Error::IsADirectory => EISDIR,
            Error::Unsupported => ENOTSUP,
            Error::Other(c) => if c == EOK { EIO } else { c },
        }
    }
}

/// Maps an engine status code: `EOK` is success, anything else the
/// matching error kind.
pub fn errno_to_result(code: i32) -> (r: Result<(), Error>)
    ensures
        r == result_of(code),
        r is Ok <==> code == EOK,
{
    if code == EOK {
        Ok(())
    } else {
        Err(Error::from_errno(code))
    }
}

/// Maps a result back into the engine's status convention.
pub fn result_to_errno(r: &Result<(), Error>) -> (c: i32)
    ensures
        c == status_of(*r),
        c == EOK <==> r is Ok,
{
    match r {
        Ok(()) => EOK,
        Err(e) => e.errno(),
    }
}

/// A result survives the trip to a status code and back, unless its error
/// is one without a kind of its own.
pub proof fn lemma_status_round_trip(r: Result<(), Error>)
    requires
        !(r is Err && r->Err_0 is Other),
    ensures
        result_of(status_of(r)) == r,
{
    match r {
        Ok(u) => {
            assert(status_of(r) == EOK);
            assert(r == Ok::<(), Error>(()));
        },
        Err(e) => {
            assert(errno_of(e) != EOK);
            assert(error_of(errno_of(e)) == e);
        },
    }
}

} // verus!
