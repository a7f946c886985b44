//! Arguments of the engine's file calls: open flags and seek positions.
use crate::error::Error;
use vstd::prelude::*;

verus! {

/// Open flags understood by the engine.
pub const O_RDONLY: i32 = 0;
pub const O_WRONLY: i32 = 1;
pub const O_RDWR: i32 = 2;
pub const O_CREAT: i32 = 64;
pub const O_TRUNC: i32 = 512;
pub const O_APPEND: i32 = 1024;

/// Seek origins understood by the engine.
pub const SEEK_SET: u32 = 0;
pub const SEEK_CUR: u32 = 1;
pub const SEEK_END: u32 = 2;

/// Where a seek moves the file position to.
#[derive(Clone, Copy, Debug, PartialEq, Eq, Structural)]
pub enum SeekFrom {
    /// This many bytes from the start.
    Start(u64),
    /// This many bytes from the end.
    End(i64),
    /// This many bytes from the current position.
    Current(i64),
}

/// The engine's offset and origin for a seek, if the offset fits.
pub open spec fn seek_args_of(pos: SeekFrom) -> Result<(i64, u32), Error> {
    match pos {
        SeekFrom::Start(o) => if o <= i64::MAX as u64 {
            Ok((o as i64, SEEK_SET))
        } else {
            Err(Error::InvalidArgument)
        },
        SeekFrom::End(o) => Ok((o, SEEK_END)),
        SeekFrom::Current(o) => Ok((o, SEEK_CUR)),
    }
}

/// Turns a seek position into the engine's offset and origin; an
/// offset from the start that does not fit a signed offset is refused.
pub fn seek_args(pos: SeekFrom) -> (r: Result<(i64, u32), Error>)
    ensures
        r == seek_args_of(pos),
{
    match pos {
        SeekFrom::Start(o) => if o <= i64::MAX as u64 {
            Ok((o as i64, SEEK_SET))
        } else {
            Err(Error::InvalidArgument)
        },
        SeekFrom::End(o) => Ok((o, SEEK_END)),
        SeekFrom::Current(o) => Ok((o, SEEK_CUR)),
    }
}

/// How a file is to be opened.
#[derive(Clone, Copy, Debug, PartialEq, Eq, Structural)]
pub struct OpenOptions {
    pub read: bool,
    pub write: bool,
    pub append: bool,
    pub truncate: bool,
    pub create: bool,
}

/// The engine's open flags for a set of options; `None` when they ask for
/// no access, or to create or truncate without writing.
pub open spec fn open_flags_of(o: OpenOptions) -> Option<i32> {
    let writes = o.write || o.append;
    if !o.read && !writes {
        None
    } else if (o.create || o.truncate) && !writes {
        None
    } else {
        let access = if !writes {
            O_RDONLY
        } else if o.read {
            O_RDWR
        } else {
            O_WRONLY
        };
        let flags = access + (if o.create { O_CREAT } else { 0 }) + (if o.truncate {
            O_TRUNC
        } else {
            0
        }) + (if o.append { O_APPEND } else { 0 });
        Some(flags as i32)
    }
}

impl OpenOptions {
    /// No access asked for yet.
    pub fn new() -> (r: OpenOptions)
        ensures
            r == (OpenOptions { read: false, write: false, append: false, truncate: false, create: false }),
    {
        OpenOptions { read: false, write: false, append: false, truncate: false, create: false }
    }

    /// Reading an existing file.
    pub fn for_reading() -> (r: OpenOptions)
        ensures
            r == (OpenOptions { read: true, write: false, append: false, truncate: false, create: false }),
            open_flags_of(r) == Some(O_RDONLY),
    {
        OpenOptions { read: true, write: false, append: false, truncate: false, create: false }
    }

    /// Reading and writing a file, created if missing.
    pub fn for_creating() -> (r: OpenOptions)
        ensures
            r == (OpenOptions { read: true, write: true, append: false, truncate: false, create: true }),
            open_flags_of(r) == Some((O_CREAT + O_RDWR) as i32),
    {
        OpenOptions { read: true, write: true, append: false, truncate: false, create: true }
    }

    pub fn read(self, read: bool) -> (r: OpenOptions)
        ensures
            r == (OpenOptions { read, ..self }),
    {
        OpenOptions { read, ..self }
    }

    pub fn write(self, write: bool) -> (r: OpenOptions)
        ensures
            r == (OpenOptions { write, ..self }),
    {
        OpenOptions { write, ..self }
    }

    pub fn append(self, append: bool) -> (r: OpenOptions)
        ensures
            r == (OpenOptions { append, ..self }),
    {
        OpenOptions { append, ..self }
    }

    pub fn truncate(self, truncate: bool) -> (r: OpenOptions)
        ensures
            r == (OpenOptions { truncate, ..self }),
    {
        OpenOptions { truncate, ..self }
    }

    pub fn create(self, create: bool) -> (r: OpenOptions)
        ensures
            r == (OpenOptions { create, ..self }),
    {
        OpenOptions { create, ..self }
    }

    /// The engine's open flags; `InvalidArgument` when the options ask for
    /// no access, or to create or truncate without writing.
    pub fn flags(&self) -> (r: Result<i32, Error>)
        ensures
            open_flags_of(*self) is None <==> r == Err::<i32, Error>(Error::InvalidArgument),
            open_flags_of(*self) is Some ==> r == Ok::<i32, Error>(open_flags_of(*self)->Some_0),
    {
        let writes = self.write || self.append;
        if !self.read && !writes {
            return Err(Error::InvalidArgument);
        }
        if (self.create || self.truncate) && !writes {
            return Err(Error::InvalidArgument);
        }
        let access = if !writes {
            O_RDONLY
        } else if self.read {
            O_RDWR
        } else {
            O_WRONLY
        };
        let mut flags = access;
        if self.create {
            flags = flags + O_CREAT;
        }
        if self.truncate {
            flags = flags + O_TRUNC;
        }
        if self.append {
            flags = flags + O_APPEND;
        }
        Ok(flags)
    }
}

} // verus!
