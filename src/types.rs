//! Plain records the engine's inode queries are turned into.
use vstd::prelude::*;

verus! {

/// Bits of a mode that give the file's type.
pub const S_IFMT: u32 = 0o170000;
pub const S_IFDIR: u32 = 0o040000;
pub const S_IFREG: u32 = 0o100000;
pub const S_IFLNK: u32 = 0o120000;
/// Permission bits of a mode (with set-user-id, set-group-id, sticky).
pub const PERMISSION_BITS: u32 = 0o7777;

/// Permission bits of a file.
#[derive(Clone, Copy, Debug, PartialEq, Eq, Structural)]
pub struct Permissions(pub u32);

impl Permissions {
    /// Permissions from a full mode; the type bits are dropped.
    pub fn from_mode(mode: u32) -> (r: Permissions)
        ensures
            r.0 == mode % 4096,
    {
        Permissions(mode % 4096)
    }

    /// The permission bits.
    pub fn mode(&self) -> (r: u32)
        ensures
            r == self.0,
    {
        self.0
    }

    /// Whether nobody may write.
    pub fn readonly(&self) -> (r: bool)
        ensures
            r == ((self.0 / 128) % 2 == 0 && (self.0 / 16) % 2 == 0 && (self.0 / 2) % 2 == 0),
    {
        (self.0 / 128) % 2 == 0 && (self.0 / 16) % 2 == 0 && (self.0 / 2) % 2 == 0
    }
}

/// Size, mode and timestamps of a file.
#[derive(Clone, Copy, Debug, PartialEq, Eq, Structural)]
pub struct Metadata {
    pub size: u64,
    pub mode: u32,
    pub accessed: u32,
    pub modified: u32,
    pub created: u32,
}

/// The type bits of a mode.
pub open spec fn type_bits(mode: u32) -> u32 {
    ((mode / 4096) % 16 * 4096) as u32
}

impl Metadata {
    /// Size in bytes.
    pub fn len(&self) -> (r: u64)
        ensures
            r == self.size,
    {
        self.size
    }

    /// Permission bits.
    pub fn permissions(&self) -> (r: Permissions)
        ensures
            r.0 == self.mode % 4096,
    {
        Permissions::from_mode(self.mode)
    }

    fn file_type_bits(&self) -> (r: u32)
        ensures
            r == type_bits(self.mode),
    {
        (self.mode / 4096) % 16 * 4096
    }

    pub fn is_dir(&self) -> (r: bool)
        ensures
            r == (type_bits(self.mode) == S_IFDIR),
    {
        self.file_type_bits() == S_IFDIR
    }

    pub fn is_file(&self) -> (r: bool)
        ensures
            r == (type_bits(self.mode) == S_IFREG),
    {
        self.file_type_bits() == S_IFREG
    }

    pub fn is_symlink(&self) -> (r: bool)
        ensures
            r == (type_bits(self.mode) == S_IFLNK),
    {
        self.file_type_bits() == S_IFLNK
    }

    /// Last access time, in seconds since the epoch.
    pub fn accessed(&self) -> (r: u32)
        ensures
            r == self.accessed,
    {
        self.accessed
    }

    /// Last modification time, in seconds since the epoch.
    pub fn modified(&self) -> (r: u32)
        ensures
            r == self.modified,
    {
        self.modified
    }

    /// Inode change time, in seconds since the epoch.
    pub fn created(&self) -> (r: u32)
        ensures
            r == self.created,
    {
        self.created
    }
}

} // verus!
