//! Directory entries as copied out of the engine's directory stream, and
//! what a recursive removal does with each of them.
use crate::name::{decode_lossy, utf8_lossy, CName};
use vstd::utf8::{decode_utf8, valid_utf8};
use vstd::prelude::*;

verus! {

/// Entry type codes of the on-disk directory format.
pub const DE_UNKNOWN: u8 = 0;
pub const DE_REG_FILE: u8 = 1;
pub const DE_DIR: u8 = 2;
pub const DE_CHRDEV: u8 = 3;
pub const DE_BLKDEV: u8 = 4;
pub const DE_FIFO: u8 = 5;
pub const DE_SOCK: u8 = 6;
pub const DE_SYMLINK: u8 = 7;

/// Type of a directory entry, one code of the on-disk format.
#[derive(Clone, Copy, Debug, PartialEq, Eq, Hash, Structural)]
pub struct FileType(pub u8);

impl FileType {
    #[must_use]
    pub fn is_dir(&self) -> (r: bool)
        ensures
            r == (self.0 == DE_DIR),
    {
        self.is(DE_DIR)
    }

    #[must_use]
    pub fn is_file(&self) -> (r: bool)
        ensures
            r == (self.0 == DE_REG_FILE),
    {
        self.is(DE_REG_FILE)
    }

    #[must_use]
    pub fn is_symlink(&self) -> (r: bool)
        ensures
            r == (self.0 == DE_SYMLINK),
    {
        self.is(DE_SYMLINK)
    }

    #[must_use]
    pub fn is_block_device(&self) -> (r: bool)
        ensures
            r == (self.0 == DE_BLKDEV),
    {
        self.is(DE_BLKDEV)
    }

    #[must_use]
    pub fn is_char_device(&self) -> (r: bool)
        ensures
            r == (self.0 == DE_CHRDEV),
    {
        self.is(DE_CHRDEV)
    }

    #[must_use]
    pub fn is_fifo(&self) -> (r: bool)
        ensures
            r == (self.0 == DE_FIFO),
    {
        self.is(DE_FIFO)
    }

    #[must_use]
    pub fn is_socket(&self) -> (r: bool)
        ensures
            r == (self.0 == DE_SOCK),
    {
        self.is(DE_SOCK)
    }

    fn is(&self, ft: u8) -> (r: bool)
        ensures
            r == (self.0 == ft),
    {
        self.0 == ft
    }
}

/// A directory path ending in a separator, as entry paths are built on.
pub open spec fn with_separator(dir: Seq<char>) -> Seq<char> {
    if dir.len() > 0 && dir.last() == '/' {
        dir
    } else {
        dir.push('/')
    }
}

/// `dir` with a separator appended unless it already ends in one, so that
/// entry paths built on it name entries inside it.
pub fn directory_prefix(dir: &CName) -> (r: String)
    ensures
        r@ == with_separator(dir@),
{
    let d = dir.as_str();
    let n = d.unicode_len();
    let mut p = String::from_str(d);
    if !(n > 0 && d.get_char(n - 1) == '/') {
        proof {
            reveal_strlit("/");
        }
        p.append("/");
        assert(p@ =~= d@.push('/'));
    }
    p
}

/// The entries `.` and `..` that every directory lists.
pub open spec fn is_dot_entry(name: Seq<char>) -> bool {
    name == seq!['.'] || name == seq!['.', '.']
}

/// Where a raw entry name ends: its length, capped by the buffer.
pub open spec fn name_limit(raw_name: Seq<u8>, name_length: u8) -> int {
    if (name_length as int) <= raw_name.len() {
        name_length as int
    } else {
        raw_name.len() as int
    }
}

/// One entry of a directory stream, with the path of the directory it
/// was read from.
#[derive(Clone, Debug)]
pub struct DirEntry {
    inode: u32,
    inode_type: u8,
    name_bytes: Vec<u8>,
    name: String,
    root: CName,
}

/// What a recursive removal does with one entry of a directory.
#[derive(Debug)]
pub enum RemoveStep {
    /// `.` or `..`: left alone.
    Skip,
    /// A sub-directory, removed recursively at this path.
    Descend(String),
    /// Anything else, removed as a file at this path.
    RemoveFile(String),
}

impl DirEntry {
    /// The entry's name.
    pub closed spec fn spec_name(&self) -> Seq<char> {
        self.name@
    }

    /// The bytes of the entry's name.
    pub closed spec fn spec_name_bytes(&self) -> Seq<u8> {
        self.name_bytes@
    }

    /// Path of the directory the entry was read from.
    pub closed spec fn spec_root(&self) -> Seq<char> {
        self.root@
    }

    /// Inode number.
    pub closed spec fn spec_inode(&self) -> u32 {
        self.inode
    }

    /// Entry type code.
    pub closed spec fn spec_type(&self) -> u8 {
        self.inode_type
    }

    /// Copies an entry out of the engine's record: `raw_name` is its name
    /// buffer, whose first `name_length` bytes, up to any terminator, are
    /// the name.
    pub fn from_raw(inode: u32, inode_type: u8, raw_name: &[u8], name_length: u8, root: CName) -> (r: DirEntry)
        ensures
            r.spec_inode() == inode,
            r.spec_type() == inode_type,
            r.spec_root() == root@,
            r.spec_name_bytes() == raw_name@.take(r.spec_name_bytes().len() as int),
            r.spec_name_bytes().len() <= name_limit(raw_name@, name_length),
            r.spec_name_bytes().len() == name_limit(raw_name@, name_length)
                || raw_name@[r.spec_name_bytes().len() as int] == 0u8,
            !r.spec_name_bytes().contains(0u8),
            r.spec_name_bytes().len() <= 255,
            r.spec_name() == utf8_lossy(r.spec_name_bytes()),
            valid_utf8(r.spec_name_bytes()) ==> r.spec_name() == decode_utf8(r.spec_name_bytes()),
    {
        let limit: usize = if (name_length as usize) <= raw_name.len() {
            name_length as usize
        } else {
            raw_name.len()
        };
        let mut name_bytes: Vec<u8> = Vec::new();
        let mut k: usize = 0;
        while k < limit && raw_name[k] != 0u8
            invariant
                limit == name_limit(raw_name@, name_length),
                limit <= raw_name@.len(),
                k <= limit,
                name_bytes@ == raw_name@.take(k as int),
                !name_bytes@.contains(0u8),
            decreases limit - k,
        {
            name_bytes.push(raw_name[k]);
            k = k + 1;
            assert(name_bytes@ =~= raw_name@.take(k as int));
        }
        let name = decode_lossy(name_bytes.as_slice());
        DirEntry { inode, inode_type, name_bytes, name, root }
    }

    /// The entry's name.
    pub fn name(&self) -> (r: &str)
        ensures
            r@ == self.spec_name(),
    {
        self.name.as_str()
    }

    /// Path of the entry: the directory's path followed by its name.
    pub fn path(&self) -> (r: String)
        ensures
            r@ == self.spec_root() + self.spec_name(),
    {
        let mut p = String::from_str(self.root.as_str());
        p.append(self.name.as_str());
        p
    }

    /// Inode number.
    pub fn inode(&self) -> (r: u32)
        ensures
            r == self.spec_inode(),
    {
        self.inode
    }

    /// Entry type.
    pub fn file_type(&self) -> (r: FileType)
        ensures
            r == FileType(self.spec_type()),
    {
        FileType(self.inode_type)
    }

    /// Whether this is `.` or `..`.
    pub fn is_dot_entry(&self) -> (r: bool)
        ensures
            r == is_dot_entry(self.spec_name()),
    {
        let s = self.name.as_str();
        let n = s.unicode_len();
        if n == 1 {
            let r = s.get_char(0) == '.';
            if r {
                assert(s@ =~= seq!['.']);
            }
            r
        } else if n == 2 {
            let r = s.get_char(0) == '.' && s.get_char(1) == '.';
            if r {
                assert(s@ =~= seq!['.', '.']);
            }
            r
        } else {
            false
        }
    }

    /// What a recursive removal of the directory does with this entry.
    pub fn removal_step(&self) -> (r: RemoveStep)
        ensures
            is_dot_entry(self.spec_name()) ==> r is Skip,
            !is_dot_entry(self.spec_name()) && self.spec_type() == DE_DIR ==> (r matches RemoveStep::Descend(p)
                && p@ == self.spec_root() + self.spec_name()),
            !is_dot_entry(self.spec_name()) && self.spec_type() != DE_DIR ==> (r matches RemoveStep::RemoveFile(p)
                && p@ == self.spec_root() + self.spec_name()),
    {
        if self.is_dot_entry() {
            RemoveStep::Skip
        } else if self.file_type().is_dir() {
            RemoveStep::Descend(self.path())
        } else {
            RemoveStep::RemoveFile(self.path())
        }
    }
}

} // verus!

verus! {

/// One move of a recursive removal, over plain paths.
pub enum Move {
    Descend(Seq<char>),
    RemoveFile(Seq<char>),
    RemoveDir(Seq<char>),
}

/// What a recursive removal does next inside one directory.
#[derive(Debug, PartialEq, Eq)]
pub enum WalkAction {
    /// Remove this sub-directory recursively.
    Descend(String),
    /// Remove this file.
    RemoveFile(String),
    /// Remove this directory, now empty.
    RemoveDir(String),
}

/// The move an action stands for.
pub open spec fn action_move(a: WalkAction) -> Move {
    match a {
        WalkAction::Descend(p) => Move::Descend(p@),
        WalkAction::RemoveFile(p) => Move::RemoveFile(p@),
        WalkAction::RemoveDir(p) => Move::RemoveDir(p@),
    }
}

/// The moves one entry's removal step calls for: none for `.` and `..`.
pub open spec fn step_moves(s: RemoveStep) -> Seq<Move> {
    match s {
        RemoveStep::Skip => Seq::empty(),
        RemoveStep::Descend(p) => seq![Move::Descend(p@)],
        RemoveStep::RemoveFile(p) => seq![Move::RemoveFile(p@)],
    }
}

/// The moves for a directory's entries, in listing order.
pub open spec fn entry_moves(steps: Seq<RemoveStep>) -> Seq<Move>
    decreases steps.len(),
{
    if steps.len() == 0 {
        Seq::empty()
    } else {
        entry_moves(steps.drop_last()) + step_moves(steps.last())
    }
}

/// Plans the removal of directory `dir` whose entries call for `steps`, in
/// listing order: each entry's move in turn, and the directory itself last.
pub fn removal_plan(dir: &str, steps: &Vec<RemoveStep>) -> (r: Vec<WalkAction>)
    ensures
        r@.map_values(|a: WalkAction| action_move(a)) == entry_moves(steps@).push(Move::RemoveDir(dir@)),
{
    let mut out: Vec<WalkAction> = Vec::new();
    let mut i: usize = 0;
    while i < steps.len()
        invariant
            i <= steps@.len(),
            out@.map_values(|a: WalkAction| action_move(a)) == entry_moves(steps@.take(i as int)),
        decreases steps@.len() - i,
    {
        let ghost before = out@.map_values(|a: WalkAction| action_move(a));
        assert(steps@.take(i + 1).drop_last() =~= steps@.take(i as int));
        match &steps[i] {
            RemoveStep::Skip => {},
            RemoveStep::Descend(p) => out.push(WalkAction::Descend(p.clone())),
            RemoveStep::RemoveFile(p) => out.push(WalkAction::RemoveFile(p.clone())),
        }
        assert(out@.map_values(|a: WalkAction| action_move(a)) =~= before + step_moves(steps@[i as int]));
        i = i + 1;
    }
    assert(steps@.take(steps@.len() as int) =~= steps@);
    let ghost before = out@.map_values(|a: WalkAction| action_move(a));
    out.push(WalkAction::RemoveDir(String::from_str(dir)));
    assert(out@.map_values(|a: WalkAction| action_move(a)) =~= before.push(Move::RemoveDir(dir@)));
    out
}

} // verus!
