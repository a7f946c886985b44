//! Decisions of the path-based filesystem operations that do not need the
//! engine itself: status mapping and parsing of what it hands back.
use crate::error::{error_of, Error, ENOENT, EOK};
use crate::name::{decode_lossy, utf8_lossy};
use vstd::utf8::{decode_utf8, valid_utf8};
use vstd::prelude::*;

verus! {

/// Step by which the buffer for an attribute-name listing grows.
pub const XATTR_LIST_CHUNK: usize = 255;

/// Maps the status of an existence probe: a missing entry is a plain
/// `false`, not an error.
pub fn exists_from_status(code: i32) -> (r: Result<bool, Error>)
    ensures
        code == EOK ==> r == Ok::<bool, Error>(true),
        code == ENOENT ==> r == Ok::<bool, Error>(false),
        code != EOK && code != ENOENT ==> r == Err::<bool, Error>(error_of(code)),
{
    if code == EOK {
        Ok(true)
    } else if code == ENOENT {
        Ok(false)
    } else {
        Err(Error::from_errno(code))
    }
}

/// The first `read` bytes of `buf`, which the engine reports it filled;
/// `IoError` when it reports more than the buffer holds.
pub fn filled_part(buf: &[u8], read: usize) -> (r: Result<Vec<u8>, Error>)
    ensures
        read <= buf@.len() ==> r is Ok && r->Ok_0@ == buf@.take(read as int),
        read > buf@.len() ==> r == Err::<Vec<u8>, Error>(Error::IoError),
{
    if read > buf.len() {
        return Err(Error::IoError);
    }
    let mut out: Vec<u8> = Vec::new();
    let mut i: usize = 0;
    while i < read
        invariant
            i <= read <= buf@.len(),
            out@ == buf@.take(i as int),
        decreases read - i,
    {
        out.push(buf[i]);
        i = i + 1;
        assert(out@ =~= buf@.take(i as int));
    }
    Ok(out)
}

/// Target of a symbolic link from the first `read` bytes of `buf`, which
/// the engine reports it filled; `IoError` when it reports more than the
/// buffer holds.
pub fn link_target(buf: &[u8], read: usize) -> (r: Result<String, Error>)
    ensures
        read <= buf@.len() ==> r is Ok && r->Ok_0@ == utf8_lossy(buf@.take(read as int)),
        read <= buf@.len() && valid_utf8(buf@.take(read as int)) ==> r is Ok && r->Ok_0@ == decode_utf8(
            buf@.take(read as int),
        ),
        read > buf@.len() ==> r == Err::<String, Error>(Error::IoError),
{
    if read > buf.len() {
        return Err(Error::IoError);
    }
    let part = &buf[0..read];
    assert(part@ =~= buf@.take(read as int));
    Ok(decode_lossy(part))
}

/// Length of the next buffer for an attribute-name listing that needs
/// `needed` bytes, or `None` when a buffer of `len` bytes already holds it.
pub fn next_list_len(len: usize, needed: usize) -> (r: Option<usize>)
    requires
        len <= usize::MAX - XATTR_LIST_CHUNK,
    ensures
        needed <= len <==> r is None,
        r is Some ==> r->Some_0 == len + XATTR_LIST_CHUNK,
{
    if needed <= len {
        None
    } else {
        Some(len + XATTR_LIST_CHUNK)
    }
}

/// Names in `buf[i..]`, where `cur` holds the bytes of the name begun before `i`.
pub open spec fn split_from(buf: Seq<u8>, i: int, cur: Seq<u8>) -> Seq<Seq<u8>>
    decreases buf.len() - i,
{
    if i >= buf.len() || i < 0 {
        if cur.len() == 0 {
            Seq::empty()
        } else {
            seq![cur]
        }
    } else if buf[i] == 0u8 {
        seq![cur] + split_from(buf, i + 1, Seq::empty())
    } else {
        split_from(buf, i + 1, cur.push(buf[i]))
    }
}

/// The names packed in a listing, each ended by a terminator byte (the
/// last one may lack it).
pub open spec fn split_names(buf: Seq<u8>) -> Seq<Seq<u8>> {
    split_from(buf, 0, Seq::empty())
}

/// Splits an extended-attribute listing into its names.
pub fn parse_xattr_list(list: &[u8]) -> (r: Vec<String>)
    ensures
        r@.len() == split_names(list@).len(),
        forall|k: int| 0 <= k < r@.len() ==> #[trigger] r@[k]@ == utf8_lossy(split_names(list@)[k]),
        forall|k: int|
            0 <= k < r@.len() && valid_utf8(split_names(list@)[k]) ==> #[trigger] r@[k]@ == decode_utf8(
                split_names(list@)[k],
            ),
        forall|k: int| 0 <= k < r@.len() ==> !(#[trigger] split_names(list@)[k]).contains(0u8),
{
    let mut out: Vec<String> = Vec::new();
    let mut cur: Vec<u8> = Vec::new();
    let ghost done: Seq<Seq<u8>> = Seq::empty();
    let mut i: usize = 0;
    while i < list.len()
        invariant
            i <= list@.len(),
            split_names(list@) == done + split_from(list@, i as int, cur@),
            out@.len() == done.len(),
            forall|k: int| 0 <= k < out@.len() ==> #[trigger] out@[k]@ == utf8_lossy(done[k]),
            forall|k: int| 0 <= k < out@.len() && valid_utf8(done[k]) ==> #[trigger] out@[k]@ == decode_utf8(done[k]),
            forall|k: int| 0 <= k < done.len() ==> !(#[trigger] done[k]).contains(0u8),
            !cur@.contains(0u8),
        decreases list@.len() - i,
    {
        if list[i] == 0u8 {
            let name = decode_lossy(cur.as_slice());
            proof {
                assert(split_from(list@, i as int, cur@) == seq![cur@] + split_from(list@, i + 1, Seq::empty()));
                assert(done + split_from(list@, i as int, cur@) =~= done.push(cur@) + split_from(list@, i + 1, Seq::empty()));
                done = done.push(cur@);
            }
            out.push(name);
            cur = Vec::new();
            assert(cur@ =~= Seq::<u8>::empty());
        } else {
            let ghost old_cur = cur@;
            cur.push(list[i]);
            proof {
                assert forall|x: int| 0 <= x < cur@.len() implies cur@[x] != 0u8 by {
                    if x < old_cur.len() {
                        assert(old_cur[x] == cur@[x]);
                    }
                }
            }
        }
        i = i + 1;
    }
    if cur.len() > 0 {
        let name = decode_lossy(cur.as_slice());
        proof {
            assert(done + split_from(list@, i as int, cur@) =~= done.push(cur@));
            done = done.push(cur@);
        }
        out.push(name);
    } else {
        assert(done + split_from(list@, i as int, cur@) =~= done);
    }
    out
}

} // verus!
