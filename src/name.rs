//! Validated, owned, terminator-ended path strings handed to the engine.
use crate::error::Error;
use vstd::prelude::*;
use vstd::utf8::{decode_utf8, encode_utf8, valid_utf8};

verus! {

/// Longest path, in bytes without the terminator, that the engine is handed.
pub const MAX_PATH_LEN: usize = 4095;

/// The bytes of a path as the engine reads them (UTF-8, no terminator).
pub open spec fn path_bytes(s: Seq<char>) -> Seq<u8> {
    encode_utf8(s)
}

/// A string can be handed to the engine: no terminator byte inside it, and
/// short enough for the engine's path buffer.
pub open spec fn is_valid_path(s: Seq<char>) -> bool {
    &&& !path_bytes(s).contains(0u8)
    &&& path_bytes(s).len() <= MAX_PATH_LEN
}

/// A path string that has been checked and carries its terminated bytes.
#[derive(Debug)]
pub struct CName {
    text: String,
    bytes: Vec<u8>,
}

impl View for CName {
    type V = Seq<char>;

    closed spec fn view(&self) -> Seq<char> {
        self.text@
    }
}

impl Clone for CName {
    fn clone(&self) -> (r: Self)
        ensures
            r@ == self@,
    {
        proof {
            use_type_invariant(self);
        }
        CName { text: self.text.clone(), bytes: self.bytes.clone() }
    }
}

impl CName {
    #[verifier::type_invariant]
    spec fn inv(&self) -> bool {
        &&& is_valid_path(self.text@)
        &&& self.bytes@ == path_bytes(self.text@).push(0u8)
    }

    /// Checks `path` and takes ownership of it; fails with `InvalidArgument`
    /// exactly when it holds a terminator byte or is too long.
    pub fn new(path: String) -> (r: Result<CName, Error>)
        ensures
            r is Ok <==> is_valid_path(path@),
            r is Ok ==> r->Ok_0@ == path@,
            r is Err ==> r->Err_0 == Error::InvalidArgument,
    {
        let mut bytes = path.as_str().as_bytes_vec();
        let n = bytes.len();
        if n > MAX_PATH_LEN {
            return Err(Error::InvalidArgument);
        }
        let mut i: usize = 0;
        while i < n
            invariant
                n == bytes@.len(),
                bytes@ == path_bytes(path@),
                i <= n,
                forall|j: int| 0 <= j < i ==> bytes@[j] != 0u8,
            decreases n - i,
        {
            if bytes[i] == 0u8 {
                return Err(Error::InvalidArgument);
            }
            i = i + 1;
        }
        bytes.push(0u8);
        Ok(CName { text: path, bytes })
    }

    /// The checked string.
    pub fn as_str(&self) -> (r: &str)
        ensures
            r@ == self@,
    {
        self.text.as_str()
    }

    /// The bytes that the engine reads, terminator included.
    pub fn as_bytes_with_nul(&self) -> (r: &[u8])
        ensures
            r@ == path_bytes(self@).push(0u8),
    {
        proof {
            use_type_invariant(self);
        }
        self.bytes.as_slice()
    }

    /// Length in bytes, terminator not counted.
    pub fn byte_len(&self) -> (n: usize)
        ensures
            n == path_bytes(self@).len(),
    {
        proof {
            use_type_invariant(self);
        }
        self.bytes.len() - 1
    }

    /// Gives the string back.
    pub fn into_string(self) -> (r: String)
        ensures
            r@ == self@,
    {
        self.text
    }
}

} // verus!

verus! {

/// What `String::from_utf8_lossy` makes of a byte string.
pub uninterp spec fn utf8_lossy(b: Seq<u8>) -> Seq<char>;

/// Relies on String::from_utf8_lossy: the text depends on the bytes alone,
/// and bytes that are valid UTF-8 decode as they stand.
#[verifier::external_body]
pub(crate) fn decode_lossy(b: &[u8]) -> (r: String)
    ensures
        r@ == utf8_lossy(b@),
        valid_utf8(b@) ==> r@ == decode_utf8(b@),
{
    String::from_utf8_lossy(b).into_owned()
}

} // verus!
