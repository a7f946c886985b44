//! The table of registered device names: each name at most once, a fixed
//! number of slots.
use crate::error::Error;
use crate::name::{path_bytes, CName};
use vstd::prelude::*;

verus! {

/// Longest device name, in bytes, that the engine keeps.
pub const MAX_DEVICE_NAME_LEN: usize = 32;

/// Longest mount point, in bytes, that the engine keeps.
pub const MAX_MOUNT_POINT_LEN: usize = 32;

/// A mount point the engine accepts: not too long, ending in a separator.
pub open spec fn is_valid_mount_point(mp: Seq<char>) -> bool {
    &&& path_bytes(mp).len() <= MAX_MOUNT_POINT_LEN
    &&& mp.len() > 0
    &&& mp.last() == '/'
}

/// Checks a mount point; `InvalidArgument` when it is too long or does not
/// end in a separator.
pub fn check_mount_point(mp: &CName) -> (r: Result<(), Error>)
    ensures
        r is Ok <==> is_valid_mount_point(mp@),
        r is Err ==> r->Err_0 == Error::InvalidArgument,
{
    if mp.byte_len() > MAX_MOUNT_POINT_LEN {
        return Err(Error::InvalidArgument);
    }
    let s = mp.as_str();
    let n = s.unicode_len();
    if n == 0 || s.get_char(n - 1) != '/' {
        return Err(Error::InvalidArgument);
    }
    Ok(())
}

/// Slots in the engine's device table.
pub const DEVICE_SLOTS: usize = 2;

/// Outcome of registering `name` in a table that holds `names` and has
/// `capacity` slots: the result and the names held afterwards.
pub open spec fn register_outcome(names: Seq<Seq<char>>, capacity: nat, name: Seq<char>) -> (
    Result<(), Error>,
    Seq<Seq<char>>,
) {
    if path_bytes(name).len() > MAX_DEVICE_NAME_LEN {
        (Err(Error::InvalidArgument), names)
    } else if names.contains(name) {
        (Err(Error::AlreadyExists), names)
    } else if names.len() >= capacity {
        (Err(Error::NoSpace), names)
    } else {
        (Ok(()), names.push(name))
    }
}

/// Outcome of withdrawing `name` from a table that holds `names`.
pub open spec fn unregister_outcome(names: Seq<Seq<char>>, name: Seq<char>) -> (
    Result<(), Error>,
    Seq<Seq<char>>,
) {
    if names.contains(name) {
        (Ok(()), names.remove(choose|i: int| 0 <= i < names.len() && names[i] == name))
    } else {
        (Err(Error::NoEntry), names)
    }
}

/// Names under which devices are registered.
pub struct Registry {
    names: Vec<String>,
    capacity: usize,
}

impl View for Registry {
    type V = Seq<Seq<char>>;

    closed spec fn view(&self) -> Seq<Seq<char>> {
        Seq::new(self.names@.len(), |i: int| self.names@[i]@)
    }
}

impl Registry {
    /// Number of slots.
    pub closed spec fn slots(&self) -> nat {
        self.capacity as nat
    }

    /// Each name is held once, and no more names than slots.
    pub closed spec fn wf(&self) -> bool {
        &&& self@.no_duplicates()
        &&& self@.len() <= self.capacity
    }

    /// An empty table with `capacity` slots.
    pub fn new(capacity: usize) -> (r: Registry)
        ensures
            r.wf(),
            r@ == Seq::<Seq<char>>::empty(),
            r.slots() == capacity,
    {
        let r = Registry { names: Vec::new(), capacity };
        assert(r@ =~= Seq::<Seq<char>>::empty());
        r
    }

    /// Position of `name`, if it is registered.
    fn find(&self, name: &String) -> (r: Option<usize>)
        ensures
            r is Some <==> self@.contains(name@),
            r is Some ==> r->Some_0 < self@.len() && self@[r->Some_0 as int] == name@,
    {
        let mut i: usize = 0;
        while i < self.names.len()
            invariant
                i <= self.names@.len(),
                forall|j: int| 0 <= j < i ==> self@[j] != name@,
            decreases self.names@.len() - i,
        {
            if self.names[i].eq(name) {
                assert(self@[i as int] == name@);
                return Some(i);
            }
            i = i + 1;
        }
        proof {
            if self@.contains(name@) {
                let k = choose|k: int| 0 <= k < self@.len() && self@[k] == name@;
                assert(self@[k] == name@);
            }
        }
        None
    }

    /// Whether a device is registered under `name`.
    pub fn is_registered(&self, name: &CName) -> (r: bool)
        ensures
            r == self@.contains(name@),
    {
        let key = String::from_str(name.as_str());
        self.find(&key).is_some()
    }

    /// Registers `name`: refused with `InvalidArgument` when it is too long,
    /// `AlreadyExists` when it is taken and `NoSpace` when every slot is.
    pub fn register(&mut self, name: &CName) -> (r: Result<(), Error>)
        requires
            old(self).wf(),
        ensures
            final(self).wf(),
            (r, final(self)@) == register_outcome(old(self)@, old(self).slots(), name@),
            final(self).slots() == old(self).slots(),
    {
        if name.byte_len() > MAX_DEVICE_NAME_LEN {
            return Err(Error::InvalidArgument);
        }
        let key = String::from_str(name.as_str());
        if self.find(&key).is_some() {
            return Err(Error::AlreadyExists);
        }
        if self.names.len() >= self.capacity {
            return Err(Error::NoSpace);
        }
        let ghost before = self@;
        self.names.push(key);
        assert(self@ =~= before.push(name@));
        proof {
            assert forall|i: int, j: int|
                0 <= i < self@.len() && 0 <= j < self@.len() && i != j implies self@[i] != self@[j] by {
                if i < before.len() && j < before.len() {
                    assert(before[i] != before[j]);
                } else if i < before.len() {
                    assert(before.contains(before[i]));
                } else {
                    assert(before.contains(before[j]));
                }
            }
        }
        Ok(())
    }

    /// Withdraws `name`; `NoEntry` when nothing is registered under it.
    pub fn unregister(&mut self, name: &CName) -> (r: Result<(), Error>)
        requires
            old(self).wf(),
        ensures
            final(self).wf(),
            (r, final(self)@) == unregister_outcome(old(self)@, name@),
            final(self).slots() == old(self).slots(),
    {
        let key = String::from_str(name.as_str());
        match self.find(&key) {
            None => Err(Error::NoEntry),
            Some(i) => {
                let ghost before = self@;
                proof {
                    let c = choose|k: int| 0 <= k < before.len() && before[k] == name@;
                    assert(before[c] == before[i as int]);
                    assert(c == i as int);
                }
                self.names.remove(i);
                assert(self@ =~= before.remove(i as int));
                proof {
                    assert forall|a: int, b: int|
                        0 <= a < self@.len() && 0 <= b < self@.len() && a != b implies self@[a] != self@[b] by {
                        let a0 = if a < i { a } else { a + 1 };
                        let b0 = if b < i { b } else { b + 1 };
                        assert(self@[a] == before[a0]);
                        assert(self@[b] == before[b0]);
                    }
                }
                Ok(())
            },
        }
    }
}

/// Under one name at most one registration holds at a time: a second one is
/// refused with `AlreadyExists`, and once the first is withdrawn the name can
/// be registered again.
pub proof fn lemma_one_registration_per_name(names: Seq<Seq<char>>, capacity: nat, name: Seq<char>)
    requires
        names.no_duplicates(),
        names.len() < capacity,
        path_bytes(name).len() <= MAX_DEVICE_NAME_LEN,
        !names.contains(name),
    ensures
        register_outcome(names, capacity, name).0 is Ok,
        register_outcome(register_outcome(names, capacity, name).1, capacity, name).0
            == Err::<(), Error>(Error::AlreadyExists),
        unregister_outcome(register_outcome(names, capacity, name).1, name).0 is Ok,
        register_outcome(
            unregister_outcome(register_outcome(names, capacity, name).1, name).1,
            capacity,
            name,
        ).0 is Ok,
{
    let s1 = names.push(name);
    assert(s1[names.len() as int] == name);
    assert(s1.contains(name));
    let c = choose|i: int| 0 <= i < s1.len() && s1[i] == name;
    if c < names.len() {
        assert(names[c] == name);
        assert(names.contains(name));
    }
    assert(c == names.len());
    assert(s1.remove(c) =~= names);
}

} // verus!
