//! The block-device capability, its geometry, and the status logic behind
//! the engine's callback table.
use crate::error::{errno_of, result_to_errno, Error, EOK};
use std::pin::Pin;
use vstd::prelude::*;

verus! {

/// Unit, in bytes, in which the engine addresses blocks.
pub const ADDRESSING_UNIT: u64 = 512;

/// Geometry of a block device as the engine sees it.
#[derive(Clone, Copy, Debug, Default, PartialEq, Eq, Structural)]
pub struct BlockDeviceConfig {
    pub block_size: u32,
    pub block_count: u64,
    pub part_size: u64,
    pub part_offset: u64,
}

impl BlockDeviceConfig {
    /// The geometry lies inside a backing storage of `storage_size` bytes.
    pub open spec fn fits(self, storage_size: nat) -> bool {
        &&& self.block_size > 0
        &&& self.block_count as nat == (self.part_size as nat) / (self.block_size as nat)
        &&& self.part_offset + self.part_size <= storage_size
    }

    /// Geometry for a whole backing storage of `storage_size` bytes cut into
    /// blocks of `block_size` bytes; a zero block size is refused.
    pub fn for_storage(storage_size: u64, block_size: u32) -> (r: Result<BlockDeviceConfig, Error>)
        ensures
            r is Ok <==> block_size > 0,
            r is Err ==> r->Err_0 == Error::InvalidArgument,
            r is Ok ==> r->Ok_0 == (BlockDeviceConfig {
                block_size,
                block_count: storage_size / (block_size as u64),
                part_size: storage_size,
                part_offset: 0,
            }),
            r is Ok ==> r->Ok_0.fits(storage_size as nat),
            r is Ok ==> r->Ok_0.block_count == storage_size / (block_size as u64),
    {
        if block_size == 0 {
            return Err(Error::InvalidArgument);
        }
        Ok(BlockDeviceConfig {
            block_size,
            block_count: storage_size / (block_size as u64),
            part_size: storage_size,
            part_offset: 0,
        })
    }
}

/// Storage that can serve as a block device for the engine.
pub trait BlockDeviceInterface {
    /// Called once when the engine takes the device; gives its geometry.
    fn open(&mut self) -> Result<BlockDeviceConfig, Error>;

    /// Fills all of `buf` from block `block_id` on; a short transfer is an error.
    fn read_block(&mut self, buf: &mut [u8], block_id: u64, block_count: u32) -> (r: Result<usize, Error>)
        ensures
            final(buf)@.len() == old(buf)@.len(),
            r is Ok ==> r->Ok_0 == old(buf)@.len(),
    ;

    /// Writes all of `buf` from block `block_id` on; a short transfer is an error.
    fn write_block(&mut self, buf: &[u8], block_id: u64, block_count: u32) -> (r: Result<usize, Error>)
        ensures
            r is Ok ==> r->Ok_0 == buf@.len(),
    ;

    /// Flushes and releases the storage; called once, on unregistration.
    fn close(&mut self) -> Result<(), Error>;

    /// Serialises engine access to a shared device; nothing to do by default.
    fn lock(&mut self) -> Result<(), Error> {
        Ok(())
    }

    /// Ends what `lock` began; nothing to do by default.
    fn unlock(&mut self) -> Result<(), Error> {
        Ok(())
    }
}

/// Status code for a transfer of `len` bytes that ended with `r`.
pub open spec fn transfer_status(r: Result<usize, Error>, len: nat) -> i32 {
    match r {
        Ok(n) => if n == len { EOK } else { errno_of(Error::IoError) },
        Err(e) => errno_of(e),
    }
}

/// Maps the outcome of a transfer of `len` bytes into the engine's
/// status convention; a short transfer counts as an I/O error.
pub fn transfer_to_errno(r: &Result<usize, Error>, len: usize) -> (s: i32)
    ensures
        s == transfer_status(*r, len as nat),
        s == EOK <==> r == Ok::<usize, Error>(len),
{
    match r {
        Ok(n) => if *n == len { EOK } else { Error::IoError.errno() },
        Err(e) => e.errno(),
    }
}

/// A capability together with the entry points that the engine's callback
/// table leads to. Each entry point hands back an engine status code.
pub struct BlockDevice<T: BlockDeviceInterface> {
    iface: T,
}

/// std's pinning wrapper, carried through as an opaque value.
#[verifier::external_type_specification]
#[verifier::external_body]
#[verifier::reject_recursive_types(Ptr)]
pub struct ExPin<Ptr>(Pin<Ptr>);

/// Relies on Box::pin: the value is moved to the heap and pinned there.
#[verifier::external_body]
fn pin_on_heap<T>(value: T) -> (r: Pin<Box<T>>) {
    Box::pin(value)
}

impl<T: BlockDeviceInterface> BlockDevice<T> {
    /// Wraps a capability at a heap address that never changes.
    pub fn new(iface: T) -> Pin<Box<BlockDevice<T>>> {
        pin_on_heap(BlockDevice { iface })
    }

    /// The capability that the entry points lead to.
    pub closed spec fn capability(&self) -> T {
        self.iface
    }

    /// The capability.
    pub fn interface(&self) -> (r: &T)
        ensures
            *r == self.capability(),
    {
        &self.iface
    }

    /// Entry point for the engine's `open`: status, and the geometry to use
    /// on success.
    pub fn open(&mut self) -> (r: (i32, Option<BlockDeviceConfig>))
        ensures
            r.0 == EOK <==> r.1 is Some,
    {
        match self.iface.open() {
            Ok(config) => (EOK, Some(config)),
            Err(e) => (e.errno(), None),
        }
    }

    /// Entry point for the engine's block read.
    pub fn read(&mut self, buf: &mut [u8], block_id: u64, block_count: u32) -> (s: i32)
        ensures
            final(buf)@.len() == old(buf)@.len(),
    {
        let len = buf.len();
        let r = self.iface.read_block(buf, block_id, block_count);
        transfer_to_errno(&r, len)
    }

    /// Entry point for the engine's block write.
    pub fn write(&mut self, buf: &[u8], block_id: u64, block_count: u32) -> (s: i32) {
        let r = self.iface.write_block(buf, block_id, block_count);
        transfer_to_errno(&r, buf.len())
    }

    /// Entry point for the engine's `close`.
    pub fn close(&mut self) -> (s: i32) {
        let r = self.iface.close();
        result_to_errno(&r)
    }

    /// Entry point for the engine's `lock`.
    pub fn lock(&mut self) -> (s: i32) {
        let r = self.iface.lock();
        result_to_errno(&r)
    }

    /// Entry point for the engine's `unlock`.
    pub fn unlock(&mut self) -> (s: i32) {
        let r = self.iface.unlock();
        result_to_errno(&r)
    }
}

/// Byte offset of block `block_id`, if it fits in 64 bits.
pub fn block_offset(block_id: u64) -> (r: Option<u64>)
    ensures
        r is Some <==> block_id * ADDRESSING_UNIT <= u64::MAX,
        r is Some ==> r->Some_0 == block_id * ADDRESSING_UNIT,
{
    if block_id > u64::MAX / ADDRESSING_UNIT {
        None
    } else {
        Some(block_id * ADDRESSING_UNIT)
    }
}

/// Bytes of `d` after writing `b` from position `at` on; a gap past the
/// end reads as zeros.
pub open spec fn overwrite(d: Seq<u8>, at: nat, b: Seq<u8>) -> Seq<u8> {
    let n = if at + b.len() > d.len() {
        at + b.len()
    } else {
        d.len() as nat
    };
    Seq::new(
        n,
        |i: int|
            if at <= i < at + b.len() {
                b[i - at]
            } else if i < d.len() {
                d[i]
            } else {
                0u8
            },
    )
}

/// Byte storage with a cursor, such as std's `Read + Write + Seek` give it,
/// modelled as its bytes and the cursor's position.
pub trait ByteStorage {
    /// The bytes held.
    spec fn bytes(&self) -> Seq<u8>;

    /// The cursor's position, in bytes from the start.
    spec fn position(&self) -> nat;

    /// Moves the cursor to `offset` bytes from the start; gives the new position.
    fn seek_start(&mut self, offset: u64) -> (r: Result<u64, Error>)
        ensures
            final(self).bytes() == old(self).bytes(),
            r is Ok ==> r->Ok_0 == offset && final(self).position() == offset,
            r is Err ==> r->Err_0 == Error::IoError,
    ;

    /// Fills the whole of `buf` from the cursor on, or fails.
    fn read_exact(&mut self, buf: &mut [u8]) -> (r: Result<(), Error>)
        ensures
            final(buf)@.len() == old(buf)@.len(),
            final(self).bytes() == old(self).bytes(),
            r is Ok ==> old(self).position() + old(buf)@.len() <= old(self).bytes().len()
                && final(buf)@ == old(self).bytes().subrange(
                old(self).position() as int,
                (old(self).position() + old(buf)@.len()) as int,
            ) && final(self).position() == old(self).position() + old(buf)@.len(),
            r is Err ==> r->Err_0 == Error::IoError,
    ;

    /// Writes the whole of `buf` from the cursor on, or fails.
    fn write_all(&mut self, buf: &[u8]) -> (r: Result<(), Error>)
        ensures
            r is Ok ==> final(self).bytes() == overwrite(old(self).bytes(), old(self).position(), buf@)
                && final(self).position() == old(self).position() + buf@.len(),
            r is Err ==> r->Err_0 == Error::IoError,
    ;

    /// Pushes buffered writes to the medium.
    fn flush(&mut self) -> (r: Result<(), Error>)
        ensures
            final(self).bytes() == old(self).bytes(),
            r is Err ==> r->Err_0 == Error::IoError,
    ;
}

/// A fixed-size region of memory used as storage: reads and writes past
/// its end fail.
#[derive(Debug)]
pub struct MemoryStorage {
    data: Vec<u8>,
    pos: u64,
}

impl MemoryStorage {
    /// Storage holding `data`, cursor at the start.
    pub fn new(data: Vec<u8>) -> (r: MemoryStorage)
        ensures
            r.bytes() == data@,
            r.position() == 0,
    {
        MemoryStorage { data, pos: 0 }
    }

    /// The bytes held.
    pub fn as_slice(&self) -> (r: &[u8])
        ensures
            r@ == self.bytes(),
    {
        self.data.as_slice()
    }

    /// Gives the bytes back.
    pub fn into_inner(self) -> (r: Vec<u8>)
        ensures
            r@ == self.bytes(),
    {
        self.data
    }
}

impl ByteStorage for MemoryStorage {
    closed spec fn bytes(&self) -> Seq<u8> {
        self.data@
    }

    closed spec fn position(&self) -> nat {
        self.pos as nat
    }

    fn seek_start(&mut self, offset: u64) -> (r: Result<u64, Error>) {
        self.pos = offset;
        Ok(offset)
    }

    fn read_exact(&mut self, buf: &mut [u8]) -> (r: Result<(), Error>)
        ensures
            r is Ok <==> old(self).position() + old(buf)@.len() <= old(self).bytes().len(),
    {
        let len = self.data.len();
        let n = buf.len();
        if self.pos > len as u64 || n as u64 > len as u64 - self.pos {
            return Err(Error::IoError);
        }
        let start = self.pos as usize;
        assert(start + n <= len);
        let mut j: usize = 0;
        while j < n
            invariant
                start == old(self).position(),
                self.data@ == old(self).bytes(),
                start + n <= len,
                len == self.data@.len(),
                n == buf@.len(),
                n == old(buf)@.len(),
                j <= n,
                forall|k: int| 0 <= k < j ==> buf@[k] == self.data@[start + k],
            decreases n - j,
        {
            buf[j] = self.data[start + j];
            j = j + 1;
        }
        assert(buf@ =~= self.data@.subrange(start as int, start + n));
        self.pos = (start + n) as u64;
        Ok(())
    }

    fn write_all(&mut self, buf: &[u8]) -> (r: Result<(), Error>)
        ensures
            r is Ok <==> old(self).position() + buf@.len() <= old(self).bytes().len(),
    {
        let len = self.data.len();
        let n = buf.len();
        if self.pos > len as u64 || n as u64 > len as u64 - self.pos {
            return Err(Error::IoError);
        }
        let start = self.pos as usize;
        assert(start + n <= len);
        let ghost before = self.data@;
        let mut j: usize = 0;
        while j < n
            invariant
                start == old(self).position(),
                before == old(self).bytes(),
                start + n <= len,
                len == before.len(),
                self.data@.len() == before.len(),
                n == buf@.len(),
                j <= n,
                forall|k: int| 0 <= k < self.data@.len() ==> #[trigger] self.data@[k] == if start <= k < start + j {
                    buf@[k - start]
                } else {
                    before[k]
                },
            decreases n - j,
        {
            self.data.set(start + j, buf[j]);
            j = j + 1;
        }
        assert(self.data@ =~= overwrite(before, start as nat, buf@));
        self.pos = (start + n) as u64;
        Ok(())
    }

    fn flush(&mut self) -> (r: Result<(), Error>)
        ensures
            r is Ok,
    {
        Ok(())
    }
}

/// A block device over seekable byte storage (a file, a memory region),
/// with a geometry fixed at construction.
pub struct SimpleBlockDeviceInterface<T: ByteStorage>(T, BlockDeviceConfig);

impl<T: ByteStorage> SimpleBlockDeviceInterface<T> {
    /// The geometry given at construction.
    pub closed spec fn geometry(&self) -> BlockDeviceConfig {
        self.1
    }

    /// The storage the blocks live in.
    pub closed spec fn storage(&self) -> T {
        self.0
    }

    /// Wraps `inner` with geometry `config`.
    pub fn new(inner: T, config: BlockDeviceConfig) -> (r: Self)
        ensures
            r.geometry() == config,
            r.storage() == inner,
    {
        SimpleBlockDeviceInterface(inner, config)
    }

    /// Wraps `inner` with geometry `config` in a pinned block device.
    pub fn new_device(inner: T, config: BlockDeviceConfig) -> Pin<Box<BlockDevice<Self>>> {
        BlockDevice::new(SimpleBlockDeviceInterface::new(inner, config))
    }

    /// The geometry given at construction.
    pub fn config(&self) -> (r: BlockDeviceConfig)
        ensures
            r == self.geometry(),
    {
        self.1
    }

    /// The storage the blocks live in.
    pub fn inner(&self) -> (r: &T)
        ensures
            *r == self.storage(),
    {
        &self.0
    }
}

impl<T: ByteStorage> BlockDeviceInterface for SimpleBlockDeviceInterface<T> {
    fn open(&mut self) -> (r: Result<BlockDeviceConfig, Error>)
        ensures
            r == Ok::<BlockDeviceConfig, Error>(old(self).geometry()),
            *final(self) == *old(self),
    {
        Ok(self.1)
    }

    /// Reads `buf.len()` bytes from byte `block_id * ADDRESSING_UNIT` on;
    /// `block_count` is implied by the buffer's length.
    fn read_block(&mut self, buf: &mut [u8], block_id: u64, block_count: u32) -> (r: Result<usize, Error>)
        ensures
            final(self).geometry() == old(self).geometry(),
            final(self).storage().bytes() == old(self).storage().bytes(),
            block_id * ADDRESSING_UNIT > u64::MAX ==> r == Err::<usize, Error>(Error::InvalidArgument),
            block_id * ADDRESSING_UNIT <= u64::MAX && r is Err ==> r == Err::<usize, Error>(Error::IoError),
            r is Ok ==> block_id * ADDRESSING_UNIT + old(buf)@.len() <= old(self).storage().bytes().len()
                && final(buf)@ == old(self).storage().bytes().subrange(
                block_id * ADDRESSING_UNIT,
                (block_id * ADDRESSING_UNIT + old(buf)@.len()) as int,
            ),
    {
        let offset = match block_offset(block_id) {
            Some(o) => o,
            None => return Err(Error::InvalidArgument),
        };
        match self.0.seek_start(offset) {
            Ok(_) => {},
            Err(e) => return Err(e),
        }
        match self.0.read_exact(buf) {
            Ok(()) => Ok(buf.len()),
            Err(e) => Err(e),
        }
    }

    /// Writes `buf` from byte `block_id * ADDRESSING_UNIT` on; `block_count`
    /// is implied by the buffer's length.
    fn write_block(&mut self, buf: &[u8], block_id: u64, block_count: u32) -> (r: Result<usize, Error>)
        ensures
            final(self).geometry() == old(self).geometry(),
            block_id * ADDRESSING_UNIT > u64::MAX ==> r == Err::<usize, Error>(Error::InvalidArgument)
                && final(self).storage().bytes() == old(self).storage().bytes(),
            block_id * ADDRESSING_UNIT <= u64::MAX && r is Err ==> r == Err::<usize, Error>(Error::IoError),
            r is Ok ==> final(self).storage().bytes() == overwrite(
                old(self).storage().bytes(),
                (block_id * ADDRESSING_UNIT) as nat,
                buf@,
            ),
    {
        let offset = match block_offset(block_id) {
            Some(o) => o,
            None => return Err(Error::InvalidArgument),
        };
        match self.0.seek_start(offset) {
            Ok(_) => {},
            Err(e) => return Err(e),
        }
        match self.0.write_all(buf) {
            Ok(()) => Ok(buf.len()),
            Err(e) => Err(e),
        }
    }

    /// Flushes the storage.
    fn close(&mut self) -> (r: Result<(), Error>)
        ensures
            final(self).geometry() == old(self).geometry(),
            final(self).storage().bytes() == old(self).storage().bytes(),
            r is Err ==> r == Err::<(), Error>(Error::IoError),
    {
        self.0.flush()
    }
}

} // verus!
