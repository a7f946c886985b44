use lwext4_rs::block::{block_offset, transfer_to_errno, ByteStorage, MemoryStorage, ADDRESSING_UNIT};
use lwext4_rs::error::{EIO, ENOSPC};
use lwext4_rs::{BlockDevice, BlockDeviceConfig, BlockDeviceInterface, Error, SimpleBlockDeviceInterface};

#[test]
fn config_covers_whole_storage() {
    let c = BlockDeviceConfig::for_storage(1 << 20, 512).unwrap();
    assert_eq!(c.block_size, 512);
    assert_eq!(c.block_count, 2048);
    assert_eq!(c.part_size, 1 << 20);
    assert_eq!(c.part_offset, 0);
    assert!(c.part_offset + c.part_size <= 1 << 20);
}

#[test]
fn config_for_several_sizes() {
    for (s, b) in [(4096u64, 4096u32), (8192, 1024), (0, 512), (1 << 30, 4096)] {
        let c = BlockDeviceConfig::for_storage(s, b).unwrap();
        assert_eq!(c.block_count, s / b as u64);
        assert!(c.part_offset + c.part_size <= s);
    }
}

#[test]
fn zero_block_size_is_refused() {
    assert_eq!(BlockDeviceConfig::for_storage(4096, 0), Err(Error::InvalidArgument));
}

#[test]
fn block_offsets_are_in_addressing_units() {
    assert_eq!(block_offset(0), Some(0));
    assert_eq!(block_offset(3), Some(3 * ADDRESSING_UNIT));
    assert_eq!(block_offset(u64::MAX / 512), Some((u64::MAX / 512) * 512));
    assert_eq!(block_offset(u64::MAX / 512 + 1), None);
}

#[test]
fn transfer_status_checks_length() {
    assert_eq!(transfer_to_errno(&Ok(512), 512), 0);
    assert_eq!(transfer_to_errno(&Ok(100), 512), EIO);
    assert_eq!(transfer_to_errno(&Err(Error::NoSpace), 512), ENOSPC);
}

fn memory_device(size: usize) -> SimpleBlockDeviceInterface<MemoryStorage> {
    let config = BlockDeviceConfig::for_storage(size as u64, 512).unwrap();
    SimpleBlockDeviceInterface::new(MemoryStorage::new(vec![0u8; size]), config)
}

#[test]
fn blocks_round_trip_through_memory() {
    let mut dev = memory_device(4096);
    assert_eq!(dev.config().block_count, 8);
    assert_eq!(dev.open(), Ok(dev.config()));
    let data: Vec<u8> = (0..1024u32).map(|i| (i % 251) as u8).collect();
    assert_eq!(dev.write_block(&data, 2, 2), Ok(1024));
    let mut back = vec![0u8; 1024];
    assert_eq!(dev.read_block(&mut back, 2, 2), Ok(1024));
    assert_eq!(back, data);
    let mut first = vec![7u8; 512];
    assert_eq!(dev.read_block(&mut first, 0, 1), Ok(512));
    assert!(first.iter().all(|b| *b == 0));
    assert_eq!(dev.close(), Ok(()));
    assert_eq!(dev.lock(), Ok(()));
    assert_eq!(dev.unlock(), Ok(()));
}

#[test]
fn short_read_is_an_error() {
    let mut dev = memory_device(1024);
    let mut buf = vec![0u8; 1024];
    assert_eq!(dev.read_block(&mut buf, 1, 2), Err(Error::IoError));
}

#[test]
fn huge_block_id_is_refused() {
    let mut dev = memory_device(1024);
    let mut buf = vec![0u8; 512];
    assert_eq!(dev.read_block(&mut buf, u64::MAX, 1), Err(Error::InvalidArgument));
    assert_eq!(dev.write_block(&buf, u64::MAX, 1), Err(Error::InvalidArgument));
}

#[test]
fn memory_storage_seeks_to_start_offsets() {
    let mut c = MemoryStorage::new(vec![1u8, 2, 3, 4]);
    assert_eq!(c.seek_start(2), Ok(2));
    let mut b = [0u8; 2];
    assert_eq!(ByteStorage::read_exact(&mut c, &mut b), Ok(()));
    assert_eq!(b, [3, 4]);
    assert_eq!(ByteStorage::read_exact(&mut c, &mut b), Err(Error::IoError));
}

#[test]
fn pinned_device_entry_points_report_status() {
    let config = BlockDeviceConfig::for_storage(2048, 512).unwrap();
    let mut dev = SimpleBlockDeviceInterface::new_device(MemoryStorage::new(vec![0u8; 2048]), config);
    let d = dev.as_mut().get_mut();
    assert_eq!(d.open(), (0, Some(config)));
    assert_eq!(d.write(&[9u8; 512], 1, 1), 0);
    let mut buf = vec![0u8; 512];
    assert_eq!(d.read(&mut buf, 1, 1), 0);
    assert_eq!(buf, vec![9u8; 512]);
    let mut big = vec![0u8; 1024];
    assert_eq!(d.read(&mut big, 3, 2), EIO);
    assert_eq!(d.close(), 0);
    assert_eq!(d.lock(), 0);
    assert_eq!(d.unlock(), 0);
    assert_eq!(d.interface().config(), config);
}

struct Failing;

impl BlockDeviceInterface for Failing {
    fn open(&mut self) -> Result<BlockDeviceConfig, Error> {
        Err(Error::Unsupported)
    }
    fn read_block(&mut self, _buf: &mut [u8], _block_id: u64, _block_count: u32) -> Result<usize, Error> {
        Err(Error::IoError)
    }
    fn write_block(&mut self, _buf: &[u8], _block_id: u64, _block_count: u32) -> Result<usize, Error> {
        Err(Error::NoSpace)
    }
    fn close(&mut self) -> Result<(), Error> {
        Err(Error::IoError)
    }
}

#[test]
fn failing_capability_reports_its_errors() {
    let mut dev = BlockDevice::new(Failing);
    let d = dev.as_mut().get_mut();
    assert_eq!(d.open(), (lwext4_rs::error::ENOTSUP, None));
    let mut buf = [0u8; 512];
    assert_eq!(d.read(&mut buf, 0, 1), EIO);
    assert_eq!(d.write(&buf, 0, 1), ENOSPC);
    assert_eq!(d.close(), EIO);
    assert_eq!(d.lock(), 0);
}

#[test]
fn memory_storage_writes_in_place_and_refuses_past_end() {
    let mut c = MemoryStorage::new(vec![0u8; 6]);
    assert_eq!(c.seek_start(2), Ok(2));
    assert_eq!(ByteStorage::write_all(&mut c, &[7, 8]), Ok(()));
    assert_eq!(c.as_slice(), &[0, 0, 7, 8, 0, 0][..]);
    assert_eq!(ByteStorage::write_all(&mut c, &[1, 2, 3]), Err(Error::IoError));
    assert_eq!(c.seek_start(10), Ok(10));
    let mut b = [0u8; 1];
    assert_eq!(ByteStorage::read_exact(&mut c, &mut b), Err(Error::IoError));
    assert_eq!(ByteStorage::flush(&mut c), Ok(()));
    assert_eq!(c.into_inner(), vec![0, 0, 7, 8, 0, 0]);
}

#[test]
fn blocks_land_at_their_byte_offset() {
    let mut dev = memory_device(2048);
    let data = vec![5u8; 512];
    assert_eq!(dev.write_block(&data, 3, 1), Ok(512));
    let bytes = dev.inner().as_slice();
    assert!(bytes[..1536].iter().all(|b| *b == 0));
    assert!(bytes[1536..].iter().all(|b| *b == 5));
    assert_eq!(dev.write_block(&data, 4, 1), Err(Error::IoError));
}

#[test]
fn open_returns_the_geometry_every_time() {
    let mut dev = memory_device(1 << 16);
    let c1 = dev.open().unwrap();
    let c2 = dev.open().unwrap();
    assert_eq!(c1, c2);
    assert_eq!(c1.block_count, (1 << 16) / 512);
    assert!(c1.part_offset + c1.part_size <= 1 << 16);
}
