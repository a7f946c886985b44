//! Safe, verified core of a binding to the lwext4 embedded filesystem engine:
//! path values, error kinds, the block-device capability and the status logic
//! behind the engine's callbacks, the device-name table, directory entries,
//! file arguments, release order and the parsing of what the engine returns.

pub mod block;
pub mod dir;
pub mod error;
pub mod file;
pub mod fs;
pub mod lifecycle;
pub mod name;
pub mod registry;
pub mod types;

pub use block::{BlockDevice, BlockDeviceConfig, BlockDeviceInterface, SimpleBlockDeviceInterface};
pub use dir::{DirEntry, FileType, RemoveStep};
pub use error::Error;
pub use file::{OpenOptions, SeekFrom};
pub use name::CName;
pub use registry::Registry;
pub use types::{Metadata, Permissions};
