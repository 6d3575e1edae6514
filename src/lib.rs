//! Building and reading file-information records: a fixed header followed by
//! a null-terminated UCS-2 name, laid out byte for byte as firmware expects.
pub mod align;
pub mod bytes;
pub mod header;
pub mod kinds;
pub mod laws;
pub mod record;

pub use align::realign;
pub use header::{
    FileAttribute, FileInfoHeader, FileSystemInfoHeader, FileSystemVolumeLabelHeader, InfoHeader,
    Time,
};
pub use kinds::{
    FileInfo, FileProtocolInfo, FileSystemInfo, FileSystemVolumeLabel, FILE_INFO_GUID,
    FILE_SYSTEM_INFO_GUID, FILE_SYSTEM_VOLUME_LABEL_GUID,
};
pub use record::{FileInfoCreationError, NamedFileProtocolInfo};
