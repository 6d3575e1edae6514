//! The three kinds of record: file information, file system information and
//! the volume label, with the identifiers firmware knows them by.
use vstd::prelude::*;
use crate::header::{
    FileAttribute, FileInfoHeader, FileSystemInfoHeader, FileSystemVolumeLabelHeader, Time,
};
use crate::record::{build_outcome, record_size, FileInfoCreationError, NamedFileProtocolInfo};

verus! {

/// Identifier of file information: 09576e92-6d3f-11d2-8e39-00a0c969723b.
pub const FILE_INFO_GUID: u128 = 0x09576e92_6d3f_11d2_8e39_00a0c969723b;

/// Identifier of file system information: 09576e93-6d3f-11d2-8e39-00a0c969723b.
pub const FILE_SYSTEM_INFO_GUID: u128 = 0x09576e93_6d3f_11d2_8e39_00a0c969723b;

/// Identifier of the volume label: db47d7d3-fe81-11d3-9a35-0090273fc14d.
pub const FILE_SYSTEM_VOLUME_LABEL_GUID: u128 = 0xdb47d7d3_fe81_11d3_9a35_0090273fc14d;

/// A kind of record that firmware reads and writes through a file handle.
pub trait FileProtocolInfo {
    spec fn spec_guid() -> u128;

    /// The identifier of this kind of record.
    fn guid() -> (r: u128)
        ensures
            r == Self::spec_guid(),
    ;
}

/// Generic information on a file.
pub type FileInfo = NamedFileProtocolInfo<FileInfoHeader>;

/// Information on the volume; only the root directory's handle has it.
pub type FileSystemInfo = NamedFileProtocolInfo<FileSystemInfoHeader>;

/// The volume label; only the root directory's handle has it.
pub type FileSystemVolumeLabel = NamedFileProtocolInfo<FileSystemVolumeLabelHeader>;

impl FileProtocolInfo for FileInfo {
    open spec fn spec_guid() -> u128 {
        FILE_INFO_GUID
    }

    fn guid() -> (r: u128) {
        FILE_INFO_GUID
    }
}

impl FileProtocolInfo for FileSystemInfo {
    open spec fn spec_guid() -> u128 {
        FILE_SYSTEM_INFO_GUID
    }

    fn guid() -> (r: u128) {
        FILE_SYSTEM_INFO_GUID
    }
}

impl FileProtocolInfo for FileSystemVolumeLabel {
    open spec fn spec_guid() -> u128 {
        FILE_SYSTEM_VOLUME_LABEL_GUID
    }

    fn guid() -> (r: u128) {
        FILE_SYSTEM_VOLUME_LABEL_GUID
    }
}

impl FileInfo {
    /// Build file information in `storage`, a buffer that starts at address
    /// `storage_address`; the size field is set to the record's size.
    pub fn new(
        storage: &mut [u8],
        storage_address: usize,
        file_size: u64,
        physical_size: u64,
        create_time: Time,
        last_access_time: Time,
        modification_time: Time,
        attribute: FileAttribute,
        file_name: &str,
    ) -> (r: Result<Self, FileInfoCreationError>)
        requires
            record_size::<FileInfoHeader>(file_name@.len()) <= usize::MAX,
        ensures
            build_outcome(
                old(storage)@,
                final(storage)@,
                storage_address as int,
                (FileInfoHeader {
                    size: 0,
                    file_size,
                    physical_size,
                    create_time,
                    last_access_time,
                    modification_time,
                    attribute,
                }),
                file_name@,
                r,
            ),
    {
        let header = FileInfoHeader {
            size: 0,
            file_size,
            physical_size,
            create_time,
            last_access_time,
            modification_time,
            attribute,
        };
        Self::new_impl(storage, storage_address, header, file_name)
    }

    /// Size of the whole record in bytes, as its header reports it.
    pub fn size(&self) -> (r: u64)
        ensures
            r == self.spec_header().size,
    {
        self.header().size
    }

    /// Number of bytes stored in the file.
    pub fn file_size(&self) -> (r: u64)
        ensures
            r == self.spec_header().file_size,
    {
        self.header().file_size
    }

    /// Space the file takes on its volume.
    pub fn physical_size(&self) -> (r: u64)
        ensures
            r == self.spec_header().physical_size,
    {
        self.header().physical_size
    }

    /// When the file was created.
    pub fn create_time(&self) -> (r: &Time)
        ensures
            *r == self.spec_header().create_time,
    {
        &self.header().create_time
    }

    /// When the file was last accessed.
    pub fn last_access_time(&self) -> (r: &Time)
        ensures
            *r == self.spec_header().last_access_time,
    {
        &self.header().last_access_time
    }

    /// When the file's contents were last modified.
    pub fn modification_time(&self) -> (r: &Time)
        ensures
            *r == self.spec_header().modification_time,
    {
        &self.header().modification_time
    }

    /// The file's attribute bits.
    pub fn attribute(&self) -> (r: FileAttribute)
        ensures
            r == self.spec_header().attribute,
    {
        self.header().attribute
    }

    /// The code units of the file's name, without the terminator.
    pub fn file_name(&self) -> (r: &[u16])
        ensures
            r@ == self.spec_name(),
    {
        self.name()
    }
}

impl FileSystemInfo {
    /// Build file system information in `storage`, a buffer that starts at
    /// address `storage_address`; the size field is set to the record's size.
    pub fn new(
        storage: &mut [u8],
        storage_address: usize,
        read_only: bool,
        volume_size: u64,
        free_space: u64,
        block_size: u32,
        volume_label: &str,
    ) -> (r: Result<Self, FileInfoCreationError>)
        requires
            record_size::<FileSystemInfoHeader>(volume_label@.len()) <= usize::MAX,
        ensures
            build_outcome(
                old(storage)@,
                final(storage)@,
                storage_address as int,
                (FileSystemInfoHeader { size: 0, read_only, volume_size, free_space, block_size }),
                volume_label@,
                r,
            ),
    {
        let header = FileSystemInfoHeader { size: 0, read_only, volume_size, free_space, block_size };
        Self::new_impl(storage, storage_address, header, volume_label)
    }

    /// Size of the whole record in bytes, as its header reports it.
    pub fn size(&self) -> (r: u64)
        ensures
            r == self.spec_header().size,
    {
        self.header().size
    }

    /// The volume only supports read access.
    pub fn read_only(&self) -> (r: bool)
        ensures
            r == self.spec_header().read_only,
    {
        self.header().read_only
    }

    /// Number of bytes the file system manages.
    pub fn volume_size(&self) -> (r: u64)
        ensures
            r == self.spec_header().volume_size,
    {
        self.header().volume_size
    }

    /// Number of bytes still free.
    pub fn free_space(&self) -> (r: u64)
        ensures
            r == self.spec_header().free_space,
    {
        self.header().free_space
    }

    /// Block size by which files are usually grown.
    pub fn block_size(&self) -> (r: u32)
        ensures
            r == self.spec_header().block_size,
    {
        self.header().block_size
    }

    /// The code units of the volume label, without the terminator.
    pub fn volume_label(&self) -> (r: &[u16])
        ensures
            r@ == self.spec_name(),
    {
        self.name()
    }
}

impl FileSystemVolumeLabel {
    /// Build a volume label in `storage`, a buffer that starts at address
    /// `storage_address`.
    pub fn new(storage: &mut [u8], storage_address: usize, volume_label: &str) -> (r: Result<
        Self,
        FileInfoCreationError,
    >)
        requires
            record_size::<FileSystemVolumeLabelHeader>(volume_label@.len()) <= usize::MAX,
        ensures
            build_outcome(
                old(storage)@,
                final(storage)@,
                storage_address as int,
                (FileSystemVolumeLabelHeader {  }),
                volume_label@,
                r,
            ),
    {
        Self::new_impl(storage, storage_address, FileSystemVolumeLabelHeader {  }, volume_label)
    }

    /// The code units of the volume label, without the terminator.
    pub fn volume_label(&self) -> (r: &[u16])
        ensures
            r@ == self.spec_name(),
    {
        self.name()
    }
}

} // verus!
