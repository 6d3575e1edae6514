use file_info::{
    realign, FileAttribute, FileInfo, FileInfoCreationError, FileProtocolInfo, FileSystemInfo,
    FileSystemVolumeLabel, InfoHeader, Time, FILE_INFO_GUID, FILE_SYSTEM_INFO_GUID,
    FILE_SYSTEM_VOLUME_LABEL_GUID,
};

fn zero_time() -> Time {
    Time {
        year: 0,
        month: 0,
        day: 0,
        hour: 0,
        minute: 0,
        second: 0,
        nanosecond: 0,
        time_zone: 0,
        daylight: 0,
    }
}

fn some_time() -> Time {
    Time {
        year: 2024,
        month: 2,
        day: 29,
        hour: 23,
        minute: 59,
        second: 58,
        nanosecond: 123_456_789,
        time_zone: -60,
        daylight: 1,
    }
}

fn units(s: &str) -> Vec<u16> {
    s.encode_utf16().collect()
}

fn build_hello(storage: &mut [u8]) -> Result<FileInfo, FileInfoCreationError> {
    FileInfo::new(
        storage,
        0x1000,
        1024,
        1024,
        zero_time(),
        zero_time(),
        zero_time(),
        FileAttribute::empty(),
        "HELLO.TXT",
    )
}

#[test]
fn realign_keeps_aligned_buffer() {
    assert_eq!(realign(0x1000, 10, 8), (0, 10));
}

#[test]
fn realign_skips_to_next_multiple() {
    assert_eq!(realign(0x1001, 10, 8), (7, 3));
    assert_eq!(realign(0x1006, 10, 8), (2, 8));
}

#[test]
fn realign_too_small_is_empty() {
    assert_eq!(realign(0x1001, 5, 8), (0, 0));
    assert_eq!(realign(0x1001, 0, 8), (0, 0));
}

#[test]
fn realign_start_is_aligned_and_loss_below_alignment() {
    for align in [1usize, 2, 4, 8, 16] {
        for address in 0x2000usize..0x2020 {
            for len in 0usize..40 {
                let (offset, usable) = realign(address, len, align);
                if usable == 0 {
                    assert!(len < align);
                } else {
                    assert_eq!((address + offset) % align, 0);
                    assert!(len - usable < align);
                    assert_eq!(offset + usable, len);
                }
            }
        }
    }
}

#[test]
fn realign_storage_uses_record_alignment() {
    assert_eq!(FileInfo::alignment(), 8);
    assert_eq!(FileSystemInfo::alignment(), 8);
    assert_eq!(FileSystemVolumeLabel::alignment(), 2);
    assert_eq!(FileInfo::realign_storage(0x1003, 64), (5, 59));
    assert_eq!(FileSystemVolumeLabel::realign_storage(0x1003, 64), (1, 63));
    assert_eq!(FileSystemVolumeLabel::realign_storage(0x1004, 64), (0, 64));
}

#[test]
fn hello_file_info_in_128_bytes() {
    let mut storage = [0u8; 128];
    let info = match build_hello(&mut storage) {
        Ok(info) => info,
        Err(e) => panic!("build failed: {:?}", e),
    };
    assert_eq!(info.file_size(), 1024);
    assert_eq!(info.physical_size(), 1024);
    assert_eq!(*info.create_time(), zero_time());
    assert_eq!(info.attribute(), FileAttribute::empty());
    assert_eq!(info.file_name(), &units("HELLO.TXT")[..]);
    assert_eq!(info.start(), 0);
    assert_eq!(info.byte_len(), 100);
    assert_eq!(info.size(), 100);
    // size field, then the name right after the 80-byte header
    assert_eq!(&storage[0..8], &100u64.to_le_bytes());
    assert_eq!(&storage[8..16], &1024u64.to_le_bytes());
    assert_eq!(&storage[80..82], &[b'H', 0]);
    assert_eq!(&storage[96..98], &[b'T', 0]);
    assert_eq!(&storage[98..100], &[0, 0]);
    assert!(storage[100..].iter().all(|b| *b == 0));
}

#[test]
fn hello_file_info_in_30_bytes() {
    let mut storage = [0u8; 30];
    match build_hello(&mut storage) {
        Err(e) => assert_eq!(e, FileInfoCreationError::InsufficientStorage(80 + 20)),
        Ok(_) => panic!("a 30-byte buffer cannot hold the record"),
    }
    assert!(storage.iter().all(|b| *b == 0));
}

#[test]
fn exact_minimum_size_succeeds() {
    let mut storage = [0u8; 100];
    assert!(build_hello(&mut storage).is_ok());
    let mut storage = [0u8; 99];
    match build_hello(&mut storage) {
        Err(e) => assert_eq!(e, FileInfoCreationError::InsufficientStorage(100)),
        Ok(_) => panic!("one byte short"),
    }
}

#[test]
fn misaligned_buffer_loses_its_front() {
    let mut storage = [0u8; 105];
    let label = FileInfo::new(
        &mut storage,
        0x1003,
        1,
        2,
        zero_time(),
        zero_time(),
        zero_time(),
        FileAttribute::empty(),
        "HELLO.TXT",
    );
    match label {
        Ok(info) => assert_eq!(info.start(), 5),
        Err(e) => panic!("build failed: {:?}", e),
    }
    assert_eq!(&storage[5..13], &100u64.to_le_bytes());
    let mut storage = [0u8; 104];
    let label = FileInfo::new(
        &mut storage,
        0x1003,
        1,
        2,
        zero_time(),
        zero_time(),
        zero_time(),
        FileAttribute::empty(),
        "HELLO.TXT",
    );
    match label {
        Err(e) => assert_eq!(e, FileInfoCreationError::InsufficientStorage(100)),
        Ok(_) => panic!("the padding leaves too little room"),
    }
}

#[test]
fn buffer_shorter_than_padding_reports_full_size() {
    let mut storage = [0u8; 3];
    match FileSystemInfo::new(&mut storage, 0x1003, false, 1, 1, 512, "") {
        Err(e) => assert_eq!(e, FileInfoCreationError::InsufficientStorage(42)),
        Ok(_) => panic!("no room"),
    }
}

#[test]
fn invalid_char_is_rejected() {
    let mut storage = [0u8; 128];
    match FileSystemVolumeLabel::new(&mut storage, 0x1000, "ab\u{1F600}c\u{10000}") {
        Err(e) => assert_eq!(e, FileInfoCreationError::InvalidChar('\u{1F600}')),
        Ok(_) => panic!("a character outside UCS-2 was accepted"),
    }
}

#[test]
fn invalid_char_in_small_buffer_reports_size() {
    let mut storage = [0u8; 3];
    match FileSystemVolumeLabel::new(&mut storage, 0x1000, "\u{1F600}") {
        Err(e) => assert_eq!(e, FileInfoCreationError::InsufficientStorage(4)),
        Ok(_) => panic!("too small"),
    }
}

#[test]
fn widest_ucs2_char_is_accepted() {
    let mut storage = [0u8; 8];
    match FileSystemVolumeLabel::new(&mut storage, 0x1000, "\u{FFFF}é") {
        Ok(label) => assert_eq!(label.volume_label(), &[0xFFFFu16, 0xE9][..]),
        Err(e) => panic!("build failed: {:?}", e),
    }
    assert_eq!(storage, [0xFF, 0xFF, 0xE9, 0, 0, 0, 0, 0]);
}

#[test]
fn file_info_round_trip() {
    let mut storage = [0u8; 256];
    let attribute = FileAttribute::from_bits(0x31);
    let built = match FileInfo::new(
        &mut storage,
        0x2002,
        7,
        4096,
        some_time(),
        zero_time(),
        some_time(),
        attribute,
        "Ünïcode name.txt",
    ) {
        Ok(info) => info,
        Err(e) => panic!("build failed: {:?}", e),
    };
    assert_eq!(built.start(), 6);
    let viewed = match FileInfo::from_uefi(&storage, built.start()) {
        Some(v) => v,
        None => panic!("the built record was not found"),
    };
    assert_eq!(viewed.file_name(), &units("Ünïcode name.txt")[..]);
    assert_eq!(viewed.file_name(), built.file_name());
    assert_eq!(viewed.header(), built.header());
    assert_eq!(viewed.size(), 80 + 17 * 2);
    assert_eq!(viewed.file_size(), 7);
    assert_eq!(viewed.physical_size(), 4096);
    assert_eq!(*viewed.create_time(), some_time());
    assert_eq!(*viewed.last_access_time(), zero_time());
    assert_eq!(*viewed.modification_time(), some_time());
    assert_eq!(viewed.attribute().bits, 0x31);
    assert_eq!(viewed.byte_len(), built.byte_len());
}

#[test]
fn file_system_info_round_trip() {
    let mut storage = [0u8; 64];
    let built = match FileSystemInfo::new(&mut storage, 0x3000, true, 1 << 40, 12345, 4096, "VOL") {
        Ok(info) => info,
        Err(e) => panic!("build failed: {:?}", e),
    };
    assert_eq!(built.size(), 48);
    assert_eq!(storage[8], 1);
    assert_eq!(&storage[32..36], &4096u32.to_le_bytes());
    let viewed = match FileSystemInfo::from_uefi(&storage, 0) {
        Some(v) => v,
        None => panic!("the built record was not found"),
    };
    assert!(viewed.read_only());
    assert_eq!(viewed.volume_size(), 1 << 40);
    assert_eq!(viewed.free_space(), 12345);
    assert_eq!(viewed.block_size(), 4096);
    assert_eq!(viewed.volume_label(), &units("VOL")[..]);
    assert_eq!(viewed.size(), 48);
}

#[test]
fn volume_label_round_trip() {
    let mut storage = [0xAAu8; 16];
    let built = match FileSystemVolumeLabel::new(&mut storage, 0x4001, "DISK") {
        Ok(label) => label,
        Err(e) => panic!("build failed: {:?}", e),
    };
    assert_eq!(built.start(), 1);
    assert_eq!(built.byte_len(), 10);
    assert_eq!(storage[0], 0xAA);
    assert_eq!(&storage[1..11], &[b'D', 0, b'I', 0, b'S', 0, b'K', 0, 0, 0]);
    assert_eq!(storage[11], 0xAA);
    let viewed = match FileSystemVolumeLabel::from_uefi(&storage, 1) {
        Some(v) => v,
        None => panic!("the built record was not found"),
    };
    assert_eq!(viewed.volume_label(), &units("DISK")[..]);
}

#[test]
fn empty_name_is_just_the_terminator() {
    let mut storage = [0xFFu8; 2];
    match FileSystemVolumeLabel::new(&mut storage, 0x10, "") {
        Ok(label) => assert!(label.volume_label().is_empty()),
        Err(e) => panic!("build failed: {:?}", e),
    }
    assert_eq!(storage, [0, 0]);
}

#[test]
fn view_stops_at_first_zero_unit() {
    let storage = [b'A', 0, b'B', 0, 0, 0, b'C', 0, 0, 0];
    match FileSystemVolumeLabel::from_uefi(&storage, 0) {
        Some(v) => {
            assert_eq!(v.volume_label(), &[0x41u16, 0x42][..]);
            assert_eq!(v.byte_len(), 6);
        }
        None => panic!("terminated name not found"),
    }
}

#[test]
fn view_without_terminator_is_none() {
    let storage = [b'A', 0, b'B', 0, 0];
    assert!(FileSystemVolumeLabel::from_uefi(&storage, 0).is_none());
    let storage = [0u8; 40];
    assert!(FileSystemInfo::from_uefi(&storage, 0).is_none());
    assert!(FileSystemInfo::from_uefi(&storage, 50).is_none());
}

#[test]
fn view_reads_firmware_bytes() {
    let mut storage = vec![0u8; 90];
    storage[0..8].copy_from_slice(&86u64.to_le_bytes());
    storage[8..16].copy_from_slice(&5u64.to_le_bytes());
    storage[24..26].copy_from_slice(&1999u16.to_le_bytes());
    storage[26] = 12;
    storage[36..38].copy_from_slice(&(-300i16).to_le_bytes());
    storage[72..80].copy_from_slice(&0x10u64.to_le_bytes());
    storage[80] = b'x';
    storage[82] = b'y';
    match FileInfo::from_uefi(&storage, 0) {
        Some(v) => {
            assert_eq!(v.size(), 86);
            assert_eq!(v.file_size(), 5);
            assert_eq!(v.create_time().year, 1999);
            assert_eq!(v.create_time().month, 12);
            assert_eq!(v.create_time().time_zone, -300);
            assert_eq!(v.attribute().bits, 0x10);
            assert_eq!(v.file_name(), &units("xy")[..]);
        }
        None => panic!("record not found"),
    }
}

#[test]
fn header_sizes_and_alignments() {
    assert_eq!(<file_info::FileInfoHeader as InfoHeader>::size(), 80);
    assert_eq!(<file_info::FileSystemInfoHeader as InfoHeader>::size(), 40);
    assert_eq!(<file_info::FileSystemVolumeLabelHeader as InfoHeader>::size(), 0);
    assert_eq!(<file_info::FileInfoHeader as InfoHeader>::align(), 8);
    assert_eq!(<file_info::FileSystemVolumeLabelHeader as InfoHeader>::align(), 1);
}

#[test]
fn type_tags() {
    assert_eq!(FileInfo::guid(), FILE_INFO_GUID);
    assert_eq!(FILE_INFO_GUID, 0x09576e92_6d3f_11d2_8e39_00a0c969723b);
    assert_eq!(FileSystemInfo::guid(), 0x09576e93_6d3f_11d2_8e39_00a0c969723b);
    assert_eq!(FileSystemInfo::guid(), FILE_SYSTEM_INFO_GUID);
    assert_eq!(FileSystemVolumeLabel::guid(), 0xdb47d7d3_fe81_11d3_9a35_0090273fc14d);
    assert_eq!(FileSystemVolumeLabel::guid(), FILE_SYSTEM_VOLUME_LABEL_GUID);
}
