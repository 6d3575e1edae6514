//! The fixed-layout headers that open each kind of record, and their byte
//! encoding (C layout, little-endian).
use vstd::prelude::*;
use crate::bytes::{
    splice, u16_le, u32_le, u64_le, u16_at, u32_at, u64_at, lemma_u16_at, lemma_u32_at,
    lemma_u64_at, lemma_splice_concat, put_u64, get_u16, get_u32, get_u64,
};

verus! {

/// A header that can open a record: a plain value with a fixed size, a
/// fixed alignment and a byte encoding that reads back to the same value.
pub trait InfoHeader: Sized {
    /// The header's bytes, as laid out in memory.
    spec fn spec_bytes(&self) -> Seq<u8>;

    /// The header that the bytes `b` hold.
    spec fn spec_parse(b: Seq<u8>) -> Self;

    /// The size of the header in bytes.
    spec fn spec_size() -> nat;

    /// The natural alignment of the header.
    spec fn spec_align() -> nat;

    /// The header with its self-reported record size set to `n`; the header
    /// itself where it has no such field.
    spec fn spec_with_size(self, n: u64) -> Self;

    /// The encoding has the header's size and reads back to the header.
    proof fn lemma_layout(h: Self)
        ensures
            h.spec_bytes().len() == Self::spec_size(),
            Self::spec_parse(h.spec_bytes()) == h,
    ;

    fn size() -> (r: usize)
        ensures
            r == Self::spec_size(),
    ;

    fn align() -> (r: usize)
        ensures
            r == Self::spec_align(),
            r > 0,
    ;

    fn set_size(&mut self, n: u64)
        ensures
            *final(self) == old(self).spec_with_size(n),
    ;

    fn write_to(&self, s: &mut [u8], at: usize)
        requires
            at + Self::spec_size() <= old(s)@.len(),
        ensures
            final(s)@ == splice(old(s)@, at as int, self.spec_bytes()),
    ;

    fn read_from(s: &[u8], at: usize) -> (r: Self)
        requires
            at + Self::spec_size() <= s@.len(),
        ensures
            r == Self::spec_parse(s@.subrange(at as int, at + Self::spec_size())),
    ;
}

/// A point in time as firmware records it.
#[derive(Clone, Copy, PartialEq, Eq, Structural, Debug)]
pub struct Time {
    pub year: u16,
    pub month: u8,
    pub day: u8,
    pub hour: u8,
    pub minute: u8,
    pub second: u8,
    pub nanosecond: u32,
    /// Offset from UTC in minutes.
    pub time_zone: i16,
    pub daylight: u8,
}

/// The 16 bytes of a time, little-endian; the two padding bytes are zero.
pub open spec fn time_le(t: Time) -> Seq<u8> {
    let z = #[verifier::truncate] (t.time_zone as u16);
    seq![
        t.year as u8, (t.year >> 8u16) as u8, t.month, t.day, t.hour, t.minute, t.second, 0u8,
        t.nanosecond as u8, (t.nanosecond >> 8u32) as u8, (t.nanosecond >> 16u32) as u8,
        (t.nanosecond >> 24u32) as u8, z as u8, (z >> 8u16) as u8, t.daylight, 0u8,
    ]
}

/// The time stored in `b` at `i`.
pub open spec fn time_at(b: Seq<u8>, i: int) -> Time {
    Time {
        year: u16_at(b, i),
        month: b[i + 2],
        day: b[i + 3],
        hour: b[i + 4],
        minute: b[i + 5],
        second: b[i + 6],
        nanosecond: u32_at(b, i + 8),
        time_zone: #[verifier::truncate] (u16_at(b, i + 12) as i16),
        daylight: b[i + 14],
    }
}

pub proof fn lemma_time_at(b: Seq<u8>, i: int, t: Time)
    requires
        0 <= i,
        i + 16 <= b.len(),
        b.subrange(i, i + 16) == time_le(t),
    ensures
        time_at(b, i) == t,
{
    let e = time_le(t);
    assert(b.subrange(i, i + 2) =~= e.subrange(0, 2));
    assert(b.subrange(i + 8, i + 12) =~= e.subrange(8, 12));
    assert(b.subrange(i + 12, i + 14) =~= e.subrange(12, 14));
    assert(e.subrange(0, 2) =~= u16_le(t.year));
    assert(e.subrange(8, 12) =~= u32_le(t.nanosecond));
    assert(e.subrange(12, 14) =~= u16_le(#[verifier::truncate] (t.time_zone as u16)));
    assert forall|k: int| 0 <= k < 16 implies b[i + k] == #[trigger] e[k] by {
        assert(b.subrange(i, i + 16)[k] == b[i + k]);
    }
    assert(e[2] == t.month);
    assert(e[3] == t.day);
    assert(e[4] == t.hour);
    assert(e[5] == t.minute);
    assert(e[6] == t.second);
    assert(e[14] == t.daylight);
    lemma_u16_at(b, i, t.year);
    lemma_u32_at(b, i + 8, t.nanosecond);
    lemma_u16_at(b, i + 12, #[verifier::truncate] (t.time_zone as u16));
    let z = t.time_zone;
    assert((#[verifier::truncate] (#[verifier::truncate] (z as u16) as i16)) == z) by (bit_vector);
    assert(b[i + 2] == t.month);
    assert(b[i + 3] == t.day);
    assert(b[i + 4] == t.hour);
    assert(b[i + 5] == t.minute);
    assert(b[i + 6] == t.second);
    assert(b[i + 14] == t.daylight);
}

fn write_time(t: &Time, s: &mut [u8], at: usize)
    requires
        at + 16 <= old(s)@.len(),
    ensures
        final(s)@ == splice(old(s)@, at as int, time_le(*t)),
{
    proof {
        assert(s@.len() == s.len());
    }
    let z = #[verifier::truncate] (t.time_zone as u16);
    s[at] = t.year as u8;
    s[at + 1] = (t.year >> 8u16) as u8;
    s[at + 2] = t.month;
    s[at + 3] = t.day;
    s[at + 4] = t.hour;
    s[at + 5] = t.minute;
    s[at + 6] = t.second;
    s[at + 7] = 0;
    s[at + 8] = t.nanosecond as u8;
    s[at + 9] = (t.nanosecond >> 8u32) as u8;
    s[at + 10] = (t.nanosecond >> 16u32) as u8;
    s[at + 11] = (t.nanosecond >> 24u32) as u8;
    s[at + 12] = z as u8;
    s[at + 13] = (z >> 8u16) as u8;
    s[at + 14] = t.daylight;
    s[at + 15] = 0;
    assert(s@ =~= splice(old(s)@, at as int, time_le(*t)));
}

fn read_time(s: &[u8], at: usize) -> (r: Time)
    requires
        at + 16 <= s@.len(),
    ensures
        r == time_at(s@, at as int),
{
    proof {
        assert(s@.len() == s.len());
    }
    Time {
        year: get_u16(s, at),
        month: s[at + 2],
        day: s[at + 3],
        hour: s[at + 4],
        minute: s[at + 5],
        second: s[at + 6],
        nanosecond: get_u32(s, at + 8),
        time_zone: #[verifier::truncate] (get_u16(s, at + 12) as i16),
        daylight: s[at + 14],
    }
}

/// The attribute bits of a file.
#[derive(Clone, Copy, PartialEq, Eq, Structural, Debug)]
pub struct FileAttribute {
    pub bits: u64,
}

impl FileAttribute {
    /// No attribute bit set.
    pub fn empty() -> (r: FileAttribute)
        ensures
            r.bits == 0,
    {
        FileAttribute { bits: 0 }
    }

    pub fn from_bits(bits: u64) -> (r: FileAttribute)
        ensures
            r.bits == bits,
    {
        FileAttribute { bits }
    }
}

/// Header of generic file information.
#[derive(Clone, Copy, PartialEq, Eq, Structural, Debug)]
pub struct FileInfoHeader {
    /// Size of the whole record in bytes.
    pub size: u64,
    /// Number of bytes stored in the file.
    pub file_size: u64,
    /// Space the file takes on its volume.
    pub physical_size: u64,
    pub create_time: Time,
    pub last_access_time: Time,
    pub modification_time: Time,
    pub attribute: FileAttribute,
}

impl InfoHeader for FileInfoHeader {
    open spec fn spec_bytes(&self) -> Seq<u8> {
        u64_le(self.size) + u64_le(self.file_size) + u64_le(self.physical_size) + time_le(
            self.create_time,
        ) + time_le(self.last_access_time) + time_le(self.modification_time) + u64_le(
            self.attribute.bits,
        )
    }

    open spec fn spec_parse(b: Seq<u8>) -> Self {
        FileInfoHeader {
            size: u64_at(b, 0),
            file_size: u64_at(b, 8),
            physical_size: u64_at(b, 16),
            create_time: time_at(b, 24),
            last_access_time: time_at(b, 40),
            modification_time: time_at(b, 56),
            attribute: FileAttribute { bits: u64_at(b, 72) },
        }
    }

    open spec fn spec_size() -> nat {
        80
    }

    open spec fn spec_align() -> nat {
        8
    }

    open spec fn spec_with_size(self, n: u64) -> Self {
        FileInfoHeader {
            size: n,
            file_size: self.file_size,
            physical_size: self.physical_size,
            create_time: self.create_time,
            last_access_time: self.last_access_time,
            modification_time: self.modification_time,
            attribute: self.attribute,
        }
    }

    proof fn lemma_layout(h: Self) {
        let b = h.spec_bytes();
        assert(b.subrange(0, 8) =~= u64_le(h.size));
        assert(b.subrange(8, 16) =~= u64_le(h.file_size));
        assert(b.subrange(16, 24) =~= u64_le(h.physical_size));
        assert(b.subrange(24, 40) =~= time_le(h.create_time));
        assert(b.subrange(40, 56) =~= time_le(h.last_access_time));
        assert(b.subrange(56, 72) =~= time_le(h.modification_time));
        assert(b.subrange(72, 80) =~= u64_le(h.attribute.bits));
        lemma_u64_at(b, 0, h.size);
        lemma_u64_at(b, 8, h.file_size);
        lemma_u64_at(b, 16, h.physical_size);
        lemma_time_at(b, 24, h.create_time);
        lemma_time_at(b, 40, h.last_access_time);
        lemma_time_at(b, 56, h.modification_time);
        lemma_u64_at(b, 72, h.attribute.bits);
    }

    fn size() -> (r: usize) {
        80
    }

    fn align() -> (r: usize) {
        8
    }

    fn set_size(&mut self, n: u64) {
        self.size = n;
    }

    fn write_to(&self, s: &mut [u8], at: usize) {
        proof {
            assert(s@.len() == s.len());
        }
        let ghost s0 = s@;
        let ghost a = at as int;
        put_u64(s, at, self.size);
        put_u64(s, at + 8, self.file_size);
        proof {
            lemma_splice_concat(s0, a, u64_le(self.size), u64_le(self.file_size));
        }
        let ghost p = u64_le(self.size) + u64_le(self.file_size);
        put_u64(s, at + 16, self.physical_size);
        proof {
            lemma_splice_concat(s0, a, p, u64_le(self.physical_size));
            p = p + u64_le(self.physical_size);
        }
        write_time(&self.create_time, s, at + 24);
        proof {
            lemma_splice_concat(s0, a, p, time_le(self.create_time));
            p = p + time_le(self.create_time);
        }
        write_time(&self.last_access_time, s, at + 40);
        proof {
            lemma_splice_concat(s0, a, p, time_le(self.last_access_time));
            p = p + time_le(self.last_access_time);
        }
        write_time(&self.modification_time, s, at + 56);
        proof {
            lemma_splice_concat(s0, a, p, time_le(self.modification_time));
            p = p + time_le(self.modification_time);
        }
        put_u64(s, at + 72, self.attribute.bits);
        proof {
            lemma_splice_concat(s0, a, p, u64_le(self.attribute.bits));
        }
    }

    fn read_from(s: &[u8], at: usize) -> (r: Self) {
        proof {
            assert(s@.len() == s.len());
        }
        let ghost b = s@.subrange(at as int, at + 80);
        let r = FileInfoHeader {
            size: get_u64(s, at),
            file_size: get_u64(s, at + 8),
            physical_size: get_u64(s, at + 16),
            create_time: read_time(s, at + 24),
            last_access_time: read_time(s, at + 40),
            modification_time: read_time(s, at + 56),
            attribute: FileAttribute { bits: get_u64(s, at + 72) },
        };
        assert(r.create_time == time_at(b, 24));
        assert(r.last_access_time == time_at(b, 40));
        assert(r.modification_time == time_at(b, 56));
        r
    }
}

/// Header of system volume information.
#[derive(Clone, Copy, PartialEq, Eq, Structural, Debug)]
pub struct FileSystemInfoHeader {
    /// Size of the whole record in bytes.
    pub size: u64,
    /// The volume only supports read access.
    pub read_only: bool,
    /// Number of bytes the file system manages.
    pub volume_size: u64,
    /// Number of bytes still free.
    pub free_space: u64,
    /// Block size by which files are usually grown.
    pub block_size: u32,
}

/// A flag as one byte: one for true, zero for false.
pub open spec fn flag_byte(b: bool) -> u64 {
    if b {
        1
    } else {
        0
    }
}

impl InfoHeader for FileSystemInfoHeader {
    /// The flag byte and the block size are each followed by the padding that
    /// aligns what comes next; that padding is zero, so each pair is written
    /// as one little-endian `u64`.
    open spec fn spec_bytes(&self) -> Seq<u8> {
        u64_le(self.size) + u64_le(flag_byte(self.read_only)) + u64_le(self.volume_size) + u64_le(
            self.free_space,
        ) + u64_le(self.block_size as u64)
    }

    open spec fn spec_parse(b: Seq<u8>) -> Self {
        FileSystemInfoHeader {
            size: u64_at(b, 0),
            read_only: b[8] != 0,
            volume_size: u64_at(b, 16),
            free_space: u64_at(b, 24),
            block_size: u32_at(b, 32),
        }
    }

    open spec fn spec_size() -> nat {
        40
    }

    open spec fn spec_align() -> nat {
        8
    }

    open spec fn spec_with_size(self, n: u64) -> Self {
        FileSystemInfoHeader {
            size: n,
            read_only: self.read_only,
            volume_size: self.volume_size,
            free_space: self.free_space,
            block_size: self.block_size,
        }
    }

    proof fn lemma_layout(h: Self) {
        let b = h.spec_bytes();
        let bs = h.block_size;
        assert(b.subrange(0, 8) =~= u64_le(h.size));
        assert(b.subrange(16, 24) =~= u64_le(h.volume_size));
        assert(b.subrange(24, 32) =~= u64_le(h.free_space));
        assert(b.subrange(32, 36) =~= u32_le(bs)) by {
            assert((bs as u64) as u8 == bs as u8) by (bit_vector);
            assert(((bs as u64) >> 8u64) as u8 == (bs >> 8u32) as u8) by (bit_vector);
            assert(((bs as u64) >> 16u64) as u8 == (bs >> 16u32) as u8) by (bit_vector);
            assert(((bs as u64) >> 24u64) as u8 == (bs >> 24u32) as u8) by (bit_vector);
        }
        assert(b[8] == flag_byte(h.read_only) as u8);
        lemma_u64_at(b, 0, h.size);
        lemma_u64_at(b, 16, h.volume_size);
        lemma_u64_at(b, 24, h.free_space);
        lemma_u32_at(b, 32, bs);
    }

    fn size() -> (r: usize) {
        40
    }

    fn align() -> (r: usize) {
        8
    }

    fn set_size(&mut self, n: u64) {
        self.size = n;
    }

    fn write_to(&self, s: &mut [u8], at: usize) {
        proof {
            assert(s@.len() == s.len());
        }
        let ghost s0 = s@;
        let ghost a = at as int;
        let flag: u64 = if self.read_only {
            1
        } else {
            0
        };
        put_u64(s, at, self.size);
        put_u64(s, at + 8, flag);
        proof {
            lemma_splice_concat(s0, a, u64_le(self.size), u64_le(flag));
        }
        let ghost p = u64_le(self.size) + u64_le(flag);
        put_u64(s, at + 16, self.volume_size);
        proof {
            lemma_splice_concat(s0, a, p, u64_le(self.volume_size));
            p = p + u64_le(self.volume_size);
        }
        put_u64(s, at + 24, self.free_space);
        proof {
            lemma_splice_concat(s0, a, p, u64_le(self.free_space));
            p = p + u64_le(self.free_space);
        }
        put_u64(s, at + 32, self.block_size as u64);
        proof {
            lemma_splice_concat(s0, a, p, u64_le(self.block_size as u64));
        }
    }

    fn read_from(s: &[u8], at: usize) -> (r: Self) {
        proof {
            assert(s@.len() == s.len());
        }
        FileSystemInfoHeader {
            size: get_u64(s, at),
            read_only: s[at + 8] != 0,
            volume_size: get_u64(s, at + 16),
            free_space: get_u64(s, at + 24),
            block_size: get_u32(s, at + 32),
        }
    }
}

/// Header of the volume label record: it has no field.
#[derive(Clone, Copy, PartialEq, Eq, Structural, Debug)]
pub struct FileSystemVolumeLabelHeader {}

impl InfoHeader for FileSystemVolumeLabelHeader {
    open spec fn spec_bytes(&self) -> Seq<u8> {
        Seq::empty()
    }

    open spec fn spec_parse(b: Seq<u8>) -> Self {
        FileSystemVolumeLabelHeader {  }
    }

    open spec fn spec_size() -> nat {
        0
    }

    open spec fn spec_align() -> nat {
        1
    }

    open spec fn spec_with_size(self, n: u64) -> Self {
        self
    }

    proof fn lemma_layout(h: Self) {
    }

    fn size() -> (r: usize) {
        0
    }

    fn align() -> (r: usize) {
        1
    }

    fn set_size(&mut self, n: u64) {
    }

    fn write_to(&self, s: &mut [u8], at: usize) {
        assert(s@ =~= splice(s@, at as int, Seq::empty()));
    }

    fn read_from(s: &[u8], at: usize) -> (r: Self) {
        FileSystemVolumeLabelHeader {  }
    }
}

} // verus!
