//! Records made of a fixed header followed by a null-terminated UCS-2 name:
//! building one into a caller's buffer, and reading one back from a buffer.
use vstd::prelude::*;
use crate::align::{align_padding, realign};
use crate::bytes::{splice, u16_at, u16_le, lemma_splice_concat, put_u16, get_u16};
use crate::header::InfoHeader;

verus! {

/// Why a record could not be built.
#[derive(Clone, Copy, PartialEq, Eq, Structural, Debug)]
pub enum FileInfoCreationError {
    /// The buffer is too small: at least this many bytes are needed from its
    /// first suitably aligned byte on. A misaligned buffer loses the bytes in
    /// front of that one.
    InsufficientStorage(usize),
    /// The name holds this character, which has no single UCS-2 code unit.
    InvalidChar(char),
}

/// The character is a single UCS-2 code unit.
pub open spec fn is_ucs2(c: char) -> bool {
    (c as u32) <= 0xffff
}

/// Every character of the name is a single UCS-2 code unit.
pub open spec fn all_ucs2(name: Seq<char>) -> bool {
    forall|i: int| 0 <= i < name.len() ==> is_ucs2(#[trigger] name[i])
}

/// `c` is the first character of `name` that is not UCS-2.
pub open spec fn first_invalid(name: Seq<char>, c: char) -> bool {
    exists|i: int|
        0 <= i < name.len() && #[trigger] name[i] == c && !is_ucs2(c) && all_ucs2(
            name.subrange(0, i),
        )
}

/// The UCS-2 code units of a name (each character truncated to 16 bits).
pub open spec fn ucs2_units(name: Seq<char>) -> Seq<u16> {
    name.map_values(|c: char| (c as u32) as u16)
}

/// Code units, each as two little-endian bytes.
pub open spec fn units_le(u: Seq<u16>) -> Seq<u8> {
    Seq::new(
        2 * u.len(),
        |i: int|
            if i % 2 == 0 {
                u[i / 2] as u8
            } else {
                (u[i / 2] >> 8u16) as u8
            },
    )
}

/// The bytes of a record: the header, then the name and its terminator.
pub open spec fn record_bytes<H: InfoHeader>(h: H, name: Seq<u16>) -> Seq<u8> {
    h.spec_bytes() + units_le(name.push(0u16))
}

/// Size in bytes of a record whose name has `name_len` code units.
pub open spec fn record_size<H: InfoHeader>(name_len: nat) -> nat {
    H::spec_size() + (name_len + 1) * 2
}

/// Alignment of a record: that of its header, and at least that of a code unit.
pub open spec fn record_align<H: InfoHeader>() -> nat {
    if H::spec_align() < 2 {
        2
    } else {
        H::spec_align()
    }
}

/// The `j`-th code unit of a name stored in `b` from `p` on.
pub open spec fn unit_at(b: Seq<u8>, p: int, j: int) -> u16 {
    u16_at(b, p + 2 * j)
}

/// The first `k` code units of a name stored in `b` from `p` on.
pub open spec fn units_at(b: Seq<u8>, p: int, k: nat) -> Seq<u16> {
    Seq::new(k, |j: int| unit_at(b, p, j))
}

/// The name stored in `b` from `p` on ends at its `k`-th code unit: that unit
/// lies inside `b`, is zero, and is the first zero unit.
pub open spec fn terminator_at(b: Seq<u8>, p: int, k: int) -> bool {
    &&& 0 <= k
    &&& p + 2 * k + 2 <= b.len()
    &&& unit_at(b, p, k) == 0
    &&& forall|j: int| 0 <= j < k ==> #[trigger] unit_at(b, p, j) != 0
}

/// A record: a header and the code units of its name (without the
/// terminator), and where its bytes start in the buffer it was built in or
/// read from.
pub struct NamedFileProtocolInfo<Header: InfoHeader> {
    header: Header,
    name: Vec<u16>,
    start: usize,
}

/// What building a record with header `h` and name `name` does to `before`,
/// a buffer that starts at `address`, and returns.
///
/// The record starts at the first byte whose address is a multiple of the
/// record's alignment; from there it needs `record_size` bytes. With too few
/// bytes the buffer is left as it was and the error gives the size needed.
/// With enough, a character outside UCS-2 fails the build with the first
/// such character. Otherwise the record's bytes are written there, with the
/// header's size field set to the record's size, and nothing else changes.
pub open spec fn build_outcome<H: InfoHeader>(
    before: Seq<u8>,
    after: Seq<u8>,
    address: int,
    h: H,
    name: Seq<char>,
    r: Result<NamedFileProtocolInfo<H>, FileInfoCreationError>,
) -> bool {
    let pad = align_padding(address, record_align::<H>() as int);
    let fits = pad <= before.len();
    let start = if fits {
        pad
    } else {
        0
    };
    let usable = if fits {
        before.len() - pad
    } else {
        0
    };
    let need = record_size::<H>(name.len());
    &&& after.len() == before.len()
    &&& match r {
        Ok(rec) => {
            &&& need <= usable
            &&& all_ucs2(name)
            &&& rec.spec_start() == start
            &&& rec.spec_header() == h.spec_with_size(need as u64)
            &&& rec.spec_name() == ucs2_units(name)
            &&& after == splice(before, start, record_bytes(rec.spec_header(), rec.spec_name()))
        },
        Err(FileInfoCreationError::InsufficientStorage(n)) => {
            &&& usable < need
            &&& n == need
            &&& after == before
        },
        Err(FileInfoCreationError::InvalidChar(c)) => {
            &&& need <= usable
            &&& first_invalid(name, c)
        },
    }
}

/// What reading a record from `b` at `start` returns: `None` when the header
/// does not fit or no zero code unit follows it inside `b`; else the header
/// stored at `start` and the code units up to the first zero one.
pub open spec fn view_outcome<H: InfoHeader>(
    b: Seq<u8>,
    start: int,
    r: Option<NamedFileProtocolInfo<H>>,
) -> bool {
    let p = start + H::spec_size();
    match r {
        Some(rec) => {
            &&& p <= b.len()
            &&& terminator_at(b, p, rec.spec_name().len() as int)
            &&& rec.spec_name() == units_at(b, p, rec.spec_name().len())
            &&& rec.spec_header() == H::spec_parse(b.subrange(start, p))
            &&& rec.spec_start() == start
        },
        None => p > b.len() || forall|k: int| !#[trigger] terminator_at(b, p, k),
    }
}

proof fn lemma_units_le_push(u: Seq<u16>, v: u16)
    ensures
        units_le(u.push(v)) == units_le(u) + u16_le(v),
{
    assert(units_le(u.push(v)) =~= units_le(u) + u16_le(v));
}

impl<H: InfoHeader> NamedFileProtocolInfo<H> {
    /// The record's header.
    pub closed spec fn spec_header(&self) -> H {
        self.header
    }

    /// The code units of the record's name, without the terminator.
    pub closed spec fn spec_name(&self) -> Seq<u16> {
        self.name@
    }

    /// Offset of the record's first byte in its buffer.
    pub closed spec fn spec_start(&self) -> int {
        self.start as int
    }

    #[verifier::type_invariant]
    closed spec fn fits_usize(&self) -> bool {
        record_size::<H>(self.name@.len()) <= usize::MAX
    }

    /// Alignment that a buffer must have for this kind of record.
    pub fn alignment() -> (r: usize)
        ensures
            r == record_align::<H>(),
    {
        let a = H::align();
        if a < 2 {
            2
        } else {
            a
        }
    }

    /// The offset and the length of the largest part of a buffer of
    /// `storage_len` bytes at `storage_address` that is aligned for this
    /// kind of record; `(0, 0)` when the buffer is too short to reach an
    /// aligned address.
    pub fn realign_storage(storage_address: usize, storage_len: usize) -> (r: (usize, usize))
        ensures
            storage_len < align_padding(storage_address as int, record_align::<H>() as int) ==> r
                == (0usize, 0usize),
            storage_len >= align_padding(storage_address as int, record_align::<H>() as int)
                ==> r == (
                align_padding(storage_address as int, record_align::<H>() as int) as usize,
                (storage_len - align_padding(
                    storage_address as int,
                    record_align::<H>() as int,
                )) as usize,
            ),
    {
        realign(storage_address, storage_len, Self::alignment())
    }

    /// Build a record with `header` and `name` in `storage`, a buffer that
    /// starts at address `storage_address`. The bytes in front of the first
    /// suitably aligned one are left unused.
    pub fn new_impl(storage: &mut [u8], storage_address: usize, header: H, name: &str) -> (r:
        Result<Self, FileInfoCreationError>)
        requires
            record_size::<H>(name@.len()) <= usize::MAX,
        ensures
            build_outcome(old(storage)@, final(storage)@, storage_address as int, header, name@, r),
    {
        proof {
            assert(storage@.len() == storage.len());
        }
        let ghost s0 = storage@;
        let (offset, usable) = Self::realign_storage(storage_address, storage.len());
        let name_len = name.unicode_len();
        let info_size = H::size() + (name_len + 1) * 2;
        if usable < info_size {
            return Err(FileInfoCreationError::InsufficientStorage(info_size));
        }
        let mut header = header;
        header.set_size(info_size as u64);
        header.write_to(storage, offset);
        proof {
            H::lemma_layout(header);
        }
        let ghost s1 = storage@;
        assert(s1.len() == s0.len());
        let name_at = offset + H::size();
        let mut units: Vec<u16> = Vec::new();
        let mut i: usize = 0;
        assert(storage@ =~= splice(s1, name_at as int, units_le(units@)));
        while i < name_len
            invariant
                name_len == name@.len(),
                i <= name_len,
                name_at == offset + H::spec_size(),
                name_at + (name_len + 1) * 2 <= storage@.len(),
                storage@.len() == s1.len(),
                s1.len() == s0.len(),
                s0 == old(storage)@,
                align_padding(storage_address as int, record_align::<H>() as int) <= s0.len(),
                offset == align_padding(storage_address as int, record_align::<H>() as int),
                usable == s0.len() - offset,
                info_size == record_size::<H>(name@.len()),
                info_size <= usable,
                storage@.len() <= usize::MAX,
                all_ucs2(name@.subrange(0, i as int)),
                units@ == ucs2_units(name@.subrange(0, i as int)),
                storage@ == splice(s1, name_at as int, units_le(units@)),
            decreases name_len - i,
        {
            let c = name.get_char(i);
            let code = c as u32;
            if code > 0xffff {
                proof {
                    assert(name@[i as int] == c && !is_ucs2(c) && all_ucs2(
                        name@.subrange(0, i as int),
                    ));
                }
                return Err(FileInfoCreationError::InvalidChar(c));
            }
            let unit = code as u16;
            put_u16(storage, name_at + 2 * i, unit);
            proof {
                lemma_splice_concat(s1, name_at as int, units_le(units@), u16_le(unit));
                lemma_units_le_push(units@, unit);
                assert(name@.subrange(0, i + 1) =~= name@.subrange(0, i as int).push(c));
            }
            units.push(unit);
            i = i + 1;
            proof {
                assert(units@ =~= ucs2_units(name@.subrange(0, i as int)));
            }
        }
        put_u16(storage, name_at + 2 * name_len, 0);
        proof {
            lemma_splice_concat(s1, name_at as int, units_le(units@), u16_le(0));
            lemma_units_le_push(units@, 0);
            assert(name@.subrange(0, name_len as int) =~= name@);
            lemma_splice_concat(s0, offset as int, header.spec_bytes(), units_le(units@.push(0)));
        }
        Ok(NamedFileProtocolInfo { header, name: units, start: offset })
    }

    /// Read the record whose header starts at `start` in `storage`: the name
    /// is scanned up to its first zero code unit, which must lie inside
    /// `storage`.
    pub fn from_uefi(storage: &[u8], start: usize) -> (r: Option<Self>)
        ensures
            view_outcome(storage@, start as int, r),
    {
        let len = storage.len();
        let size = H::size();
        if start > len || len - start < size {
            return None;
        }
        let p = start + size;
        let room = (len - p) / 2;
        let mut units: Vec<u16> = Vec::new();
        let mut k: usize = 0;
        while k < room
            invariant
                p == start + H::spec_size(),
                p <= len,
                len == storage@.len(),
                room == (len - p) / 2,
                k <= room,
                units@ == units_at(storage@, p as int, k as nat),
                forall|j: int| 0 <= j < k ==> #[trigger] unit_at(storage@, p as int, j) != 0,
            decreases room - k,
        {
            let u = get_u16(storage, p + 2 * k);
            if u == 0 {
                let header = H::read_from(storage, start);
                assert(terminator_at(storage@, p as int, k as int));
                return Some(NamedFileProtocolInfo { header, name: units, start });
            }
            units.push(u);
            k = k + 1;
            assert(units@ =~= units_at(storage@, p as int, k as nat));
        }
        assert forall|t: int| !#[trigger] terminator_at(storage@, p as int, t) by {
            if terminator_at(storage@, p as int, t) {
                assert(t < k) by (nonlinear_arith)
                    requires
                        p + 2 * t + 2 <= len,
                        room == (len - p) / 2,
                        k >= room,
                        p <= len,
                ;
            }
        }
        None
    }

    /// The record's header.
    pub fn header(&self) -> (r: &H)
        ensures
            *r == self.spec_header(),
    {
        &self.header
    }

    /// The code units of the record's name, without the terminator.
    pub fn name(&self) -> (r: &[u16])
        ensures
            r@ == self.spec_name(),
    {
        self.name.as_slice()
    }

    /// Offset of the record's first byte in its buffer.
    pub fn start(&self) -> (r: usize)
        ensures
            r == self.spec_start(),
    {
        self.start
    }

    /// Size of the record in bytes, terminator included.
    pub fn byte_len(&self) -> (r: usize)
        ensures
            r == record_size::<H>(self.spec_name().len()),
    {
        proof {
            use_type_invariant(self);
        }
        H::size() + (self.name.len() + 1) * 2
    }
}

} // verus!
