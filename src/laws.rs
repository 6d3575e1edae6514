//! Properties that relate building a record, reading it back and the size it
//! needs.
use vstd::prelude::*;
use crate::align::align_padding;
use crate::bytes::{splice, lemma_u16_at, u16_le};
use crate::header::InfoHeader;
use crate::record::{
    all_ucs2, build_outcome, first_invalid, is_ucs2, record_align, record_bytes, record_size,
    terminator_at, ucs2_units, unit_at, units_at, units_le, view_outcome, FileInfoCreationError,
    NamedFileProtocolInfo,
};

verus! {

/// Where record bytes stand in a buffer, the header reads back, and the name
/// ends at its own length and no earlier, with the same code units.
proof fn lemma_decode_record<H: InfoHeader>(b: Seq<u8>, start: int, h: H, name: Seq<u16>)
    requires
        0 <= start,
        start + record_size::<H>(name.len()) <= b.len(),
        b.subrange(start, start + record_size::<H>(name.len())) == record_bytes(h, name),
        forall|j: int| 0 <= j < name.len() ==> #[trigger] name[j] != 0,
    ensures
        H::spec_parse(b.subrange(start, start + H::spec_size())) == h,
        terminator_at(b, start + H::spec_size(), name.len() as int),
        units_at(b, start + H::spec_size(), name.len()) == name,
        forall|k: int|
            #[trigger] terminator_at(b, start + H::spec_size(), k) ==> k == name.len(),
{
    H::lemma_layout(h);
    let size = H::spec_size() as int;
    let p = start + size;
    let n = name.len() as int;
    let rb = record_bytes(h, name);
    let full = name.push(0u16);
    assert(b.subrange(start, p) =~= rb.subrange(0, size));
    assert(rb.subrange(0, size) =~= h.spec_bytes());
    assert forall|j: int| 0 <= j <= n implies #[trigger] unit_at(b, p, j) == full[j] by {
        assert(b[p + 2 * j] == rb[size + 2 * j]);
        assert(b[p + 2 * j + 1] == rb[size + 2 * j + 1]);
        assert(units_le(full)[2 * j] == full[j] as u8);
        assert(units_le(full)[2 * j + 1] == (full[j] >> 8u16) as u8);
        assert(b.subrange(p + 2 * j, p + 2 * j + 2) =~= u16_le(full[j]));
        lemma_u16_at(b, p + 2 * j, full[j]);
    }
    assert(unit_at(b, p, n) == 0);
    assert(units_at(b, p, name.len()) =~= name);
    assert forall|k: int| #[trigger] terminator_at(b, p, k) implies k == n by {
        if k < n {
            assert(unit_at(b, p, k) == name[k]);
        } else if k > n {
            assert(unit_at(b, p, n) != 0);
        }
    }
}

/// The record bytes written at `at` stand there in the spliced buffer.
proof fn lemma_splice_subrange(s: Seq<u8>, at: int, x: Seq<u8>)
    requires
        0 <= at,
        at + x.len() <= s.len(),
    ensures
        splice(s, at, x).subrange(at, at + x.len()) == x,
{
    assert(splice(s, at, x).subrange(at, at + x.len()) =~= x);
}

/// Reading a record back from the buffer it was just built in, at the place
/// where it was built, gives the header that was written and a name of the
/// same length and code units, provided the name holds no null character.
pub proof fn lemma_view_agrees_with_build<H: InfoHeader>(
    before: Seq<u8>,
    after: Seq<u8>,
    address: int,
    h: H,
    name: Seq<char>,
    built: NamedFileProtocolInfo<H>,
    viewed: Option<NamedFileProtocolInfo<H>>,
)
    requires
        build_outcome(before, after, address, h, name, Ok(built)),
        forall|i: int| 0 <= i < name.len() ==> #[trigger] (name[i] as u32) != 0,
        view_outcome(after, built.spec_start(), viewed),
    ensures
        viewed matches Some(v) && v.spec_name() == built.spec_name() && v.spec_header()
            == built.spec_header() && v.spec_start() == built.spec_start(),
{
    let start = built.spec_start();
    let units = built.spec_name();
    let rb = record_bytes(built.spec_header(), units);
    H::lemma_layout(built.spec_header());
    assert forall|j: int| 0 <= j < units.len() implies #[trigger] units[j] != 0 by {
        assert(units[j] == #[verifier::truncate] ((name[j] as u32) as u16));
        assert((name[j] as u32) != 0);
        assert(is_ucs2(name[j]));
    }
    assert(rb.len() == record_size::<H>(units.len()));
    lemma_splice_subrange(before, start, rb);
    lemma_decode_record(after, start, built.spec_header(), units);
}

/// Building a record into a large enough buffer and reading it back at the
/// place where it was built gives back the name and the header, the header's
/// size field now holding the record's size; the name must be UCS-2 and hold
/// no null character.
pub proof fn lemma_round_trip<H: InfoHeader>(
    before: Seq<u8>,
    after: Seq<u8>,
    address: int,
    h: H,
    name: Seq<char>,
    r: Result<NamedFileProtocolInfo<H>, FileInfoCreationError>,
    viewed: Option<NamedFileProtocolInfo<H>>,
)
    requires
        all_ucs2(name),
        forall|i: int| 0 <= i < name.len() ==> #[trigger] (name[i] as u32) != 0,
        align_padding(address, record_align::<H>() as int) + record_size::<H>(name.len())
            <= before.len(),
        build_outcome(before, after, address, h, name, r),
        view_outcome(after, align_padding(address, record_align::<H>() as int), viewed),
    ensures
        r is Ok,
        viewed matches Some(v) && v.spec_name() == ucs2_units(name) && v.spec_header()
            == h.spec_with_size(record_size::<H>(name.len()) as u64),
{
    match r {
        Ok(built) => {
            lemma_view_agrees_with_build(before, after, address, h, name, built, viewed);
        },
        Err(FileInfoCreationError::InsufficientStorage(n)) => {},
        Err(FileInfoCreationError::InvalidChar(c)) => {
            let i = choose|i: int|
                0 <= i < name.len() && #[trigger] name[i] == c && !is_ucs2(c) && all_ucs2(
                    name.subrange(0, i),
                );
            assert(is_ucs2(name[i]));
        },
    }
}

/// A build fails for want of room exactly when fewer bytes than the record's
/// size remain from the aligned start of the buffer, and then reports that
/// size; with exactly that many bytes a UCS-2 name is built.
pub proof fn lemma_minimum_size<H: InfoHeader>(
    before: Seq<u8>,
    after: Seq<u8>,
    address: int,
    h: H,
    name: Seq<char>,
    r: Result<NamedFileProtocolInfo<H>, FileInfoCreationError>,
)
    requires
        build_outcome(before, after, address, h, name, r),
    ensures
        ({
            let pad = align_padding(address, record_align::<H>() as int);
            let usable = if pad <= before.len() {
                before.len() - pad
            } else {
                0
            };
            let need = record_size::<H>(name.len());
            &&& (r matches Err(FileInfoCreationError::InsufficientStorage(_))) <==> usable < need
            &&& r matches Err(FileInfoCreationError::InsufficientStorage(n)) ==> n == need
            &&& usable == need && all_ucs2(name) ==> r is Ok
        }),
{
    match r {
        Err(FileInfoCreationError::InvalidChar(c)) => {
            let i = choose|i: int|
                0 <= i < name.len() && #[trigger] name[i] == c && !is_ucs2(c) && all_ucs2(
                    name.subrange(0, i),
                );
            assert(!is_ucs2(name[i]));
        },
        _ => {},
    }
}

/// A name with a character outside UCS-2 is never built: the build fails,
/// and where the buffer is large enough it fails on the first such character.
pub proof fn lemma_invalid_char_rejected<H: InfoHeader>(
    before: Seq<u8>,
    after: Seq<u8>,
    address: int,
    h: H,
    name: Seq<char>,
    r: Result<NamedFileProtocolInfo<H>, FileInfoCreationError>,
)
    requires
        !all_ucs2(name),
        build_outcome(before, after, address, h, name, r),
    ensures
        r is Err,
        r matches Err(FileInfoCreationError::InvalidChar(c)) ==> first_invalid(name, c),
        !(r matches Err(FileInfoCreationError::InsufficientStorage(_))) ==> r matches Err(
            FileInfoCreationError::InvalidChar(_),
        ),
{
}

} // verus!
