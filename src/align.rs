//! Trimming the front of a buffer so that it starts at an aligned address.
use vstd::prelude::*;

verus! {

/// How many bytes must be skipped from `address` to reach the next multiple
/// of `align` (zero when `address` is already aligned).
pub open spec fn align_padding(address: int, align: int) -> int {
    (align - address % align) % align
}

/// Given a buffer of `len` bytes that starts at `address`, return the offset
/// and the length of its largest sub-buffer that starts at a multiple of
/// `align`. When the buffer is too short to reach an aligned address, the
/// empty buffer `(0, 0)` is returned.
pub fn realign(address: usize, len: usize, align: usize) -> (r: (usize, usize))
    requires
        align > 0,
    ensures
        len < align_padding(address as int, align as int) ==> r == (0usize, 0usize),
        len >= align_padding(address as int, align as int) ==> r == (
            align_padding(address as int, align as int) as usize,
            (len - align_padding(address as int, align as int)) as usize,
        ),
        r.1 == 0 || (address + r.0) % (align as int) == 0,
        r.0 + r.1 <= len,
        r.1 == 0 ==> len < align,
        r.1 > 0 ==> len - r.1 < align,
{
    let misalignment = address % align;
    let padding = (align - misalignment) % align;
    proof {
        let a = align as int;
        let x = address as int;
        let p = align_padding(x, a);
        assert(p == padding);
        assert((x + p) % a == 0) by (nonlinear_arith)
            requires
                a > 0,
                x >= 0,
                p == (a - x % a) % a,
        ;
    }
    if len < padding {
        (0, 0)
    } else {
        (padding, len - padding)
    }
}

} // verus!
