//! The integer layout of the spectral analysis pipeline.
//!
//! The analyzer turns one frame into a fixed number of transform bins:
//! long frames are decimated by averaging contiguous chunks, short frames
//! are zero padded. Which samples feed which bin is pure integer
//! arithmetic and is decided and proved here; the windowing and the
//! transform itself are floating point and run outside the verified
//! library, over this layout.

use vstd::prelude::*;

verus! {

/// The transform length the analyzer is sized for unless a caller picks
/// another capacity.
pub const DEFAULT_TRANSFORM_CAPACITY: usize = 16384;

/// Samples averaged into one transform bin when a frame of `len` samples is
/// folded down to `size` bins.
pub open spec fn spec_chunk(len: int, size: int) -> int {
    len / size
}

/// The half-open range of frame positions one transform input bin draws on.
///
/// A frame longer than the transform is decimated: bin `i` averages the
/// contiguous chunk `[i*c, i*c + c)` with `c = len / size`, which prevents
/// the aliasing a strided pick would cause. A frame no longer than the
/// transform maps sample `i` to bin `i`; bins past the frame's end are empty
/// and stay zero (zero padding).
pub open spec fn spec_bin_range(len: int, size: int, i: int) -> (int, int) {
    if len > size {
        (i * spec_chunk(len, size), i * spec_chunk(len, size) + spec_chunk(len, size))
    } else if i < len {
        (i, i + 1)
    } else {
        (len, len)
    }
}

/// Samples averaged into one bin; zero only when the frame itself is empty.
pub fn chunk_size(len: usize, size: usize) -> (r: usize)
    requires
        1 <= size,
    ensures
        r == spec_chunk(len as int, size as int),
{
    len / size
}

/// The full downsampling layout for one `process` call: for each of the
/// `size` transform input bins, the range of frame positions whose windowed
/// samples are averaged into it. Every range lies inside the frame, so the
/// caller's averaging loop can never read past the end.
pub fn bin_ranges(len: usize, size: usize) -> (r: Vec<(usize, usize)>)
    requires
        1 <= size,
    ensures
        r@.len() == size as int,
        forall|i: int|
            0 <= i < size as int ==> {
                &&& (#[trigger] r@[i]).0 == spec_bin_range(len as int, size as int, i).0
                &&& r@[i].1 == spec_bin_range(len as int, size as int, i).1
                &&& r@[i].0 <= r@[i].1 <= len
            },
{
    let mut out: Vec<(usize, usize)> = Vec::new();
    if len > size {
        let c = len / size;
        proof {
            vstd::arithmetic::div_mod::lemma_fundamental_div_mod(len as int, size as int);
            vstd::arithmetic::div_mod::lemma_mod_bound(len as int, size as int);
        }
        assert(size as int * c as int <= len as int);
        let mut i: usize = 0;
        while i < size
            invariant
                1 <= size < len,
                c == spec_chunk(len as int, size as int),
                size as int * c as int <= len as int,
                i <= size,
                out@.len() == i as int,
                forall|k: int|
                    0 <= k < i as int ==> {
                        &&& (#[trigger] out@[k]).0 == spec_bin_range(len as int, size as int, k).0
                        &&& out@[k].1 == spec_bin_range(len as int, size as int, k).1
                        &&& out@[k].0 <= out@[k].1 <= len
                    },
            decreases size - i,
        {
            proof {
                vstd::arithmetic::mul::lemma_mul_inequality(
                    i as int + 1,
                    size as int,
                    c as int,
                );
                vstd::arithmetic::mul::lemma_mul_is_distributive_add_other_way(
                    c as int,
                    i as int,
                    1,
                );
            }
            assert((i as int + 1) * c as int <= len as int);
            let start = i * c;
            out.push((start, start + c));
            i += 1;
        }
        out
    } else {
        let mut i: usize = 0;
        while i < size
            invariant
                len <= size,
                i <= size,
                out@.len() == i as int,
                forall|k: int|
                    0 <= k < i as int ==> {
                        &&& (#[trigger] out@[k]).0 == spec_bin_range(len as int, size as int, k).0
                        &&& out@[k].1 == spec_bin_range(len as int, size as int, k).1
                        &&& out@[k].0 <= out@[k].1 <= len
                    },
            decreases size - i,
        {
            if i < len {
                out.push((i, i + 1));
            } else {
                out.push((len, len));
            }
            i += 1;
        }
        out
    }
}

} // verus!
