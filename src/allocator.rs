use vstd::prelude::*;
use vstd::arithmetic::power2::pow2;
use vstd::bits::{lemma_u64_low_bits_mask_is_mod, low_bits_mask};
use vstd::arithmetic::power2::lemma_pow2_pos;

verus! {

/// The allocator that hands memory requests to the host. The host's
/// allocator aligns blocks to their (power of two) size class, so a request
/// is rounded up to a multiple of its alignment.
#[derive(Copy, Clone)]
pub struct ValkeyAlloc;

/// Whether `align` is a power of two.
pub open spec fn is_power_of_two(align: u64) -> bool {
    exists|k: nat| k < 64 && align == pow2(k)
}

impl ValkeyAlloc {
    /// The size requested from the host for `size` bytes aligned to
    /// `align`: the least multiple of `align` that is at least `size`.
    pub fn aligned_size(&self, size: u64, align: u64) -> (r: u64)
        requires
            is_power_of_two(align),
            size + align - 1 <= u64::MAX,
        ensures
            r % align == 0,
            size <= r,
            r < size + align,
    {
        proof {
            let k = choose|k: nat| k < 64 && align == pow2(k);
            lemma_pow2_pos(k);
        }
        let mask: u64 = align - 1;
        let sum: u64 = size + mask;
        let r = sum & !mask;
        assert(r & mask == 0) by (bit_vector)
            requires
                r == sum & !mask,
        ;
        assert(r <= sum && sum - r == sum & mask) by (bit_vector)
            requires
                r == sum & !mask,
        ;
        assert(sum & mask <= mask) by (bit_vector);
        proof {
            let k = choose|k: nat| k < 64 && align == pow2(k);
            lemma_u64_low_bits_mask_is_mod(r, k);
            assert(low_bits_mask(k) == mask);
        }
        r
    }
}

} // verus!
