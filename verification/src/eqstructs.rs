//! Pinned wire-struct models and the narrow-bitfield sign extension.
use vstd::prelude::*;
use vstd::arithmetic::power2::pow2;

verus! {

/// The signed value of the low `bits` bits of `v`, read as two's complement.
pub open spec fn sign_extended(v: u32, bits: u32) -> int {
    let m = pow2(bits as nat) as int;
    let low = (v as int) % m;
    if low >= m / 2 { low - m } else { low }
}

/// Sign-extend the low `bits` of `v` into an `i32`.
pub fn sign_extend(v: u32, bits: u32) -> (r: i32)
    requires
        0 < bits <= 32,
    ensures
        r as int == sign_extended(v, bits),
{
    proof {
        vstd::bits::lemma_u64_pow2_no_overflow(bits as nat);
        vstd::bits::lemma_u64_shl_is_mul(1, bits as u64);
        vstd::arithmetic::power2::lemma_pow2_pos(bits as nat);
        vstd::arithmetic::power2::lemma2_to64();
        vstd::arithmetic::power2::lemma_pow2_unfold(bits as nat);
    }
    let m: u64 = 1u64 << (bits as u64);
    let low: u64 = (v as u64) % m;
    if low >= m / 2 {
        (low as i64 - m as i64) as i32
    } else {
        low as i32
    }
}

/// A sign-extended `bits`-bit field lies in `[-2^(bits-1), 2^(bits-1))` and
/// keeps a value below `2^(bits-1)` as it is.
pub proof fn law_sign_extended_range(v: u32, bits: u32)
    requires
        0 < bits <= 32,
    ensures
        -(pow2(bits as nat) as int) / 2 <= sign_extended(v, bits) < pow2(bits as nat) as int / 2,
        (v as int) < pow2(bits as nat) as int / 2 ==> sign_extended(v, bits) == v as int,
{
    vstd::arithmetic::power2::lemma_pow2_pos(bits as nat);
    vstd::arithmetic::power2::lemma_pow2_unfold(bits as nat);
    if (v as int) < pow2(bits as nat) as int / 2 {
        vstd::arithmetic::div_mod::lemma_small_mod(v as nat, pow2(bits as nat));
    }
}

} // verus!
