//! Bit primitives: the lowest-set-bit computation that all index navigation
//! rests on, and a binary-search integer base-two logarithm.

use vstd::prelude::*;
use vstd::arithmetic::power2::{pow2, lemma2_to64, lemma_pow2_pos, lemma_pow2_unfold};
use vstd::arithmetic::div_mod::{lemma_div_by_multiple, lemma_div_non_zero, lemma_fundamental_div_mod, lemma_mod_multiples_basic};
use vstd::bits::lemma_usize_shr_is_div;
use vstd::layout::unsigned_int_max_values;

verus! {

/// Half the width of a machine word, the starting point of the binary
/// search for a base-two logarithm.
pub const USIZE_MIDPOINT: usize = (usize::BITS >> 1) as usize;

/// Value of the lowest set bit of `i`: the largest power of two dividing `i`,
/// and the size of the span of responsibility of slot `i`. By convention
/// `lowest_bit(0) == 0`: index zero has no position in the tree.
pub open spec fn lowest_bit(i: usize) -> usize
    decreases i,
{
    if i == 0 {
        0
    } else if i % 2 == 1 {
        1
    } else {
        (2 * lowest_bit(i / 2)) as usize
    }
}

/// Computes the lowest set bit of `i` by the two's-complement identity
/// `i & -i`; on unsigned words the negation `-i` is written `!(i - 1)`.
///
/// Index zero has no lowest set bit in this domain and is excluded.
pub fn lsb(i: usize) -> (r: usize)
    requires
        i > 0,
    ensures
        r == lowest_bit(i),
{
    proof {
        lemma_lowest_bit_word(i);
    }
    i & !(i - 1)
}

/// The lowest set bit of a positive integer is positive and never exceeds
/// the integer itself.
pub proof fn lemma_lowest_bit_le(i: usize)
    ensures
        lowest_bit(i) <= i,
        i > 0 ==> lowest_bit(i) >= 1,
    decreases i,
{
    if i > 0 && i % 2 == 0 {
        lemma_lowest_bit_le(i / 2);
    }
}

/// Floor of the base-two logarithm of `*length`, found by binary search on
/// the shift amount: the result `r` is the unique shift with
/// `*length >> r == 1`, so `pow2(r) <= *length < pow2(r + 1)`. Lengths
/// below two have no such shift and the search bottoms out at one.
pub fn log2_bin(length: &usize) -> (r: usize)
    ensures
        *length >= 2 ==> (*length >> r) == 1,
        *length >= 2 ==> pow2(r as nat) <= *length < pow2((r + 1) as nat),
        *length <= 1 ==> r == 1,
{
    let mut mid: usize = USIZE_MIDPOINT;
    let mut cur: usize = USIZE_MIDPOINT;
    let ghost mut exp: nat = if usize::BITS == 32 {
        4nat
    } else {
        5nat
    };

    proof {
        unsigned_int_max_values();
        lemma2_to64();
        assert(32u32 >> 1 == 16u32) by (bit_vector);
        assert(64u32 >> 1 == 32u32) by (bit_vector);
    }

    while mid > 1
        invariant
            mid == pow2(exp),
            1 <= mid <= cur,
            cur + mid <= usize::BITS,
            (*length as nat) < pow2((cur + mid) as nat),
            cur == mid || (*length as nat) >= 2 * pow2((cur - mid) as nat),
        ensures
            1 <= mid <= cur,
            cur + mid <= usize::BITS,
            (*length as nat) < pow2((cur + mid) as nat),
            cur == mid || (*length as nat) >= 2 * pow2((cur - mid) as nat),
            mid == 1 || (*length as nat) / pow2(cur as nat) == 1,
        decreases mid,
    {
        let shifted = *length >> cur;
        proof {
            lemma_usize_shr_is_div(*length, cur);
            lemma_pow2_pos(cur as nat);
            lemma2_to64();
            assert(exp > 0);
            lemma_pow2_unfold(exp);
            assert(mid >> 1usize == mid / 2) by (bit_vector);
        }
        if shifted == 1 {
            break ;
        } else if shifted == 0 {
            proof {
                if *length >= pow2(cur as nat) {
                    lemma_div_non_zero(*length as int, pow2(cur as nat) as int);
                }
                exp = (exp - 1) as nat;
            }
            mid >>= 1;
            cur -= mid;
        } else {
            proof {
                lemma_fundamental_div_mod(*length as int, pow2(cur as nat) as int);
                assert((*length as nat) >= 2 * pow2(cur as nat)) by (nonlinear_arith)
                    requires
                        *length as int == pow2(cur as nat) * ((*length as int) / (pow2(
                            cur as nat,
                        ) as int)) + (*length as int) % (pow2(cur as nat) as int),
                        (*length as int) / (pow2(cur as nat) as int) >= 2,
                        (*length as int) % (pow2(cur as nat) as int) >= 0,
                        pow2(cur as nat) > 0,
                ;
                exp = (exp - 1) as nat;
            }
            mid >>= 1;
            cur += mid;
        }
    }

    proof {
        lemma_pow2_pos(cur as nat);
        lemma_pow2_unfold((cur + 1) as nat);
        if *length <= 1 {
            // A quotient of one would need `pow2(cur) <= *length`, which is
            // impossible below two; so the search never broke out, `mid`
            // fell to one, and the lower-bound invariant forces `cur` down
            // to one with it.
            if (*length as nat) / pow2(cur as nat) == 1 {
                lemma_pow2_unfold(cur as nat);
                lemma_pow2_pos((cur - 1) as nat);
                vstd::arithmetic::div_mod::lemma_basic_div(*length as int, pow2(cur as nat) as int);
            }
            if cur != mid {
                lemma_pow2_pos((cur - mid) as nat);
            }
        } else {
            if (*length as nat) / pow2(cur as nat) != 1 {
                // The loop ended with `mid == 1`; the window invariants pin
                // `*length` between `pow2(cur)` and `pow2(cur + 1)`.
                lemma_pow2_unfold(cur as nat);
                lemma_pow2_unfold(1);
                assert((*length as nat) / pow2(cur as nat) == 1) by (nonlinear_arith)
                    requires
                        pow2(cur as nat) <= (*length as nat),
                        (*length as nat) < 2 * pow2(cur as nat),
                        pow2(cur as nat) > 0,
                ;
            }
            lemma_usize_shr_is_div(*length, cur);
            lemma_fundamental_div_mod(*length as int, pow2(cur as nat) as int);
        }
    }
    cur
}

/// The exponent of the lowest set bit of `i`: the number of trailing zero
/// bits, so that `lowest_bit(i) == pow2(lowest_bit_exp(i))` for positive `i`.
pub open spec fn lowest_bit_exp(i: usize) -> nat
    decreases i,
{
    if i == 0 {
        0
    } else if i % 2 == 1 {
        0
    } else {
        1 + lowest_bit_exp(i / 2)
    }
}

/// The lowest set bit of a positive integer is the largest power of two
/// dividing it: it is itself a power of two, it divides `i` with an odd
/// quotient, and every power of two dividing `i` is no larger.
pub proof fn lemma_lowest_bit_largest_pow2_divisor(i: usize)
    requires
        i > 0,
    ensures
        lowest_bit(i) == pow2(lowest_bit_exp(i)),
        (i as nat) % (lowest_bit(i) as nat) == 0,
        ((i as nat) / (lowest_bit(i) as nat)) % 2 == 1,
        forall|e: nat| (i as nat) % pow2(e) == 0 ==> pow2(e) <= lowest_bit(i),
{
    lemma_lowest_bit_pow2(i);
    lemma_lowest_bit_divides(i);
    assert forall|e: nat| (i as nat) % pow2(e) == 0 implies pow2(e) <= lowest_bit(i) by {
        lemma_pow2_divisor_le(i, e);
    }
}

/// `lowest_bit` is the power of two whose exponent counts the trailing
/// zero bits.
proof fn lemma_lowest_bit_pow2(i: usize)
    requires
        i > 0,
    ensures
        lowest_bit(i) == pow2(lowest_bit_exp(i)),
    decreases i,
{
    if i % 2 == 1 {
        lemma2_to64();
    } else {
        lemma_lowest_bit_pow2(i / 2);
        lemma_lowest_bit_le((i / 2) as usize);
        lemma_pow2_unfold(lowest_bit_exp(i));
    }
}

/// `lowest_bit(i)` divides `i`, and the quotient is odd.
proof fn lemma_lowest_bit_divides(i: usize)
    requires
        i > 0,
    ensures
        (i as nat) % (lowest_bit(i) as nat) == 0,
        ((i as nat) / (lowest_bit(i) as nat)) % 2 == 1,
    decreases i,
{
    if i % 2 == 1 {
        assert((i as nat) % 1 == 0);
        assert((i as nat) / 1 == i as nat);
    } else {
        let j = (i / 2) as nat;
        let lj = lowest_bit((i / 2) as usize) as nat;
        lemma_lowest_bit_divides((i / 2) as usize);
        lemma_lowest_bit_le((i / 2) as usize);
        let q = j / lj;
        lemma_fundamental_div_mod(j as int, lj as int);
        assert(i as nat == (2 * lj) * q) by (nonlinear_arith)
            requires
                j == lj * q + (j as int % lj as int),
                (j as int % lj as int) == 0,
                i as nat == 2 * j,
        ;
        lemma_mod_multiples_basic(q as int, 2 * lj as int);
        lemma_div_by_multiple(q as int, 2 * lj as int);
        assert(((2 * lj) * q) as int == (q as int) * (2 * lj as int)) by (nonlinear_arith);
    }
}

/// Any power of two that divides `i` is at most `lowest_bit(i)`.
proof fn lemma_pow2_divisor_le(i: usize, e: nat)
    requires
        i > 0,
        (i as nat) % pow2(e) == 0,
    ensures
        pow2(e) <= lowest_bit(i),
    decreases i,
{
    lemma_lowest_bit_le(i);
    if e == 0 {
        lemma2_to64();
    } else {
        lemma_pow2_unfold(e);
        lemma_pow2_pos((e - 1) as nat);
        let k = (i as nat) / pow2(e);
        lemma_fundamental_div_mod(i as int, pow2(e) as int);
        assert(i as nat == 2 * (pow2((e - 1) as nat) * k)) by (nonlinear_arith)
            requires
                i as int == pow2(e) * (k as int) + ((i as nat) as int % pow2(e) as int),
                ((i as nat) as int % pow2(e) as int) == 0,
                pow2(e) == 2 * pow2((e - 1) as nat),
        ;
        let m = pow2((e - 1) as nat) * k;
        lemma_mod_multiples_basic(m as int, 2);
        if i % 2 == 1 {
            // An even multiple cannot be odd.
            assert(false);
        } else {
            let j = (i / 2) as usize;
            lemma_div_by_multiple(m as int, 2);
            assert(j as nat == m);
            lemma_mod_multiples_basic(k as int, pow2((e - 1) as nat) as int);
            assert((m as int) == (k as int) * (pow2((e - 1) as nat) as int)) by (nonlinear_arith)
                requires
                    m == pow2((e - 1) as nat) * k,
            ;
            lemma_pow2_divisor_le(j, (e - 1) as nat);
            lemma_lowest_bit_le(j);
        }
    }
}

/// `lowest_bit` agrees with the machine-word formula `i & !(i - 1)`.
pub(crate) proof fn lemma_lowest_bit_word(i: usize)
    requires
        i > 0,
    ensures
        lowest_bit(i) == i & !((i - 1) as usize),
    decreases i,
{
    if i % 2 == 1 {
        assert(i & !((i - 1) as usize) == 1) by (bit_vector)
            requires
                i % 2 == 1,
        ;
    } else {
        let j = i / 2;
        lemma_lowest_bit_word(j);
        assert(i & !((i - 1) as usize) == (2 * (j & !((j - 1) as usize))) as usize)
            by (bit_vector)
            requires
                i % 2 == 0 && i > 0 && j == i / 2,
        ;
        lemma_lowest_bit_le(j);
    }
}

} // verus!
