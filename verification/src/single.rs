//! Values of IEEE-754 singles carried as bit patterns: a non-negative finite
//! single is a whole significand times a power of two, so its value times
//! 2^150 is a whole number, and larger patterns stand for larger values.
use vstd::arithmetic::power2::{
    lemma_pow2_adds, lemma_pow2_pos, lemma_pow2_strictly_increases, pow2,
};
use vstd::prelude::*;

verus! {

/// Biased exponent field of a single whose sign bit is clear.
pub open spec fn single_exponent(bits: u32) -> nat {
    (bits / 0x80_0000) as nat
}

/// Significand of a non-negative finite single: the fraction field, with
/// the hidden bit for normal numbers.
pub open spec fn single_significand(bits: u32) -> nat {
    if single_exponent(bits) == 0 {
        (bits % 0x80_0000) as nat
    } else {
        (0x80_0000 + bits % 0x80_0000) as nat
    }
}

/// The value of a non-negative finite single times 2^150, a whole number:
/// the significand times two to the power of the exponent (subnormals
/// share the exponent of the smallest normals).
pub open spec fn single_scaled(bits: u32) -> nat {
    single_significand(bits) * pow2(
        if single_exponent(bits) == 0 {
            1
        } else {
            single_exponent(bits)
        },
    )
}

/// The value of the single `bits` lies between `lo_num / lo_den` and
/// `hi_num / hi_den`.
pub open spec fn value_within(bits: u32, lo_num: nat, lo_den: nat, hi_num: nat, hi_den: nat) -> bool {
    &&& single_scaled(bits) * lo_den >= lo_num * pow2(150)
    &&& single_scaled(bits) * hi_den <= hi_num * pow2(150)
}

/// Larger bit patterns of non-negative finite singles stand for larger
/// values.
pub proof fn lemma_single_value_increases(a: u32, b: u32)
    requires
        a < b < 0x7f80_0000,
    ensures
        single_scaled(a) < single_scaled(b),
{
    let ea = single_exponent(a);
    let eb = single_exponent(b);
    let fa = a % 0x80_0000;
    let fb = b % 0x80_0000;
    assert(a == ea * 0x80_0000 + fa);
    assert(b == eb * 0x80_0000 + fb);
    assert(ea <= eb);
    let sa: nat = if ea == 0 { 1 } else { ea };
    let sb: nat = if eb == 0 { 1 } else { eb };
    lemma_pow2_pos(sa);
    lemma_pow2_pos(sb);
    let pa = pow2(sa);
    let pb = pow2(sb);
    let ga = single_significand(a);
    let gb = single_significand(b);
    if ea == eb {
        assert(fa < fb);
        assert(ga < gb);
        assert(ga * pa < gb * pa) by (nonlinear_arith)
            requires
                ga < gb,
                pa > 0,
        ;
    } else {
        assert(eb >= 1);
        assert(gb >= 0x80_0000);
        if ea == 0 {
            assert(ga < 0x80_0000);
            assert(sa == 1 && sa <= sb);
            if sa < sb {
                lemma_pow2_strictly_increases(sa, sb);
            }
            assert(pa <= pb);
            assert(ga * pa < gb * pb) by (nonlinear_arith)
                requires
                    ga < 0x80_0000,
                    gb >= 0x80_0000,
                    0 < pa <= pb,
            ;
        } else {
            assert(ga < 0x100_0000);
            vstd::arithmetic::power2::lemma_pow2_unfold(sa + 1);
            if sa + 1 < sb {
                lemma_pow2_strictly_increases(sa + 1, sb);
            }
            let pa1 = pow2(sa + 1);
            assert(pa1 == 2 * pa);
            assert(pa1 <= pb);
            assert(ga * pa < gb * pb) by (nonlinear_arith)
                requires
                    ga < 0x100_0000,
                    gb >= 0x80_0000,
                    pa > 0,
                    2 * pa <= pb,
            ;
        }
    }
}

/// For a non-negative finite single and an exact upper bound `hi`:
/// `bits <= hi` exactly when its value is at most `p / q`.
pub proof fn lemma_single_at_most(bits: u32, hi: u32, p: nat, q: nat)
    requires
        bits < 0x7f80_0000,
        hi < 0x7f80_0000,
        q > 0,
        single_scaled(hi) * q == p * pow2(150),
    ensures
        (bits <= hi) == (single_scaled(bits) * q <= p * pow2(150)),
{
    let x = single_scaled(bits);
    let h = single_scaled(hi);
    if bits < hi {
        lemma_single_value_increases(bits, hi);
        assert(x * q <= h * q) by (nonlinear_arith)
            requires
                x < h,
                q > 0,
        ;
    } else if bits > hi {
        lemma_single_value_increases(hi, bits);
        assert(x * q > h * q) by (nonlinear_arith)
            requires
                x > h,
                q > 0,
        ;
    }
}

/// For a non-negative finite single and a lower bound `lo`, the least
/// single whose value is at least `p / q`: `lo <= bits` exactly when the
/// value of `bits` is at least `p / q`.
pub proof fn lemma_single_at_least(bits: u32, lo: u32, p: nat, q: nat)
    requires
        bits < 0x7f80_0000,
        0 < lo < 0x7f80_0000,
        q > 0,
        single_scaled(lo) * q >= p * pow2(150),
        single_scaled((lo - 1) as u32) * q < p * pow2(150),
    ensures
        (lo <= bits) == (single_scaled(bits) * q >= p * pow2(150)),
{
    let x = single_scaled(bits);
    let l = single_scaled(lo);
    let l1 = single_scaled((lo - 1) as u32);
    if bits > lo {
        lemma_single_value_increases(lo, bits);
        assert(x * q >= l * q) by (nonlinear_arith)
            requires
                x > l,
                q > 0,
        ;
    } else if bits < lo {
        if bits < lo - 1 {
            lemma_single_value_increases(bits, (lo - 1) as u32);
        }
        assert(x <= l1);
        assert(x * q <= l1 * q) by (nonlinear_arith)
            requires
                x <= l1,
                q > 0,
        ;
    }
}

/// Scaled value of a normal single against `p / q`, through the powers of
/// two that remain once its exponent is taken out of 2^150.
pub proof fn lemma_single_scaled_vs(bits: u32, p: nat, q: nat)
    requires
        bits < 0x7f80_0000,
        1 <= single_exponent(bits) <= 150,
    ensures
        (single_scaled(bits) * q == p * pow2(150)) == (single_significand(bits) * q == p * pow2(
            (150 - single_exponent(bits)) as nat,
        )),
        (single_scaled(bits) * q < p * pow2(150)) == (single_significand(bits) * q < p * pow2(
            (150 - single_exponent(bits)) as nat,
        )),
        (single_scaled(bits) * q >= p * pow2(150)) == (single_significand(bits) * q >= p * pow2(
            (150 - single_exponent(bits)) as nat,
        )),
{
    let e = single_exponent(bits);
    let r = (150 - e) as nat;
    lemma_pow2_adds(e, r);
    lemma_pow2_pos(e);
    let pe = pow2(e);
    let pr = pow2(r);
    let g = single_significand(bits);
    assert(pow2(150) == pe * pr);
    assert(single_scaled(bits) * q == (g * q) * pe) by (nonlinear_arith)
        requires
            single_scaled(bits) == g * pe,
    ;
    assert(p * pow2(150) == (p * pr) * pe) by (nonlinear_arith)
        requires
            pow2(150) == pe * pr,
    ;
    assert(((g * q) * pe == (p * pr) * pe) == (g * q == p * pr)) by (nonlinear_arith)
        requires
            pe > 0,
    ;
    assert(((g * q) * pe < (p * pr) * pe) == (g * q < p * pr)) by (nonlinear_arith)
        requires
            pe > 0,
    ;
    assert(((g * q) * pe >= (p * pr) * pe) == (g * q >= p * pr)) by (nonlinear_arith)
        requires
            pe > 0,
    ;
}

} // verus!
