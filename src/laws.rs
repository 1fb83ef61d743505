use vstd::prelude::*;

use vstd::arithmetic::div_mod::{
    lemma_fundamental_div_mod, lemma_mod_pos_bound,
    lemma_multiply_divide_lt,
};

use crate::contract::Contract;
use crate::math::{invariant_spec, lemma_pow10_positive, pow10, quote_spec, scale_spec, unscale_spec};

verus! {

/// Scaling undoes unscaling: a base-unit amount that is a whole number of
/// display units, converted to display units and back, is unchanged. (An
/// amount with a fractional part loses it on the way.)
pub proof fn lemma_scale_unscale_round_trip(x: u128, decimals: u8)
    requires
        pow10(decimals as nat) <= u128::MAX,
        x as nat % pow10(decimals as nat) == 0,
    ensures
        unscale_spec(x, decimals) is Ok,
        scale_spec(unscale_spec(x, decimals)->Ok_0, decimals) == Ok::<u128, crate::math::AmmError>(x),
{
    let p = pow10(decimals as nat) as int;
    lemma_pow10_positive(decimals as nat);
    lemma_fundamental_div_mod(x as int, p);
    let u = x as int / p;
    assert(p * u == x as int);
    assert(u * p == x as int) by (nonlinear_arith)
        requires
            p * u == x as int,
    ;
}

/// A settled swap keeps the curve up to the truncation of the quotient: the
/// product of the settled vaults is at most `K`, short of it by less than
/// the settled source vault, and equal to it when the source vault divides
/// `K`. Settling those vaults therefore never overflows.
pub proof fn lemma_swap_keeps_invariant(source: u128, dest: u128, ratio: u128, decimals: u8, amount: u128)
    requires
        quote_spec(source, dest, ratio, decimals, amount) is Ok,
    ensures
        ({
            let q = quote_spec(source, dest, ratio, decimals, amount)->Ok_0;
            &&& q.source_after * q.dest_after <= ratio
            &&& ratio < q.source_after * q.dest_after + q.source_after
            &&& ratio as nat % q.source_after as nat == 0 ==> q.source_after * q.dest_after == ratio
            &&& invariant_spec(q.source_after, q.dest_after) == Ok::<u128, crate::math::AmmError>(
                (q.source_after * q.dest_after) as u128,
            )
            &&& invariant_spec(q.dest_after, q.source_after) == Ok::<u128, crate::math::AmmError>(
                (q.source_after * q.dest_after) as u128,
            )
        }),
{
    let q = quote_spec(source, dest, ratio, decimals, amount)->Ok_0;
    let s = q.source_after as int;
    let d = q.dest_after as int;
    let k = ratio as int;
    assert(s > 0);
    assert(d == k / s);
    lemma_fundamental_div_mod(k, s);
    lemma_mod_pos_bound(k, s);
    assert(s * d + k % s == k);
    assert(d * s == s * d) by (nonlinear_arith);
}

/// A swap that pays a positive amount in strictly grows the source vault and
/// strictly shrinks the destination vault, on a curve whose `K` is at most
/// the product of the vaults (the case of every well-formed pool) and whose
/// destination vault is not empty.
pub proof fn lemma_swap_monotone(source: u128, dest: u128, ratio: u128, decimals: u8, amount: u128)
    requires
        quote_spec(source, dest, ratio, decimals, amount) is Ok,
        quote_spec(source, dest, ratio, decimals, amount)->Ok_0.in_amount > 0,
        ratio <= source * dest,
        dest > 0,
    ensures
        ({
            let q = quote_spec(source, dest, ratio, decimals, amount)->Ok_0;
            &&& q.source_after > source
            &&& q.dest_after < dest
            &&& q.out_amount > 0
        }),
{
    let q = quote_spec(source, dest, ratio, decimals, amount)->Ok_0;
    let s = q.source_after as int;
    assert(s > source);
    assert(ratio < s * dest) by (nonlinear_arith)
        requires
            ratio <= source * dest,
            s > source,
            dest > 0,
    ;
    lemma_multiply_divide_lt(ratio as int, s, dest as int);
}

/// In a well-formed pool `K` never exceeds the product of the vaults, so
/// the monotonicity of swaps applies to both directions of every such pool.
pub proof fn lemma_wf_ratio_bounded(c: &Contract)
    requires
        c.wf(),
    ensures
        c@.ratio <= c@.a.vault * c@.b.vault,
        c@.ratio <= c@.b.vault * c@.a.vault,
{
    let a = c@.a.vault as int;
    let b = c@.b.vault as int;
    assert(0 <= a * b && a * b == b * a) by (nonlinear_arith)
        requires
            0 <= a,
            0 <= b,
    ;
}

} // verus!
