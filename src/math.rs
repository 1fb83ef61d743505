use vstd::prelude::*;

verus! {

/// Failures of an operation. Every one of them aborts the operation with no
/// state committed.
#[derive(Clone, Copy, Debug, PartialEq, Eq, Structural)]
pub enum AmmError {
    /// A multiplication or addition left the `u128` range.
    Overflow,
    /// A division by zero was asked for.
    DivisionByZero,
    /// The destination vault cannot pay out what the curve quotes.
    InsufficientLiquidity,
    /// The caller is not allowed to invoke this entry point.
    Unauthorized,
}

/// `10` raised to `d`.
pub open spec fn pow10(d: nat) -> nat
    decreases d,
{
    if d == 0 {
        1
    } else {
        10 * pow10((d - 1) as nat)
    }
}

/// Display units to base units: `amount * 10^decimals`, rejected when either
/// the factor or the product leaves `u128`.
pub open spec fn scale_spec(amount: u128, decimals: u8) -> Result<u128, AmmError> {
    if pow10(decimals as nat) > u128::MAX || amount * pow10(decimals as nat) > u128::MAX {
        Err(AmmError::Overflow)
    } else {
        Ok((amount * pow10(decimals as nat)) as u128)
    }
}

/// Base units to whole display units: `x / 10^decimals`, rejected when the
/// factor leaves `u128`.
pub open spec fn unscale_spec(x: u128, decimals: u8) -> Result<u128, AmmError> {
    if pow10(decimals as nat) > u128::MAX {
        Err(AmmError::Overflow)
    } else {
        Ok((x as nat / pow10(decimals as nat)) as u128)
    }
}

/// The product of the two vault balances, rejected when it leaves `u128`.
pub open spec fn invariant_spec(a: u128, b: u128) -> Result<u128, AmmError> {
    if a * b > u128::MAX {
        Err(AmmError::Overflow)
    } else {
        Ok((a * b) as u128)
    }
}

/// Every power of ten is positive.
pub proof fn lemma_pow10_positive(d: nat)
    ensures
        pow10(d) >= 1,
    decreases d,
{
    if d > 0 {
        lemma_pow10_positive((d - 1) as nat);
    }
}

/// `10^decimals`, or `None` when it does not fit in `u128`.
pub fn pow10_checked(decimals: u8) -> (r: Option<u128>)
    ensures
        r == (if pow10(decimals as nat) <= u128::MAX {
            Some(pow10(decimals as nat) as u128)
        } else {
            None::<u128>
        }),
{
    let mut f: u128 = 1;
    let mut i: u8 = 0;
    while i < decimals
        invariant
            i <= decimals,
            f as nat == pow10(i as nat),
        decreases decimals - i,
    {
        match f.checked_mul(10) {
            Some(g) => {
                f = g;
                i = i + 1;
            },
            None => {
                proof {
                    lemma_pow10_monotone(i as nat + 1, decimals as nat);
                }
                return None;
            },
        }
    }
    Some(f)
}

proof fn lemma_pow10_monotone(d: nat, e: nat)
    requires
        d <= e,
    ensures
        pow10(d) <= pow10(e),
    decreases e - d,
{
    if d < e {
        lemma_pow10_monotone(d, (e - 1) as nat);
        lemma_pow10_positive((e - 1) as nat);
    }
}

/// Converts `amount` display units of an asset with `decimals` decimals into
/// base units.
pub fn scale(amount: u128, decimals: u8) -> (r: Result<u128, AmmError>)
    ensures
        r == scale_spec(amount, decimals),
{
    match pow10_checked(decimals) {
        None => Err(AmmError::Overflow),
        Some(f) => match amount.checked_mul(f) {
            None => Err(AmmError::Overflow),
            Some(v) => Ok(v),
        },
    }
}

/// Converts base units into whole display units, dropping any remainder.
pub fn unscale(x: u128, decimals: u8) -> (r: Result<u128, AmmError>)
    ensures
        r == unscale_spec(x, decimals),
{
    match pow10_checked(decimals) {
        None => Err(AmmError::Overflow),
        Some(f) => {
            proof {
                lemma_pow10_positive(decimals as nat);
            }
            Ok(x / f)
        },
    }
}

/// The constant `K = a * b` of the curve.
pub fn compute_invariant(a: u128, b: u128) -> (r: Result<u128, AmmError>)
    ensures
        r == invariant_spec(a, b),
{
    match a.checked_mul(b) {
        None => Err(AmmError::Overflow),
        Some(k) => Ok(k),
    }
}

/// The amounts of one swap, all in base units, quoted from the vaults as they
/// stand before the first transfer.
#[derive(Clone, Copy, Debug, PartialEq, Eq, Structural)]
pub struct SwapQuote {
    /// What the trader pays into the source vault.
    pub in_amount: u128,
    /// The source vault once the swap settles.
    pub source_after: u128,
    /// The destination vault once the swap settles.
    pub dest_after: u128,
    /// What the destination vault pays out to the trader.
    pub out_amount: u128,
}

/// The quote for paying `amount` display units into the vault holding
/// `source` (with `decimals` decimals) against the vault holding `dest`,
/// on the curve `K = ratio`: the source vault grows by the scaled amount, the
/// destination vault becomes `ratio / source_after`, and the trader receives
/// the difference.
pub open spec fn quote_spec(source: u128, dest: u128, ratio: u128, decimals: u8, amount: u128) -> Result<SwapQuote, AmmError> {
    match scale_spec(amount, decimals) {
        Err(e) => Err(e),
        Ok(in_amount) => {
            if in_amount + source > u128::MAX {
                Err(AmmError::Overflow)
            } else if in_amount + source == 0 {
                Err(AmmError::DivisionByZero)
            } else {
                let source_after = (in_amount + source) as u128;
                let dest_after = (ratio as nat / source_after as nat) as u128;
                if dest_after > dest {
                    Err(AmmError::InsufficientLiquidity)
                } else {
                    Ok(SwapQuote {
                        in_amount,
                        source_after,
                        dest_after,
                        out_amount: (dest - dest_after) as u128,
                    })
                }
            }
        },
    }
}

/// Quotes a swap of `amount` display units from the `source` vault into the
/// `dest` vault on the curve `K = ratio`.
pub fn quote_swap(source: u128, dest: u128, ratio: u128, decimals: u8, amount: u128) -> (r: Result<SwapQuote, AmmError>)
    ensures
        r == quote_spec(source, dest, ratio, decimals, amount),
{
    let in_amount = match scale(amount, decimals) {
        Err(e) => return Err(e),
        Ok(v) => v,
    };
    let source_after = match in_amount.checked_add(source) {
        None => return Err(AmmError::Overflow),
        Some(v) => v,
    };
    let dest_after = match ratio.checked_div(source_after) {
        None => return Err(AmmError::DivisionByZero),
        Some(v) => v,
    };
    match dest.checked_sub(dest_after) {
        None => Err(AmmError::InsufficientLiquidity),
        Some(out_amount) => Ok(SwapQuote { in_amount, source_after, dest_after, out_amount }),
    }
}

} // verus!
