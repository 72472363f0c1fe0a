use vstd::prelude::*;

use crate::errors::GameError;

verus! {

/// Number of basis points in the whole: a rate of 10000 means 100%.
pub const FEE_BPS_DENOMINATOR: u64 = 10000;

/// The platform fee owed on `stake` at a rate of `fee_bps` basis points,
/// truncated toward zero. The product is taken over the unbounded integers,
/// so this names the mathematical fee even where it would not fit in the
/// native width.
pub open spec fn spec_compute_fee(stake: u64, fee_bps: u16) -> int {
    (stake * fee_bps) / (FEE_BPS_DENOMINATOR as int)
}

/// Computes the platform fee on `stake` at `fee_bps` basis points using
/// wide intermediate arithmetic, and fails with `MathOverflow` exactly when
/// the result does not fit back into the native width (possible only for a
/// rate above 10000 basis points).
pub fn compute_fee(stake: u64, fee_bps: u16) -> (r: Result<u64, GameError>)
    ensures
        spec_compute_fee(stake, fee_bps) <= u64::MAX ==> r == Ok::<u64, GameError>((spec_compute_fee(
            stake,
            fee_bps,
        )) as u64),
        spec_compute_fee(stake, fee_bps) > u64::MAX ==> r == Err::<u64, GameError>(
            GameError::MathOverflow,
        ),
        fee_bps <= 10000 ==> (r matches Ok(fee) && fee <= stake),
{
    proof {
        assert((stake as int) * (fee_bps as int) <= (u64::MAX as int) * (u16::MAX as int))
            by (nonlinear_arith)
            requires
                stake <= u64::MAX,
                fee_bps <= u16::MAX,
        ;
        if fee_bps <= 10000 {
            lemma_fee_within_stake(stake, fee_bps);
        }
    }
    let wide: u128 = (stake as u128) * (fee_bps as u128) / 10000;
    if wide > u64::MAX as u128 {
        Err(GameError::MathOverflow)
    } else {
        Ok(wide as u64)
    }
}

/// The fee never exceeds the stake it is charged on: for every stake and
/// every rate of at most 10000 basis points, the computed fee lies between
/// zero and the stake itself.
pub proof fn lemma_fee_within_stake(stake: u64, fee_bps: u16)
    requires
        fee_bps <= 10000,
    ensures
        0 <= spec_compute_fee(stake, fee_bps) <= stake,
{
    vstd::arithmetic::mul::lemma_mul_nonnegative(stake as int, fee_bps as int);
    vstd::arithmetic::div_mod::lemma_div_is_ordered(
        0,
        (stake as int) * (fee_bps as int),
        10000,
    );
    vstd::arithmetic::mul::lemma_mul_inequality(fee_bps as int, 10000, stake as int);
    assert((stake as int) * (fee_bps as int) == (fee_bps as int) * (stake as int))
        by (nonlinear_arith);
    vstd::arithmetic::div_mod::lemma_div_is_ordered(
        (stake as int) * (fee_bps as int),
        (stake as int) * 10000,
        10000,
    );
    vstd::arithmetic::div_mod::lemma_div_by_multiple(stake as int, 10000);
}

} // verus!
