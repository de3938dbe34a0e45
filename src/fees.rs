use vstd::prelude::*;

verus! {

/// Basis points in one whole: a rate of this many points takes the full amount.
pub const BPS_DENOMINATOR: u16 = 10000;

/// The protocol fee taken from a settled `amount` at `fee_bps` basis points,
/// truncated toward zero.
pub open spec fn fee_of(amount: u64, fee_bps: u16) -> nat {
    (amount as nat * fee_bps as nat / 10000) as nat
}

/// Splits `amount` into `(fee, payout)` at a rate of `fee_bps` basis points.
pub fn split_fee(amount: u64, fee_bps: u16) -> (r: (u64, u64))
    requires
        fee_bps <= BPS_DENOMINATOR,
    ensures
        r.0 as nat == fee_of(amount, fee_bps),
        r.0 <= amount,
        r.0 as nat + r.1 as nat == amount as nat,
{
    proof {
        assert(amount as nat * fee_bps as nat <= amount as nat * 10000) by (nonlinear_arith)
            requires fee_bps <= 10000;
        assert(amount as nat * 10000 <= u64::MAX as nat * 10000) by (nonlinear_arith);
    }
    let product: u128 = (amount as u128) * (fee_bps as u128);
    let fee128: u128 = product / 10000;
    proof {
        assert(fee128 <= amount) by (nonlinear_arith)
            requires fee128 == product / 10000, product <= amount as nat * 10000;
    }
    let fee: u64 = fee128 as u64;
    (fee, amount - fee)
}

} // verus!
