//! Voting weight: a voter's share of the token supply, in percent.

use vstd::prelude::*;

verus! {

/// The weight of a balance against a total supply: the percentage of the
/// supply that the balance makes up, rounded down. A supply of zero gives
/// every balance the weight zero.
pub open spec fn weight_of(balance: u64, total_supply: u64) -> int {
    if total_supply == 0 {
        0
    } else {
        (balance * 100) / (total_supply as int)
    }
}

/// Computes the voting weight of `balance` against `total_supply`.
pub fn voting_weight(balance: u64, total_supply: u64) -> (weight: u128)
    ensures
        weight == weight_of(balance, total_supply),
{
    if total_supply == 0 {
        0
    } else {
        let scaled: u128 = (balance as u128) * 100;
        let weight: u128 = scaled / (total_supply as u128);
        weight
    }
}

/// A weight is never negative and never more than a hundred times the
/// balance; a balance within the supply weighs at most one hundred, and the
/// whole of a positive supply weighs exactly one hundred.
pub proof fn lemma_weight_bounds(balance: u64, total_supply: u64)
    ensures
        0 <= weight_of(balance, total_supply) <= balance * 100,
        balance <= total_supply ==> weight_of(balance, total_supply) <= 100,
        balance == total_supply && total_supply > 0 ==> weight_of(balance, total_supply) == 100,
{
    if total_supply > 0 {
        let scaled: int = balance * 100;
        let supply: int = total_supply as int;
        assert(0 <= scaled / supply <= scaled) by (nonlinear_arith)
            requires
                scaled >= 0,
                supply > 0,
        ;
        if balance <= total_supply {
            assert(scaled / supply <= 100) by (nonlinear_arith)
                requires
                    0 <= scaled <= 100 * supply,
                    supply > 0,
            ;
        }
        if balance == total_supply {
            assert((supply * 100) / supply == 100) by (nonlinear_arith)
                requires
                    supply > 0,
            ;
        }
    }
}

} // verus!
