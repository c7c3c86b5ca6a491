use vstd::prelude::*;
use crate::contract::{booked, withdrawn};
use crate::error::ContractError;

verus! {

/// The sum of `amounts`.
pub open spec fn total(amounts: Seq<u128>) -> int
    decreases amounts.len(),
{
    if amounts.len() == 0 {
        0
    } else {
        total(amounts.drop_last()) + amounts.last()
    }
}

/// The (amount, count) of a record after booking each of `amounts` in turn,
/// starting from no record (`Ok(None)` for no deposits), or the first error.
pub open spec fn booked_all(amounts: Seq<u128>) -> Result<Option<(int, int)>, ContractError>
    decreases amounts.len(),
{
    if amounts.len() == 0 {
        Ok(None)
    } else {
        match booked_all(amounts.drop_last()) {
            Ok(prev) => match booked(prev, amounts.last() as int) {
                Ok(m) => Ok(Some(m)),
                Err(e) => Err(e),
            },
            Err(e) => Err(e),
        }
    }
}

/// Deposits of `a_1, ..., a_n` booked one after another onto a fresh record
/// leave it holding `a_1 + ... + a_n` with a count of `n`, whenever that sum
/// fits the amount type and `n` fits the counter.
pub proof fn lemma_deposits_accumulate(amounts: Seq<u128>)
    requires
        amounts.len() >= 1,
        amounts.len() <= u64::MAX,
        total(amounts) <= u128::MAX,
    ensures
        booked_all(amounts) == Ok::<Option<(int, int)>, ContractError>(
            Some((total(amounts), amounts.len() as int)),
        ),
    decreases amounts.len(),
{
    if amounts.len() > 1 {
        let rest = amounts.drop_last();
        assert(total(rest) <= total(amounts));
        lemma_deposits_accumulate(rest);
    } else {
        let rest = amounts.drop_last();
        assert(total(rest) == 0);
        assert(booked_all(rest) == Ok::<Option<(int, int)>, ContractError>(None));
    }
}

/// Withdrawing `w` from a record holding `m` with a count of at least one
/// succeeds exactly when `w <= m`, and leaves `m - w` with the count one lower;
/// a larger `w` is refused for want of funds, and a missing record as such.
pub proof fn lemma_withdraw_law(m: u128, c: u64, w: u128)
    requires
        c >= 1,
    ensures
        w <= m ==> withdrawn(Some((m as int, c as int)), w as int) == Ok::<(int, int), ContractError>(
            (m - w, c - 1),
        ),
        w > m ==> withdrawn(Some((m as int, c as int)), w as int) == Err::<(int, int), ContractError>(
            ContractError::InsufficientFunds,
        ),
        withdrawn(None, w as int) == Err::<(int, int), ContractError>(ContractError::DepositNotFound),
{
}

} // verus!
