use vstd::prelude::*;

verus! {

/// Relies on cosmwasm_std::Uint128::checked_add: the exact sum, or an overflow
/// error when the sum exceeds `u128::MAX`.
#[verifier::external_body]
pub(crate) fn checked_add_amount(a: u128, b: u128) -> (r: Option<u128>)
    ensures
        a + b <= u128::MAX ==> r == Some((a + b) as u128),
        a + b > u128::MAX ==> r is None,
{
    match cosmwasm_std::Uint128::new(a).checked_add(cosmwasm_std::Uint128::new(b)) {
        Ok(v) => Some(v.u128()),
        Err(_) => None,
    }
}

/// Relies on cosmwasm_std::Uint128::checked_sub: the exact difference, or an
/// overflow error when `b` exceeds `a`.
#[verifier::external_body]
pub(crate) fn checked_sub_amount(a: u128, b: u128) -> (r: Option<u128>)
    ensures
        b <= a ==> r == Some((a - b) as u128),
        b > a ==> r is None,
{
    match cosmwasm_std::Uint128::new(a).checked_sub(cosmwasm_std::Uint128::new(b)) {
        Ok(v) => Some(v.u128()),
        Err(_) => None,
    }
}

} // verus!
