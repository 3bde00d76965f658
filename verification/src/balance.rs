use vstd::prelude::*;

verus! {

/// The free balance that every funded benchmark account is given.
pub const INITIAL_BALANCE: u64 = 1000000;

/// The free balance that every funded benchmark account is given.
pub fn initial_balance() -> (balance: u64)
    ensures
        balance == INITIAL_BALANCE,
{
    INITIAL_BALANCE
}

/// The council budget needed to create a bounty with creator cherry `cherry`
/// and to fund it at once up to its maximal amount `max_amount`.
pub fn funded_bounty_budget(cherry: u64, max_amount: u64) -> (budget: u64)
    requires
        cherry + max_amount <= u64::MAX,
    ensures
        budget == cherry + max_amount,
{
    cherry + max_amount
}

} // verus!
