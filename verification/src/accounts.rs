//! What the operations read of the ledger's accounts, as plain values.

use vstd::prelude::*;
use crate::pubkey::Pubkey;

verus! {

/// A token's mint: its identity and the number of decimal places of its
/// amounts.
#[derive(Clone, Copy, Debug, PartialEq, Eq)]
pub struct Mint {
    pub key: Pubkey,
    pub decimals: u8,
}

/// An account that holds the native asset only.
#[derive(Clone, Copy, Debug, PartialEq, Eq)]
pub struct SystemAccount {
    pub key: Pubkey,
    pub lamports: u64,
}

/// An account that holds tokens of one mint.
#[derive(Clone, Copy, Debug, PartialEq, Eq)]
pub struct TokenAccount {
    /// The tokens held.
    pub amount: u64,
    /// The native units deposited with the account; they are handed out when
    /// the account is closed.
    pub lamports: u64,
}

/// The part of a native balance that lies above the rent-exempt minimum:
/// what may leave the account while it stays valid.
pub open spec fn spendable(balance: u64, rent_exempt_minimum: u64) -> u64 {
    if balance > rent_exempt_minimum {
        (balance - rent_exempt_minimum) as u64
    } else {
        0
    }
}

/// Computes the part of `balance` above `rent_exempt_minimum`.
pub fn spendable_lamports(balance: u64, rent_exempt_minimum: u64) -> (available: u64)
    ensures
        available == spendable(balance, rent_exempt_minimum),
{
    if balance > rent_exempt_minimum {
        balance - rent_exempt_minimum
    } else {
        0
    }
}

/// Taking the spendable part out of a balance at or above the minimum leaves
/// exactly the minimum; a balance at or below it has nothing spendable.
pub proof fn lemma_spendable_keeps_minimum(balance: u64, rent_exempt_minimum: u64)
    ensures
        spendable(balance, rent_exempt_minimum) <= balance,
        balance >= rent_exempt_minimum ==> balance - spendable(balance, rent_exempt_minimum)
            == rent_exempt_minimum,
        balance >= rent_exempt_minimum ==> spendable(balance, rent_exempt_minimum) == balance
            - rent_exempt_minimum,
        balance <= rent_exempt_minimum ==> spendable(balance, rent_exempt_minimum) == 0,
        balance < rent_exempt_minimum ==> balance - spendable(balance, rent_exempt_minimum)
            == balance,
{
}

} // verus!
