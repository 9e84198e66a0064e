//! What the instructions read of the accounts handed to them.

use vstd::prelude::*;

use crate::pubkey::Pubkey;

verus! {

/// An account that is expected to sign the transaction.
#[derive(Clone, Copy, Debug, PartialEq, Eq)]
pub struct SignerInfo {
    pub key: Pubkey,
    pub is_signer: bool,
}

/// A token account: its address, the mint of its tokens, the owner who may
/// move them, and how many it holds.
#[derive(Clone, Copy, Debug, PartialEq, Eq)]
pub struct TokenAccountInfo {
    pub key: Pubkey,
    pub mint: Pubkey,
    pub owner: Pubkey,
    pub amount: u64,
}

/// `account` holds tokens of `mint` for `owner`.
pub open spec fn is_token_account_of(account: TokenAccountInfo, mint: Pubkey, owner: Pubkey) -> bool {
    account.mint == mint && account.owner == owner
}

/// `account` is an account of `owner` for tokens of `mint`.
pub fn token_account_of(account: &TokenAccountInfo, mint: &Pubkey, owner: &Pubkey) -> (b: bool)
    ensures
        b == is_token_account_of(*account, *mint, *owner),
{
    account.mint.equals(mint) && account.owner.equals(owner)
}

/// An account: its address and the lamports it holds.
#[derive(Clone, Copy, Debug, PartialEq, Eq)]
pub struct LamportAccount {
    pub key: Pubkey,
    pub lamports: u64,
}

} // verus!
