//! Account identifiers and token amounts.

use vstd::prelude::*;

verus! {

/// An amount of tokens.
pub type Balance = u128;

/// The identifier of an account: 32 bytes without further structure.
#[derive(Clone, Copy, Debug, PartialEq, Eq, PartialOrd, Ord, Hash)]
pub struct AccountId(pub [u8; 32]);

impl AccountId {
    /// The account whose bytes are all zero, which stands where no account was recorded.
    pub open spec fn spec_zero() -> AccountId {
        AccountId(vstd::array::spec_array_fill_for_copy_type::<u8, 32>(0u8))
    }

    /// Returns the account whose bytes are all zero.
    pub fn zero() -> (account: AccountId)
        ensures
            account == AccountId::spec_zero(),
            forall|i: int| 0 <= i < 32 ==> account.0[i] == 0,
    {
        AccountId([0u8; 32])
    }
}

impl Default for AccountId {
    fn default() -> (account: AccountId)
        ensures
            account == AccountId::spec_zero(),
    {
        AccountId::zero()
    }
}

} // verus!
