//! A token for trying the contract out: everybody starts with the same balance, and nothing is
//! refused.
use crate::address_map::AddressMap;
use crate::env::lookup;
use crate::values::Address;
use vstd::prelude::*;

verus! {

/// Balance of an address that was never part of a transfer.
pub const MOCK_TOKEN_DEFAULT_BALANCE: i128 = 100_000_000_000_000;

/// The token's ledger.
#[derive(Debug)]
pub struct DefaultMockToken {
    pub balances: AddressMap<i128>,
}

/// The balance of `addr` among `balances`.
pub open spec fn balance_of(balances: Map<Address, i128>, addr: Address) -> i128 {
    lookup(balances, addr, MOCK_TOKEN_DEFAULT_BALANCE)
}

impl DefaultMockToken {
    /// The token before any transfer.
    pub fn new() -> (r: DefaultMockToken)
        ensures
            r.balances@ == Map::<Address, i128>::empty(),
    {
        DefaultMockToken { balances: AddressMap::new() }
    }

    /// The balance of `addr`.
    pub fn balance(&self, addr: Address) -> (r: i128)
        ensures
            r == balance_of(self.balances@, addr),
    {
        self.balances.get(addr).unwrap_or(MOCK_TOKEN_DEFAULT_BALANCE)
    }

    /// Moves `amount` from `from` to `to`. Both balances are read before either is written, so a
    /// transfer to oneself adds the amount.
    pub fn transfer(&mut self, from: Address, to: Address, amount: i128)
        requires
            i128::MIN <= balance_of(old(self).balances@, from) - amount <= i128::MAX,
            i128::MIN <= balance_of(old(self).balances@, to) + amount <= i128::MAX,
        ensures
            final(self).balances@ == old(self).balances@.insert(
                from,
                (balance_of(old(self).balances@, from) - amount) as i128,
            ).insert(to, (balance_of(old(self).balances@, to) + amount) as i128),
    {
        let from_bal: i128 = self.balance(from);
        let to_bal: i128 = self.balance(to);
        self.balances.insert(from, from_bal - amount);
        self.balances.insert(to, to_bal + amount);
    }
}

} // verus!
