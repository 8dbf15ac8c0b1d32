//! A minimal token: an admin, balances, unchecked transfers.
//!
//! The token neither rejects re-initialization nor checks that a sender
//! can cover a transfer: balances may go negative, and the metadata handed
//! to `initialize` is assembled and dropped. Only the admin may mint; the
//! host authenticates `from` on transfers.

use crate::table::Table;
use vstd::prelude::*;

verus! {

/// Token metadata as `initialize` receives it.
pub struct TokenMetadata {
    pub decimal: u32,
    pub name: String,
    pub symbol: String,
}

/// The token's state.
pub struct TokenContract {
    admin: Option<u64>,
    balances: Table<i128>,
}

impl TokenContract {
    /// The admin, or `None` before initialization.
    pub closed spec fn spec_admin(&self) -> Option<u64> {
        self.admin
    }

    /// The balance of `id`: zero when nothing was ever stored for it.
    pub closed spec fn spec_balance(&self, id: u64) -> i128 {
        match self.balances.spec_get(id) {
            Some(v) => v,
            None => 0,
        }
    }

    /// A token with no admin and no balances.
    pub fn new() -> (t: TokenContract)
        ensures
            t.spec_admin() is None,
            forall|id: u64| #[trigger] t.spec_balance(id) == 0,
    {
        TokenContract { admin: None, balances: Table::new() }
    }

    /// Sets the admin. The metadata is assembled and discarded — this
    /// token keeps none — and a later call simply replaces the admin.
    pub fn initialize(&mut self, admin: u64, decimal: u32, name: String, symbol: String)
        ensures
            final(self).spec_admin() == Some(admin),
            forall|id: u64| #[trigger] final(self).spec_balance(id) == old(self).spec_balance(id),
    {
        let metadata = TokenMetadata { decimal, name, symbol };
        let _ = metadata;
        self.admin = Some(admin);
    }

    /// The balance of `id`.
    pub fn balance(&self, id: u64) -> (r: i128)
        ensures
            r == self.spec_balance(id),
    {
        self.balances.get_or(id, 0)
    }

    /// Moves `amount` from `from` to `to` — without any cover check, so a
    /// balance may go negative. `from` is the authenticated caller. When `from == to`, the credit is written last
    /// over the stale debit, so the balance rises by `amount`.
    pub fn transfer(&mut self, from: u64, to: u64, amount: i128)
        requires
            i128::MIN <= old(self).spec_balance(from) - amount <= i128::MAX,
            i128::MIN <= old(self).spec_balance(to) + amount <= i128::MAX,
        ensures
            final(self).spec_admin() == old(self).spec_admin(),
            final(self).spec_balance(to) == old(self).spec_balance(to) + amount,
            from != to ==> final(self).spec_balance(from) == old(self).spec_balance(from) - amount,
            forall|id: u64|
                id != from && id != to ==> #[trigger] final(self).spec_balance(id) == old(
                    self,
                ).spec_balance(id),
    {
        let from_balance = self.balances.get_or(from, 0);
        let to_balance = self.balances.get_or(to, 0);
        self.balances.set(from, from_balance - amount);
        self.balances.set(to, to_balance + amount);
    }

    /// Credits `amount` to `to`; only the admin may.
    pub fn mint(&mut self, caller: u64, to: u64, amount: i128)
        requires
            old(self).spec_admin() == Some(caller),
            i128::MIN <= old(self).spec_balance(to) + amount <= i128::MAX,
        ensures
            final(self).spec_admin() == old(self).spec_admin(),
            final(self).spec_balance(to) == old(self).spec_balance(to) + amount,
            forall|id: u64|
                id != to ==> #[trigger] final(self).spec_balance(id) == old(self).spec_balance(id),
    {
        let balance = self.balances.get_or(to, 0);
        self.balances.set(to, balance + amount);
    }
}

} // verus!
