//! A token with a blocklist: an admin who may block and unblock accounts,
//! and transfers that neither end may take part in while blocked.
//!
//! The host authenticates callers: `from` authorizes a transfer, and the
//! admin-only entries take the authenticated caller and require it to be
//! the admin. Failure is an abort, not an error value, so the aborting
//! inputs (a second initialization, a blocked party, uncovered amounts,
//! out-of-range arithmetic) are excluded by preconditions.

use crate::table::Table;
use vstd::prelude::*;

verus! {

/// The blocklist token's state.
pub struct BlocklistToken {
    admin: Option<u64>,
    name: String,
    symbol: String,
    decimals: u32,
    total_supply: i128,
    balances: Table<i128>,
    blocklist: Table<bool>,
}

impl BlocklistToken {
    /// The admin, or `None` before initialization.
    pub closed spec fn spec_admin(&self) -> Option<u64> {
        self.admin
    }

    /// Whether `initialize` has run.
    pub open spec fn spec_initialized(&self) -> bool {
        self.spec_admin() is Some
    }

    /// The token name.
    pub closed spec fn spec_name(&self) -> Seq<char> {
        self.name@
    }

    /// The token symbol.
    pub closed spec fn spec_symbol(&self) -> Seq<char> {
        self.symbol@
    }

    /// The decimals.
    pub closed spec fn spec_decimals(&self) -> u32 {
        self.decimals
    }

    /// The total supply.
    pub closed spec fn spec_total_supply(&self) -> i128 {
        self.total_supply
    }

    /// The balance of `account`: zero when nothing was ever stored for it.
    pub closed spec fn spec_balance(&self, account: u64) -> i128 {
        match self.balances.spec_get(account) {
            Some(v) => v,
            None => 0,
        }
    }

    /// Whether `user` is blocked: unlisted accounts are not.
    pub closed spec fn spec_blocked(&self, user: u64) -> bool {
        match self.blocklist.spec_get(user) {
            Some(b) => b,
            None => false,
        }
    }

    /// The metadata is as in `pre`.
    pub open spec fn config_unchanged(&self, pre: BlocklistToken) -> bool {
        &&& self.spec_admin() == pre.spec_admin()
        &&& self.spec_name() == pre.spec_name()
        &&& self.spec_symbol() == pre.spec_symbol()
        &&& self.spec_decimals() == pre.spec_decimals()
        &&& self.spec_total_supply() == pre.spec_total_supply()
    }

    /// All balances are as in `pre`.
    pub open spec fn balances_unchanged(&self, pre: BlocklistToken) -> bool {
        forall|a: u64| #[trigger] self.spec_balance(a) == pre.spec_balance(a)
    }

    /// The blocklist is as in `pre`.
    pub open spec fn blocklist_unchanged(&self, pre: BlocklistToken) -> bool {
        forall|u: u64| #[trigger] self.spec_blocked(u) == pre.spec_blocked(u)
    }

    /// An uninitialized token.
    pub fn new() -> (t: BlocklistToken)
        ensures
            !t.spec_initialized(),
            forall|a: u64| #[trigger] t.spec_balance(a) == 0,
            forall|u: u64| !#[trigger] t.spec_blocked(u),
    {
        BlocklistToken {
            admin: None,
            name: String::new(),
            symbol: String::new(),
            decimals: 0,
            total_supply: 0,
            balances: Table::new(),
            blocklist: Table::new(),
        }
    }

    /// One-time setup: metadata, supply, and the admin holding the whole
    /// supply.
    pub fn initialize(
        &mut self,
        admin: u64,
        name: String,
        symbol: String,
        decimals: u32,
        total_supply: i128,
    )
        requires
            !old(self).spec_initialized(),
        ensures
            final(self).spec_admin() == Some(admin),
            final(self).spec_name() == name@,
            final(self).spec_symbol() == symbol@,
            final(self).spec_decimals() == decimals,
            final(self).spec_total_supply() == total_supply,
            final(self).spec_balance(admin) == total_supply,
            forall|a: u64|
                a != admin ==> #[trigger] final(self).spec_balance(a) == old(self).spec_balance(a),
            final(self).blocklist_unchanged(*old(self)),
    {
        self.admin = Some(admin);
        self.name = name;
        self.symbol = symbol;
        self.decimals = decimals;
        self.total_supply = total_supply;
        self.balances.set(admin, total_supply);
    }

    /// Whether `user` is blocked.
    pub fn blocked(&self, user: u64) -> (r: bool)
        ensures
            r == self.spec_blocked(user),
    {
        self.blocklist.get_or(user, false)
    }

    /// Blocks `user`; only the admin may.
    pub fn block_user(&mut self, caller: u64, user: u64)
        requires
            old(self).spec_admin() == Some(caller),
        ensures
            final(self).spec_blocked(user),
            forall|u: u64|
                u != user ==> #[trigger] final(self).spec_blocked(u) == old(self).spec_blocked(u),
            final(self).config_unchanged(*old(self)),
            final(self).balances_unchanged(*old(self)),
    {
        self.blocklist.set(user, true);
    }

    /// Unblocks `user`; only the admin may.
    pub fn unblock_user(&mut self, caller: u64, user: u64)
        requires
            old(self).spec_admin() == Some(caller),
        ensures
            !final(self).spec_blocked(user),
            forall|u: u64|
                u != user ==> #[trigger] final(self).spec_blocked(u) == old(self).spec_blocked(u),
            final(self).config_unchanged(*old(self)),
            final(self).balances_unchanged(*old(self)),
    {
        self.blocklist.set(user, false);
    }

    /// Moves `amount` from `from` (the authenticated caller) to `to`:
    /// neither end may be blocked, and `from` must cover it. When
    /// `from == to`, the credit is written last over the stale debit, so
    /// the balance rises by `amount`.
    pub fn transfer(&mut self, from: u64, to: u64, amount: i128)
        requires
            !old(self).spec_blocked(from),
            !old(self).spec_blocked(to),
            old(self).spec_balance(from) >= amount,
            old(self).spec_balance(from) - amount <= i128::MAX,
            i128::MIN <= old(self).spec_balance(to) + amount <= i128::MAX,
        ensures
            final(self).config_unchanged(*old(self)),
            final(self).blocklist_unchanged(*old(self)),
            final(self).spec_balance(to) == old(self).spec_balance(to) + amount,
            from != to ==> final(self).spec_balance(from) == old(self).spec_balance(from) - amount,
            forall|a: u64|
                a != from && a != to ==> #[trigger] final(self).spec_balance(a) == old(
                    self,
                ).spec_balance(a),
    {
        let from_balance = self.balances.get_or(from, 0);
        let to_balance = self.balances.get_or(to, 0);
        self.balances.set(from, from_balance - amount);
        self.balances.set(to, to_balance + amount);
    }

    /// The balance of `account`.
    pub fn balance(&self, account: u64) -> (r: i128)
        ensures
            r == self.spec_balance(account),
    {
        self.balances.get_or(account, 0)
    }

    /// The token name.
    pub fn name(&self) -> (r: String)
        requires
            self.spec_initialized(),
        ensures
            r@ == self.spec_name(),
    {
        self.name.clone()
    }

    /// The token symbol.
    pub fn symbol(&self) -> (r: String)
        requires
            self.spec_initialized(),
        ensures
            r@ == self.spec_symbol(),
    {
        self.symbol.clone()
    }

    /// The decimals.
    pub fn decimals(&self) -> (r: u32)
        requires
            self.spec_initialized(),
        ensures
            r == self.spec_decimals(),
    {
        self.decimals
    }

    /// The total supply.
    pub fn total_supply(&self) -> (r: i128)
        requires
            self.spec_initialized(),
        ensures
            r == self.spec_total_supply(),
    {
        self.total_supply
    }
}

} // verus!
