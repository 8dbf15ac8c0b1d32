//! A pausable token: an admin who may halt and resume transfers, balances
//! with a cover check, and an admin-only burn.
//!
//! The host authenticates callers: `from` authorizes a transfer, and the
//! admin-only entries take the authenticated caller and require it to be
//! the admin. Failure is an abort, not an error value, so the aborting
//! inputs (a second initialization, paused transfers, uncovered amounts,
//! out-of-range arithmetic) are excluded by preconditions.

use crate::table::Table;
use vstd::prelude::*;

verus! {

/// The pausable token's state.
pub struct PausableToken {
    admin: Option<u64>,
    name: String,
    symbol: String,
    decimals: u32,
    total_supply: i128,
    paused: bool,
    balances: Table<i128>,
}

impl PausableToken {
    /// The admin, or `None` before initialization.
    pub closed spec fn spec_admin(&self) -> Option<u64> {
        self.admin
    }

    /// Whether `initialize` has run.
    pub open spec fn spec_initialized(&self) -> bool {
        self.spec_admin() is Some
    }

    /// The token name.
    pub closed spec fn spec_name(&self) -> Seq<char> {
        self.name@
    }

    /// The token symbol.
    pub closed spec fn spec_symbol(&self) -> Seq<char> {
        self.symbol@
    }

    /// The decimals.
    pub closed spec fn spec_decimals(&self) -> u32 {
        self.decimals
    }

    /// The total supply.
    pub closed spec fn spec_total_supply(&self) -> i128 {
        self.total_supply
    }

    /// Whether transfers are halted.
    pub closed spec fn spec_paused(&self) -> bool {
        self.paused
    }

    /// The balance of `account`: zero when nothing was ever stored for it.
    pub closed spec fn spec_balance(&self, account: u64) -> i128 {
        match self.balances.spec_get(account) {
            Some(v) => v,
            None => 0,
        }
    }

    /// The metadata and pause flag are as in `pre`.
    pub open spec fn config_unchanged(&self, pre: PausableToken) -> bool {
        &&& self.spec_admin() == pre.spec_admin()
        &&& self.spec_name() == pre.spec_name()
        &&& self.spec_symbol() == pre.spec_symbol()
        &&& self.spec_decimals() == pre.spec_decimals()
        &&& self.spec_total_supply() == pre.spec_total_supply()
        &&& self.spec_paused() == pre.spec_paused()
    }

    /// An uninitialized token.
    pub fn new() -> (t: PausableToken)
        ensures
            !t.spec_initialized(),
            !t.spec_paused(),
            forall|a: u64| #[trigger] t.spec_balance(a) == 0,
    {
        PausableToken {
            admin: None,
            name: String::new(),
            symbol: String::new(),
            decimals: 0,
            total_supply: 0,
            paused: false,
            balances: Table::new(),
        }
    }

    /// One-time setup: metadata, supply, the admin holding the whole
    /// supply, and transfers running.
    pub fn initialize(
        &mut self,
        admin: u64,
        name: String,
        symbol: String,
        decimals: u32,
        total_supply: i128,
    )
        requires
            !old(self).spec_initialized(),
        ensures
            final(self).spec_admin() == Some(admin),
            final(self).spec_name() == name@,
            final(self).spec_symbol() == symbol@,
            final(self).spec_decimals() == decimals,
            final(self).spec_total_supply() == total_supply,
            !final(self).spec_paused(),
            final(self).spec_balance(admin) == total_supply,
            forall|a: u64|
                a != admin ==> #[trigger] final(self).spec_balance(a) == old(self).spec_balance(a),
    {
        self.admin = Some(admin);
        self.name = name;
        self.symbol = symbol;
        self.decimals = decimals;
        self.total_supply = total_supply;
        self.paused = false;
        self.balances.set(admin, total_supply);
    }

    /// Whether transfers are halted.
    pub fn paused(&self) -> (r: bool)
        ensures
            r == self.spec_paused(),
    {
        self.paused
    }

    /// Halts transfers; only the admin may, and only while running.
    pub fn pause(&mut self, caller: u64)
        requires
            old(self).spec_admin() == Some(caller),
            !old(self).spec_paused(),
        ensures
            final(self).spec_paused(),
            final(self).spec_admin() == old(self).spec_admin(),
            final(self).spec_name() == old(self).spec_name(),
            final(self).spec_symbol() == old(self).spec_symbol(),
            final(self).spec_decimals() == old(self).spec_decimals(),
            final(self).spec_total_supply() == old(self).spec_total_supply(),
            forall|a: u64| #[trigger] final(self).spec_balance(a) == old(self).spec_balance(a),
    {
        self.paused = true;
    }

    /// Resumes transfers; only the admin may, and only while halted.
    pub fn unpause(&mut self, caller: u64)
        requires
            old(self).spec_admin() == Some(caller),
            old(self).spec_paused(),
        ensures
            !final(self).spec_paused(),
            final(self).spec_admin() == old(self).spec_admin(),
            final(self).spec_name() == old(self).spec_name(),
            final(self).spec_symbol() == old(self).spec_symbol(),
            final(self).spec_decimals() == old(self).spec_decimals(),
            final(self).spec_total_supply() == old(self).spec_total_supply(),
            forall|a: u64| #[trigger] final(self).spec_balance(a) == old(self).spec_balance(a),
    {
        self.paused = false;
    }

    /// Moves `amount` from `from` (the authenticated caller) to `to`:
    /// only while running, and only when `from` can cover it. When
    /// `from == to`, the credit is written last over the stale debit, so
    /// the balance rises by `amount`.
    pub fn transfer(&mut self, from: u64, to: u64, amount: i128)
        requires
            !old(self).spec_paused(),
            old(self).spec_balance(from) >= amount,
            old(self).spec_balance(from) - amount <= i128::MAX,
            i128::MIN <= old(self).spec_balance(to) + amount <= i128::MAX,
        ensures
            final(self).config_unchanged(*old(self)),
            final(self).spec_balance(to) == old(self).spec_balance(to) + amount,
            from != to ==> final(self).spec_balance(from) == old(self).spec_balance(from) - amount,
            forall|a: u64|
                a != from && a != to ==> #[trigger] final(self).spec_balance(a) == old(
                    self,
                ).spec_balance(a),
    {
        let from_balance = self.balances.get_or(from, 0);
        let to_balance = self.balances.get_or(to, 0);
        self.balances.set(from, from_balance - amount);
        self.balances.set(to, to_balance + amount);
    }

    /// Burns `amount` from the admin's balance and the supply; only the
    /// admin may, only while running, and only what the balance covers.
    pub fn burn(&mut self, caller: u64, amount: i128)
        requires
            old(self).spec_admin() == Some(caller),
            !old(self).spec_paused(),
            old(self).spec_balance(caller) >= amount,
            old(self).spec_balance(caller) - amount <= i128::MAX,
            i128::MIN <= old(self).spec_total_supply() - amount <= i128::MAX,
        ensures
            final(self).spec_admin() == old(self).spec_admin(),
            final(self).spec_name() == old(self).spec_name(),
            final(self).spec_symbol() == old(self).spec_symbol(),
            final(self).spec_decimals() == old(self).spec_decimals(),
            final(self).spec_paused() == old(self).spec_paused(),
            final(self).spec_total_supply() == old(self).spec_total_supply() - amount,
            final(self).spec_balance(caller) == old(self).spec_balance(caller) - amount,
            forall|a: u64|
                a != caller ==> #[trigger] final(self).spec_balance(a) == old(self).spec_balance(
                    a,
                ),
    {
        let admin_balance = self.balances.get_or(caller, 0);
        self.balances.set(caller, admin_balance - amount);
        self.total_supply = self.total_supply - amount;
    }

    /// The balance of `account`.
    pub fn balance(&self, account: u64) -> (r: i128)
        ensures
            r == self.spec_balance(account),
    {
        self.balances.get_or(account, 0)
    }

    /// The token name.
    pub fn name(&self) -> (r: String)
        requires
            self.spec_initialized(),
        ensures
            r@ == self.spec_name(),
    {
        self.name.clone()
    }

    /// The token symbol.
    pub fn symbol(&self) -> (r: String)
        requires
            self.spec_initialized(),
        ensures
            r@ == self.spec_symbol(),
    {
        self.symbol.clone()
    }

    /// The decimals.
    pub fn decimals(&self) -> (r: u32)
        requires
            self.spec_initialized(),
        ensures
            r == self.spec_decimals(),
    {
        self.decimals
    }

    /// The total supply.
    pub fn total_supply(&self) -> (r: i128)
        requires
            self.spec_initialized(),
        ensures
            r == self.spec_total_supply(),
    {
        self.total_supply
    }
}

} // verus!
