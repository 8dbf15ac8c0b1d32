//! A token combining several guard patterns: role-based access control, an
//! allowlist, a blocklist, a pause switch, and minting and burning against
//! a running total supply.
//!
//! The host authenticates callers: `from` authorizes transfers and burns,
//! and each guarded entry takes the authenticated caller and requires the
//! admin or the named role. Failure is an abort, not an error value, so
//! the aborting inputs are excluded by preconditions.

use crate::roles::RoleTable;
use crate::table::Table;
use vstd::prelude::*;

verus! {

/// The multi-extension token's state.
pub struct MultiExtensionToken {
    admin: Option<u64>,
    name: String,
    symbol: String,
    decimals: u32,
    total_supply: i128,
    paused: bool,
    balances: Table<i128>,
    roles: RoleTable,
    allowlist: Table<bool>,
    blocklist: Table<bool>,
}

impl MultiExtensionToken {
    /// The admin, or `None` before initialization.
    pub closed spec fn spec_admin(&self) -> Option<u64> {
        self.admin
    }

    /// Whether `initialize` has run.
    pub open spec fn spec_initialized(&self) -> bool {
        self.spec_admin() is Some
    }

    /// The token name.
    pub closed spec fn spec_name(&self) -> Seq<char> {
        self.name@
    }

    /// The token symbol.
    pub closed spec fn spec_symbol(&self) -> Seq<char> {
        self.symbol@
    }

    /// The decimals.
    pub closed spec fn spec_decimals(&self) -> u32 {
        self.decimals
    }

    /// The total supply.
    pub closed spec fn spec_total_supply(&self) -> i128 {
        self.total_supply
    }

    /// Whether transfers are halted.
    pub closed spec fn spec_paused(&self) -> bool {
        self.paused
    }

    /// The balance of `account`: zero when nothing was ever stored for it.
    pub closed spec fn spec_balance(&self, account: u64) -> i128 {
        match self.balances.spec_get(account) {
            Some(v) => v,
            None => 0,
        }
    }

    /// Whether `account` holds `role`.
    pub closed spec fn spec_has_role(&self, account: u64, role: Seq<char>) -> bool {
        self.roles.spec_has_role(account, role)
    }

    /// Whether `user` is on the allowlist: unlisted accounts are not.
    pub closed spec fn spec_allowed(&self, user: u64) -> bool {
        match self.allowlist.spec_get(user) {
            Some(b) => b,
            None => false,
        }
    }

    /// Whether `user` is blocked: unlisted accounts are not.
    pub closed spec fn spec_blocked(&self, user: u64) -> bool {
        match self.blocklist.spec_get(user) {
            Some(b) => b,
            None => false,
        }
    }

    /// The metadata and pause flag are as in `pre`.
    pub open spec fn config_unchanged(&self, pre: MultiExtensionToken) -> bool {
        &&& self.spec_admin() == pre.spec_admin()
        &&& self.spec_name() == pre.spec_name()
        &&& self.spec_symbol() == pre.spec_symbol()
        &&& self.spec_decimals() == pre.spec_decimals()
        &&& self.spec_total_supply() == pre.spec_total_supply()
        &&& self.spec_paused() == pre.spec_paused()
    }

    /// All balances are as in `pre`.
    pub open spec fn balances_unchanged(&self, pre: MultiExtensionToken) -> bool {
        forall|a: u64| #[trigger] self.spec_balance(a) == pre.spec_balance(a)
    }

    /// The roles are as in `pre`.
    pub open spec fn roles_unchanged(&self, pre: MultiExtensionToken) -> bool {
        forall|a: u64, r: Seq<char>|
            #[trigger] self.spec_has_role(a, r) == pre.spec_has_role(a, r)
    }

    /// The allowlist and blocklist are as in `pre`.
    pub open spec fn lists_unchanged(&self, pre: MultiExtensionToken) -> bool {
        &&& forall|u: u64| #[trigger] self.spec_allowed(u) == pre.spec_allowed(u)
        &&& forall|u: u64| #[trigger] self.spec_blocked(u) == pre.spec_blocked(u)
    }

    /// An uninitialized token.
    pub fn new() -> (t: MultiExtensionToken)
        ensures
            !t.spec_initialized(),
            !t.spec_paused(),
            forall|a: u64| #[trigger] t.spec_balance(a) == 0,
            forall|a: u64, r: Seq<char>| !#[trigger] t.spec_has_role(a, r),
            forall|u: u64| !#[trigger] t.spec_allowed(u),
            forall|u: u64| !#[trigger] t.spec_blocked(u),
    {
        MultiExtensionToken {
            admin: None,
            name: String::new(),
            symbol: String::new(),
            decimals: 0,
            total_supply: 0,
            paused: false,
            balances: Table::new(),
            roles: RoleTable::new(),
            allowlist: Table::new(),
            blocklist: Table::new(),
        }
    }

    /// One-time setup: metadata, supply, the admin holding the whole
    /// supply and, by default, the admin, minter and pauser roles and a
    /// place on the allowlist.
    pub fn initialize(
        &mut self,
        admin: u64,
        name: String,
        symbol: String,
        decimals: u32,
        total_supply: i128,
    )
        requires
            !old(self).spec_initialized(),
        ensures
            final(self).spec_admin() == Some(admin),
            final(self).spec_name() == name@,
            final(self).spec_symbol() == symbol@,
            final(self).spec_decimals() == decimals,
            final(self).spec_total_supply() == total_supply,
            !final(self).spec_paused(),
            final(self).spec_balance(admin) == total_supply,
            forall|a: u64|
                a != admin ==> #[trigger] final(self).spec_balance(a) == old(self).spec_balance(a),
            final(self).spec_has_role(admin, "admin"@),
            final(self).spec_has_role(admin, "minter"@),
            final(self).spec_has_role(admin, "pauser"@),
            forall|a: u64, r: Seq<char>|
                !(a == admin && (r == "admin"@ || r == "minter"@ || r == "pauser"@))
                    ==> #[trigger] final(self).spec_has_role(a, r) == old(self).spec_has_role(
                    a,
                    r,
                ),
            final(self).spec_allowed(admin),
            forall|u: u64|
                u != admin ==> #[trigger] final(self).spec_allowed(u) == old(self).spec_allowed(u),
            forall|u: u64| #[trigger] final(self).spec_blocked(u) == old(self).spec_blocked(u),
    {
        self.admin = Some(admin);
        self.name = name;
        self.symbol = symbol;
        self.decimals = decimals;
        self.total_supply = total_supply;
        self.paused = false;
        self.balances.set(admin, total_supply);
        self.roles.set(admin, "admin".to_owned(), true);
        self.roles.set(admin, "minter".to_owned(), true);
        self.roles.set(admin, "pauser".to_owned(), true);
        self.allowlist.set(admin, true);
    }

    /// Whether `account` holds `role`.
    pub fn has_role(&self, account: u64, role: String) -> (r: bool)
        ensures
            r == self.spec_has_role(account, role@),
    {
        self.roles.has_role(account, &role)
    }

    /// Grants `role` to `account`; only the admin may.
    pub fn grant_role(&mut self, caller: u64, account: u64, role: String)
        requires
            old(self).spec_admin() == Some(caller),
        ensures
            final(self).spec_has_role(account, role@),
            forall|a: u64, r: Seq<char>|
                !(a == account && r == role@) ==> #[trigger] final(self).spec_has_role(a, r)
                    == old(self).spec_has_role(a, r),
            final(self).config_unchanged(*old(self)),
            final(self).balances_unchanged(*old(self)),
            final(self).lists_unchanged(*old(self)),
    {
        self.roles.set(account, role, true);
    }

    /// Revokes `role` from `account`; only the admin may.
    pub fn revoke_role(&mut self, caller: u64, account: u64, role: String)
        requires
            old(self).spec_admin() == Some(caller),
        ensures
            !final(self).spec_has_role(account, role@),
            forall|a: u64, r: Seq<char>|
                !(a == account && r == role@) ==> #[trigger] final(self).spec_has_role(a, r)
                    == old(self).spec_has_role(a, r),
            final(self).config_unchanged(*old(self)),
            final(self).balances_unchanged(*old(self)),
            final(self).lists_unchanged(*old(self)),
    {
        self.roles.set(account, role, false);
    }

    /// Whether `user` is on the allowlist.
    pub fn allowed(&self, user: u64) -> (r: bool)
        ensures
            r == self.spec_allowed(user),
    {
        self.allowlist.get_or(user, false)
    }

    /// Puts `user` on the allowlist; only the admin may.
    pub fn allow_user(&mut self, caller: u64, user: u64)
        requires
            old(self).spec_admin() == Some(caller),
        ensures
            final(self).spec_allowed(user),
            forall|u: u64|
                u != user ==> #[trigger] final(self).spec_allowed(u) == old(self).spec_allowed(u),
            forall|u: u64| #[trigger] final(self).spec_blocked(u) == old(self).spec_blocked(u),
            final(self).config_unchanged(*old(self)),
            final(self).balances_unchanged(*old(self)),
            final(self).roles_unchanged(*old(self)),
    {
        self.allowlist.set(user, true);
    }

    /// Takes `user` off the allowlist; only the admin may.
    pub fn disallow_user(&mut self, caller: u64, user: u64)
        requires
            old(self).spec_admin() == Some(caller),
        ensures
            !final(self).spec_allowed(user),
            forall|u: u64|
                u != user ==> #[trigger] final(self).spec_allowed(u) == old(self).spec_allowed(u),
            forall|u: u64| #[trigger] final(self).spec_blocked(u) == old(self).spec_blocked(u),
            final(self).config_unchanged(*old(self)),
            final(self).balances_unchanged(*old(self)),
            final(self).roles_unchanged(*old(self)),
    {
        self.allowlist.set(user, false);
    }

    /// Whether `user` is blocked.
    pub fn blocked(&self, user: u64) -> (r: bool)
        ensures
            r == self.spec_blocked(user),
    {
        self.blocklist.get_or(user, false)
    }

    /// Blocks `user`; only the admin may.
    pub fn block_user(&mut self, caller: u64, user: u64)
        requires
            old(self).spec_admin() == Some(caller),
        ensures
            final(self).spec_blocked(user),
            forall|u: u64|
                u != user ==> #[trigger] final(self).spec_blocked(u) == old(self).spec_blocked(u),
            forall|u: u64| #[trigger] final(self).spec_allowed(u) == old(self).spec_allowed(u),
            final(self).config_unchanged(*old(self)),
            final(self).balances_unchanged(*old(self)),
            final(self).roles_unchanged(*old(self)),
    {
        self.blocklist.set(user, true);
    }

    /// Unblocks `user`; only the admin may.
    pub fn unblock_user(&mut self, caller: u64, user: u64)
        requires
            old(self).spec_admin() == Some(caller),
        ensures
            !final(self).spec_blocked(user),
            forall|u: u64|
                u != user ==> #[trigger] final(self).spec_blocked(u) == old(self).spec_blocked(u),
            forall|u: u64| #[trigger] final(self).spec_allowed(u) == old(self).spec_allowed(u),
            final(self).config_unchanged(*old(self)),
            final(self).balances_unchanged(*old(self)),
            final(self).roles_unchanged(*old(self)),
    {
        self.blocklist.set(user, false);
    }

    /// Whether transfers are halted.
    pub fn paused(&self) -> (r: bool)
        ensures
            r == self.spec_paused(),
    {
        self.paused
    }

    /// Halts transfers; only a holder of the pauser role may, and only
    /// while running.
    pub fn pause(&mut self, caller: u64)
        requires
            old(self).spec_has_role(caller, "pauser"@),
            !old(self).spec_paused(),
        ensures
            final(self).spec_paused(),
            final(self).spec_admin() == old(self).spec_admin(),
            final(self).spec_name() == old(self).spec_name(),
            final(self).spec_symbol() == old(self).spec_symbol(),
            final(self).spec_decimals() == old(self).spec_decimals(),
            final(self).spec_total_supply() == old(self).spec_total_supply(),
            final(self).balances_unchanged(*old(self)),
            final(self).roles_unchanged(*old(self)),
            final(self).lists_unchanged(*old(self)),
    {
        self.paused = true;
    }

    /// Resumes transfers; only a holder of the pauser role may, and only
    /// while halted.
    pub fn unpause(&mut self, caller: u64)
        requires
            old(self).spec_has_role(caller, "pauser"@),
            old(self).spec_paused(),
        ensures
            !final(self).spec_paused(),
            final(self).spec_admin() == old(self).spec_admin(),
            final(self).spec_name() == old(self).spec_name(),
            final(self).spec_symbol() == old(self).spec_symbol(),
            final(self).spec_decimals() == old(self).spec_decimals(),
            final(self).spec_total_supply() == old(self).spec_total_supply(),
            final(self).balances_unchanged(*old(self)),
            final(self).roles_unchanged(*old(self)),
            final(self).lists_unchanged(*old(self)),
    {
        self.paused = false;
    }

    /// Moves `amount` from `from` (the authenticated caller) to `to`: only
    /// while running, both ends on the allowlist and neither blocked, and
    /// `from` able to cover it. When `from == to`, the credit is written
    /// last over the stale debit, so the balance rises by `amount`.
    pub fn transfer(&mut self, from: u64, to: u64, amount: i128)
        requires
            !old(self).spec_paused(),
            old(self).spec_allowed(from),
            old(self).spec_allowed(to),
            !old(self).spec_blocked(from),
            !old(self).spec_blocked(to),
            old(self).spec_balance(from) >= amount,
            old(self).spec_balance(from) - amount <= i128::MAX,
            i128::MIN <= old(self).spec_balance(to) + amount <= i128::MAX,
        ensures
            final(self).config_unchanged(*old(self)),
            final(self).roles_unchanged(*old(self)),
            final(self).lists_unchanged(*old(self)),
            final(self).spec_balance(to) == old(self).spec_balance(to) + amount,
            from != to ==> final(self).spec_balance(from) == old(self).spec_balance(from) - amount,
            forall|a: u64|
                a != from && a != to ==> #[trigger] final(self).spec_balance(a) == old(
                    self,
                ).spec_balance(a),
    {
        let from_balance = self.balances.get_or(from, 0);
        let to_balance = self.balances.get_or(to, 0);
        self.balances.set(from, from_balance - amount);
        self.balances.set(to, to_balance + amount);
    }

    /// Credits `amount` to `to` and raises the supply; only a holder of
    /// the minter role may, and only while running.
    pub fn mint(&mut self, caller: u64, to: u64, amount: i128)
        requires
            old(self).spec_initialized(),
            old(self).spec_has_role(caller, "minter"@),
            !old(self).spec_paused(),
            i128::MIN <= old(self).spec_balance(to) + amount <= i128::MAX,
            i128::MIN <= old(self).spec_total_supply() + amount <= i128::MAX,
        ensures
            final(self).spec_admin() == old(self).spec_admin(),
            final(self).spec_name() == old(self).spec_name(),
            final(self).spec_symbol() == old(self).spec_symbol(),
            final(self).spec_decimals() == old(self).spec_decimals(),
            final(self).spec_paused() == old(self).spec_paused(),
            final(self).spec_total_supply() == old(self).spec_total_supply() + amount,
            final(self).spec_balance(to) == old(self).spec_balance(to) + amount,
            forall|a: u64|
                a != to ==> #[trigger] final(self).spec_balance(a) == old(self).spec_balance(a),
            final(self).roles_unchanged(*old(self)),
            final(self).lists_unchanged(*old(self)),
    {
        let to_balance = self.balances.get_or(to, 0);
        self.balances.set(to, to_balance + amount);
        self.total_supply = self.total_supply + amount;
    }

    /// Burns `amount` of `from`'s balance (the authenticated caller) and
    /// lowers the supply: only while running, and only what the balance
    /// covers.
    pub fn burn(&mut self, from: u64, amount: i128)
        requires
            old(self).spec_initialized(),
            !old(self).spec_paused(),
            old(self).spec_balance(from) >= amount,
            old(self).spec_balance(from) - amount <= i128::MAX,
            i128::MIN <= old(self).spec_total_supply() - amount <= i128::MAX,
        ensures
            final(self).spec_admin() == old(self).spec_admin(),
            final(self).spec_name() == old(self).spec_name(),
            final(self).spec_symbol() == old(self).spec_symbol(),
            final(self).spec_decimals() == old(self).spec_decimals(),
            final(self).spec_paused() == old(self).spec_paused(),
            final(self).spec_total_supply() == old(self).spec_total_supply() - amount,
            final(self).spec_balance(from) == old(self).spec_balance(from) - amount,
            forall|a: u64|
                a != from ==> #[trigger] final(self).spec_balance(a) == old(self).spec_balance(a),
            final(self).roles_unchanged(*old(self)),
            final(self).lists_unchanged(*old(self)),
    {
        let from_balance = self.balances.get_or(from, 0);
        self.balances.set(from, from_balance - amount);
        self.total_supply = self.total_supply - amount;
    }

    /// The balance of `account`.
    pub fn balance(&self, account: u64) -> (r: i128)
        ensures
            r == self.spec_balance(account),
    {
        self.balances.get_or(account, 0)
    }

    /// The token name.
    pub fn name(&self) -> (r: String)
        requires
            self.spec_initialized(),
        ensures
            r@ == self.spec_name(),
    {
        self.name.clone()
    }

    /// The token symbol.
    pub fn symbol(&self) -> (r: String)
        requires
            self.spec_initialized(),
        ensures
            r@ == self.spec_symbol(),
    {
        self.symbol.clone()
    }

    /// The decimals.
    pub fn decimals(&self) -> (r: u32)
        requires
            self.spec_initialized(),
        ensures
            r == self.spec_decimals(),
    {
        self.decimals
    }

    /// The total supply.
    pub fn total_supply(&self) -> (r: i128)
        requires
            self.spec_initialized(),
        ensures
            r == self.spec_total_supply(),
    {
        self.total_supply
    }
}

} // verus!
