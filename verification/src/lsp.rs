//! A grab-bag exercise contract: an owner, a pause switch, roles, a
//! counter, keyed byte payloads, and transfers — single and bulk — over a
//! balance table.
//!
//! The host authenticates callers (`from` on transfers, the owner on the
//! guarded entries). Failure is an abort, not an error value, so the
//! aborting inputs (a second initialization, mismatched bulk arguments, a
//! paused contract, uncovered or out-of-range amounts) are excluded by
//! preconditions.

use crate::bytes::clone_bytes;
use crate::roles::RoleTable;
use crate::table::{lookup, Table};
use vstd::prelude::*;

verus! {

/// The sum of `amounts`.
pub open spec fn sum_of(amounts: Seq<i128>) -> int
    decreases amounts.len(),
{
    if amounts.len() == 0 {
        0
    } else {
        sum_of(amounts.drop_last()) + amounts.last()
    }
}

/// The balance `log` (a `table` write log) gives `account`, with the usual
/// default of zero.
pub open spec fn bal_of(log: Seq<(u64, i128)>, account: u64) -> i128 {
    match lookup(log, account) {
        Some(v) => v,
        None => 0,
    }
}

/// Whether crediting `amounts` to `recipients` in order, starting from
/// `log`, stays within `i128` at every step — each credit reads the
/// balance as the previous credits left it.
pub open spec fn credits_ok(log: Seq<(u64, i128)>, recipients: Seq<u64>, amounts: Seq<i128>) -> bool
    decreases recipients.len(),
{
    if recipients.len() == 0 {
        true
    } else {
        let b = bal_of(log, recipients.first());
        &&& i128::MIN <= b + amounts.first() <= i128::MAX
        &&& credits_ok(
            log.push((recipients.first(), (b + amounts.first()) as i128)),
            recipients.drop_first(),
            amounts.drop_first(),
        )
    }
}

/// The write log after crediting `amounts` to `recipients` in order,
/// starting from `log`.
pub open spec fn apply_credits(
    log: Seq<(u64, i128)>,
    recipients: Seq<u64>,
    amounts: Seq<i128>,
) -> Seq<(u64, i128)>
    decreases recipients.len(),
{
    if recipients.len() == 0 {
        log
    } else {
        apply_credits(
            log.push(
                (recipients.first(), (bal_of(log, recipients.first()) + amounts.first()) as i128),
            ),
            recipients.drop_first(),
            amounts.drop_first(),
        )
    }
}

/// The exercise contract's state.
pub struct LspTest {
    owner: Option<u64>,
    paused: bool,
    counter: i128,
    roles: RoleTable,
    balances: Table<i128>,
    test_data: Table<Vec<u8>>,
}

impl LspTest {
    /// The owner, or `None` before initialization.
    pub closed spec fn spec_owner(&self) -> Option<u64> {
        self.owner
    }

    /// Whether `initialize` has run.
    pub open spec fn spec_initialized(&self) -> bool {
        self.spec_owner() is Some
    }

    /// Whether the contract is paused.
    pub closed spec fn spec_paused(&self) -> bool {
        self.paused
    }

    /// The counter value.
    pub closed spec fn spec_counter(&self) -> i128 {
        self.counter
    }

    /// Whether `account` holds `role`.
    pub closed spec fn spec_has_role(&self, account: u64, role: Seq<char>) -> bool {
        self.roles.spec_has_role(account, role)
    }

    /// The balance write log; `bal_of` on it is the balance table.
    pub closed spec fn balances_log(&self) -> Seq<(u64, i128)> {
        self.balances.log()
    }

    /// The balance of `account`: zero when nothing was ever stored for it;
    /// always `bal_of` over the balance write log.
    pub closed spec fn spec_balance(&self, account: u64) -> i128 {
        match self.balances.spec_get(account) {
            Some(v) => v,
            None => 0,
        }
    }

    /// The payload stored under `id`, if any.
    pub closed spec fn spec_test_data(&self, id: u64) -> Option<Seq<u8>> {
        match self.test_data.spec_get(id) {
            Some(b) => Some(b@),
            None => None,
        }
    }

    /// The owner, pause flag and counter are as in `pre`.
    pub open spec fn control_unchanged(&self, pre: LspTest) -> bool {
        &&& self.spec_owner() == pre.spec_owner()
        &&& self.spec_paused() == pre.spec_paused()
        &&& self.spec_counter() == pre.spec_counter()
    }

    /// The roles are as in `pre`.
    pub open spec fn roles_unchanged(&self, pre: LspTest) -> bool {
        forall|a: u64, r: Seq<char>|
            #[trigger] self.spec_has_role(a, r) == pre.spec_has_role(a, r)
    }

    /// All balances are as in `pre`.
    pub open spec fn balances_unchanged(&self, pre: LspTest) -> bool {
        self.balances_log() == pre.balances_log()
    }

    /// The stored payloads are as in `pre`.
    pub open spec fn data_unchanged(&self, pre: LspTest) -> bool {
        forall|id: u64| #[trigger] self.spec_test_data(id) == pre.spec_test_data(id)
    }

    /// An uninitialized contract.
    pub fn new() -> (c: LspTest)
        ensures
            !c.spec_initialized(),
            !c.spec_paused(),
            c.spec_counter() == 0,
            forall|a: u64, r: Seq<char>| !#[trigger] c.spec_has_role(a, r),
            forall|a: u64| #[trigger] c.spec_balance(a) == 0,
            forall|id: u64| #[trigger] c.spec_test_data(id) is None,
    {
        LspTest {
            owner: None,
            paused: false,
            counter: 0,
            roles: RoleTable::new(),
            balances: Table::new(),
            test_data: Table::new(),
        }
    }

    /// One-time setup: the owner, running, the counter at zero, and the
    /// admin role granted to the owner.
    pub fn initialize(&mut self, owner: u64)
        requires
            !old(self).spec_initialized(),
        ensures
            final(self).spec_owner() == Some(owner),
            !final(self).spec_paused(),
            final(self).spec_counter() == 0,
            final(self).spec_has_role(owner, "admin"@),
            forall|a: u64, r: Seq<char>|
                !(a == owner && r == "admin"@) ==> #[trigger] final(self).spec_has_role(a, r)
                    == old(self).spec_has_role(a, r),
            final(self).balances_unchanged(*old(self)),
            final(self).data_unchanged(*old(self)),
    {
        self.owner = Some(owner);
        self.paused = false;
        self.counter = 0;
        self.roles.set(owner, "admin".to_owned(), true);
    }

    /// Grants `role` to `account`; only the owner may.
    pub fn grant_role(&mut self, caller: u64, account: u64, role: String)
        requires
            old(self).spec_owner() == Some(caller),
        ensures
            final(self).spec_has_role(account, role@),
            forall|a: u64, r: Seq<char>|
                !(a == account && r == role@) ==> #[trigger] final(self).spec_has_role(a, r)
                    == old(self).spec_has_role(a, r),
            final(self).control_unchanged(*old(self)),
            final(self).balances_unchanged(*old(self)),
            final(self).data_unchanged(*old(self)),
    {
        self.roles.set(account, role, true);
    }

    /// Pauses the contract; only the owner may, and only while running.
    pub fn pause(&mut self, caller: u64)
        requires
            old(self).spec_owner() == Some(caller),
            !old(self).spec_paused(),
        ensures
            final(self).spec_paused(),
            final(self).spec_owner() == old(self).spec_owner(),
            final(self).spec_counter() == old(self).spec_counter(),
            final(self).roles_unchanged(*old(self)),
            final(self).balances_unchanged(*old(self)),
            final(self).data_unchanged(*old(self)),
    {
        self.paused = true;
    }

    /// Resumes the contract; only the owner may, and only while paused.
    pub fn unpause(&mut self, caller: u64)
        requires
            old(self).spec_owner() == Some(caller),
            old(self).spec_paused(),
        ensures
            !final(self).spec_paused(),
            final(self).spec_owner() == old(self).spec_owner(),
            final(self).spec_counter() == old(self).spec_counter(),
            final(self).roles_unchanged(*old(self)),
            final(self).balances_unchanged(*old(self)),
            final(self).data_unchanged(*old(self)),
    {
        self.paused = false;
    }

    /// Moves `amount` from `from` (the authenticated caller) to `to`: only
    /// while running, and only when `from` can cover it. When
    /// `from == to`, the credit is written last over the stale debit, so
    /// the balance rises by `amount`.
    pub fn transfer_when_not_paused(&mut self, from: u64, to: u64, amount: i128)
        requires
            !old(self).spec_paused(),
            old(self).spec_balance(from) >= amount,
            old(self).spec_balance(from) - amount <= i128::MAX,
            i128::MIN <= old(self).spec_balance(to) + amount <= i128::MAX,
        ensures
            final(self).control_unchanged(*old(self)),
            final(self).roles_unchanged(*old(self)),
            final(self).data_unchanged(*old(self)),
            final(self).spec_balance(to) == old(self).spec_balance(to) + amount,
            from != to ==> final(self).spec_balance(from) == old(self).spec_balance(from) - amount,
            forall|a: u64|
                a != from && a != to ==> #[trigger] final(self).spec_balance(a) == old(
                    self,
                ).spec_balance(a),
    {
        let from_balance = self.balances.get_or(from, 0);
        let to_balance = self.balances.get_or(to, 0);
        self.balances.set(from, from_balance - amount);
        self.balances.set(to, to_balance + amount);
    }

    /// Empties `account`'s balance and returns what it held; only the
    /// owner may, and only while paused.
    pub fn emergency_withdraw_when_paused(&mut self, caller: u64, account: u64) -> (r: i128)
        requires
            old(self).spec_owner() == Some(caller),
            old(self).spec_paused(),
        ensures
            r == old(self).spec_balance(account),
            final(self).spec_balance(account) == 0,
            forall|a: u64|
                a != account ==> #[trigger] final(self).spec_balance(a) == old(self).spec_balance(
                    a,
                ),
            final(self).control_unchanged(*old(self)),
            final(self).roles_unchanged(*old(self)),
            final(self).data_unchanged(*old(self)),
    {
        let balance = self.balances.get_or(account, 0);
        self.balances.set(account, 0);
        balance
    }

    /// Raises the counter by one; only the owner may.
    pub fn increment_counter(&mut self, caller: u64)
        requires
            old(self).spec_owner() == Some(caller),
            old(self).spec_counter() < i128::MAX,
        ensures
            final(self).spec_counter() == old(self).spec_counter() + 1,
            final(self).spec_owner() == old(self).spec_owner(),
            final(self).spec_paused() == old(self).spec_paused(),
            final(self).roles_unchanged(*old(self)),
            final(self).balances_unchanged(*old(self)),
            final(self).data_unchanged(*old(self)),
    {
        self.counter = self.counter + 1;
    }

    /// Stores `data` under `id`; only the owner may.
    pub fn store_test_data(&mut self, caller: u64, id: u64, data: Vec<u8>)
        requires
            old(self).spec_owner() == Some(caller),
        ensures
            final(self).spec_test_data(id) == Some(data@),
            forall|i: u64|
                i != id ==> #[trigger] final(self).spec_test_data(i) == old(self).spec_test_data(
                    i,
                ),
            final(self).control_unchanged(*old(self)),
            final(self).roles_unchanged(*old(self)),
            final(self).balances_unchanged(*old(self)),
    {
        self.test_data.set(id, data);
    }

    /// A two-entry report on `user`: the balance, and whether the admin
    /// role is held (as 1 or 0).
    pub fn get_user_info(&self, user: u64) -> (r: Vec<(String, i128)>)
        ensures
            r@.len() == 2,
            r@[0].0@ == "balance"@,
            r@[0].1 == self.spec_balance(user),
            r@[1].0@ == "is_admin"@,
            r@[1].1 == if self.spec_has_role(user, "admin"@) {
                1int
            } else {
                0int
            },
    {
        let mut out: Vec<(String, i128)> = Vec::new();
        out.push(("balance".to_owned(), self.balances.get_or(user, 0)));
        let admin_role = "admin".to_owned();
        let is_admin = self.roles.has_role(user, &admin_role);
        out.push(("is_admin".to_owned(), if is_admin { 1 } else { 0 }));
        out
    }

    /// Credits each recipient in order out of `from`'s balance (the
    /// authenticated caller): only while running, with one amount per
    /// recipient, a covered total, and every intermediate balance in
    /// range. The debit is written first, then each credit reads the
    /// balance as the previous credits left it.
    pub fn bulk_transfer(&mut self, from: u64, recipients: Vec<u64>, amounts: Vec<i128>)
        requires
            recipients@.len() == amounts@.len(),
            !old(self).spec_paused(),
            forall|i: int|
                0 <= i <= amounts@.len() ==> i128::MIN <= #[trigger] sum_of(amounts@.take(i))
                    <= i128::MAX,
            old(self).spec_balance(from) >= sum_of(amounts@),
            old(self).spec_balance(from) - sum_of(amounts@) <= i128::MAX,
            credits_ok(
                old(self).balances_log().push(
                    (from, (old(self).spec_balance(from) - sum_of(amounts@)) as i128),
                ),
                recipients@,
                amounts@,
            ),
        ensures
            final(self).control_unchanged(*old(self)),
            final(self).roles_unchanged(*old(self)),
            final(self).data_unchanged(*old(self)),
            final(self).balances_log() == apply_credits(
                old(self).balances_log().push(
                    (from, (old(self).spec_balance(from) - sum_of(amounts@)) as i128),
                ),
                recipients@,
                amounts@,
            ),
            forall|a: u64|
                #[trigger] final(self).spec_balance(a) == bal_of(final(self).balances_log(), a),
    {
        let n = amounts.len();
        let mut total: i128 = 0;
        let mut i: usize = 0;
        proof {
            assert(amounts@.take(0) =~= Seq::<i128>::empty());
        }
        while i < n
            invariant
                i <= n,
                n == amounts@.len(),
                total == sum_of(amounts@.take(i as int)),
                forall|j: int|
                    0 <= j <= amounts@.len() ==> i128::MIN <= #[trigger] sum_of(amounts@.take(j))
                        <= i128::MAX,
            decreases n - i,
        {
            proof {
                assert(amounts@.take(i + 1).drop_last() =~= amounts@.take(i as int));
                assert(amounts@.take(i + 1).last() == amounts@[i as int]);
                assert(sum_of(amounts@.take(i + 1)) == total + amounts@[i as int]);
            }
            total = total + amounts[i];
            i = i + 1;
        }
        proof {
            assert(amounts@.take(n as int) =~= amounts@);
        }
        let from_balance = self.balances.get_or(from, 0);
        self.balances.set(from, from_balance - total);
        let ghost debited = self.balances.log();
        let mut k: usize = 0;
        proof {
            assert(recipients@.skip(0) =~= recipients@);
            assert(amounts@.skip(0) =~= amounts@);
        }
        while k < n
            invariant
                k <= n,
                n == amounts@.len(),
                n == recipients@.len(),
                credits_ok(
                    self.balances.log(),
                    recipients@.skip(k as int),
                    amounts@.skip(k as int),
                ),
                apply_credits(
                    self.balances.log(),
                    recipients@.skip(k as int),
                    amounts@.skip(k as int),
                ) == apply_credits(debited, recipients@, amounts@),
                self.owner == old(self).owner,
                self.paused == old(self).paused,
                self.counter == old(self).counter,
                self.roles == old(self).roles,
                self.test_data == old(self).test_data,
            decreases n - k,
        {
            proof {
                assert(recipients@.skip(k as int).first() == recipients@[k as int]);
                assert(amounts@.skip(k as int).first() == amounts@[k as int]);
                assert(recipients@.skip(k as int).drop_first() =~= recipients@.skip(k + 1));
                assert(amounts@.skip(k as int).drop_first() =~= amounts@.skip(k + 1));
            }
            let recipient = recipients[k];
            let amount = amounts[k];
            let recipient_balance = self.balances.get_or(recipient, 0);
            self.balances.set(recipient, recipient_balance + amount);
            k = k + 1;
        }
        proof {
            assert(recipients@.skip(n as int) =~= Seq::<u64>::empty());
            assert(amounts@.skip(n as int) =~= Seq::<i128>::empty());
        }
    }

    /// Whether the contract is paused.
    pub fn paused(&self) -> (r: bool)
        ensures
            r == self.spec_paused(),
    {
        self.paused
    }

    /// The owner.
    pub fn owner(&self) -> (r: u64)
        requires
            self.spec_initialized(),
        ensures
            Some(r) == self.spec_owner(),
    {
        match &self.owner {
            Some(o) => *o,
            None => 0,
        }
    }

    /// Whether `account` holds `role`.
    pub fn has_role(&self, account: u64, role: String) -> (r: bool)
        ensures
            r == self.spec_has_role(account, role@),
    {
        self.roles.has_role(account, &role)
    }

    /// The balance of `account`.
    pub fn balance(&self, account: u64) -> (r: i128)
        ensures
            r == self.spec_balance(account),
    {
        self.balances.get_or(account, 0)
    }

    /// The counter value.
    pub fn counter(&self) -> (r: i128)
        ensures
            r == self.spec_counter(),
    {
        self.counter
    }

    /// The payload stored under `id`, if any.
    pub fn get_test_data(&self, id: u64) -> (r: Option<Vec<u8>>)
        ensures
            match r {
                Some(b) => self.spec_test_data(id) == Some(b@),
                None => self.spec_test_data(id) is None,
            },
    {
        match self.test_data.get(id) {
            Some(b) => Some(clone_bytes(b)),
            None => None,
        }
    }

    /// The configured value under `key`. No entry point writes a
    /// configuration value, so the answer is always `None`.
    pub fn get_config(&self, key: String) -> (r: Option<i128>)
        ensures
            r is None,
    {
        let _ = key;
        None
    }
}

} // verus!
