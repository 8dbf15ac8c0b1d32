//! Role bookkeeping: which account holds which named role. Shared by the
//! contracts with role-based access control.
//!
//! Like `table`, writes append `(account, role, granted)` entries and reads
//! take the latest entry for an `(account, role)` pair; roles are compared
//! by their characters.

use vstd::prelude::*;

verus! {

/// The latest grant or revocation recorded for `(account, role)`, if any.
pub open spec fn role_lookup(
    entries: Seq<(u64, String, bool)>,
    account: u64,
    role: Seq<char>,
) -> Option<bool>
    decreases entries.len(),
{
    if entries.len() == 0 {
        None
    } else if entries.last().0 == account && entries.last().1@ == role {
        Some(entries.last().2)
    } else {
        role_lookup(entries.drop_last(), account, role)
    }
}

/// Appending one entry rebinds exactly its own `(account, role)` pair.
pub proof fn lemma_role_lookup_push(
    entries: Seq<(u64, String, bool)>,
    e: (u64, String, bool),
    account: u64,
    role: Seq<char>,
)
    ensures
        role_lookup(entries.push(e), account, role) == if e.0 == account && e.1@ == role {
            Some(e.2)
        } else {
            role_lookup(entries, account, role)
        },
{
    assert(entries.push(e).drop_last() =~= entries);
    assert(entries.push(e).last() == e);
}

/// The write log of role grants and revocations.
pub struct RoleTable {
    entries: Vec<(u64, String, bool)>,
}

impl RoleTable {
    /// The write log, oldest first.
    pub closed spec fn log(&self) -> Seq<(u64, String, bool)> {
        self.entries@
    }

    /// Whether `account` holds `role`: only after a grant that no
    /// revocation has overwritten.
    pub open spec fn spec_has_role(&self, account: u64, role: Seq<char>) -> bool {
        role_lookup(self.log(), account, role) == Some(true)
    }

    /// A table granting nothing.
    pub fn new() -> (t: RoleTable)
        ensures
            t.log() == Seq::<(u64, String, bool)>::empty(),
            forall|a: u64, r: Seq<char>| !#[trigger] t.spec_has_role(a, r),
    {
        RoleTable { entries: Vec::new() }
    }

    /// Grants (`granted == true`) or revokes `role` for `account`; no
    /// other pair changes.
    pub fn set(&mut self, account: u64, role: String, granted: bool)
        ensures
            final(self).spec_has_role(account, role@) == granted,
            forall|a: u64, r: Seq<char>|
                !(a == account && r == role@) ==> #[trigger] final(self).spec_has_role(a, r)
                    == old(self).spec_has_role(a, r),
    {
        let ghost entries = self.entries@;
        let ghost role_view = role@;
        self.entries.push((account, role, granted));
        proof {
            assert forall|a: u64, r: Seq<char>| true implies #[trigger] role_lookup(
                self.entries@,
                a,
                r,
            ) == if a == account && r == role_view {
                Some(granted)
            } else {
                role_lookup(entries, a, r)
            } by {
                lemma_role_lookup_push(entries, self.entries@.last(), a, r);
                assert(self.entries@ =~= entries.push(self.entries@.last()));
            }
        }
    }

    /// Whether `account` holds `role`.
    pub fn has_role(&self, account: u64, role: &String) -> (r: bool)
        ensures
            r == self.spec_has_role(account, role@),
    {
        let mut i: usize = self.entries.len();
        proof {
            assert(self.entries@.take(i as int) =~= self.entries@);
        }
        while i > 0
            invariant
                i <= self.entries.len(),
                role_lookup(self.entries@, account, role@) == role_lookup(
                    self.entries@.take(i as int),
                    account,
                    role@,
                ),
            decreases i,
        {
            i = i - 1;
            proof {
                assert(self.entries@.take(i + 1).drop_last() =~= self.entries@.take(i as int));
                assert(self.entries@.take(i + 1).last() == self.entries@[i as int]);
            }
            let e = &self.entries[i];
            if e.0 == account && e.1 == *role {
                return e.2;
            }
        }
        proof {
            assert(self.entries@.take(0) =~= Seq::<(u64, String, bool)>::empty());
        }
        false
    }
}

} // verus!
