//! An NFT registry with role-based access control: an admin who grants and
//! revokes named roles, minting for holders of the minter role, and
//! burning for holders of the burner role, the admin, or the token's
//! owner.
//!
//! The host authenticates callers, and each guarded entry takes the
//! authenticated caller and requires the admin or the role. Failure is an
//! abort, not an error value, so the aborting inputs (a second
//! initialization, a missing token) are excluded by preconditions.

use crate::bytes::clone_bytes;
use crate::roles::RoleTable;
use crate::table::Table;
use vstd::prelude::*;

verus! {

/// The NFT registry's state. A burned token keeps a tombstone (`None`) in
/// the owner and metadata tables, so its id is never handed out again.
pub struct AccessControlNFT {
    admin: Option<u64>,
    name: String,
    symbol: String,
    next_token: u64,
    roles: RoleTable,
    owners: Table<Option<u64>>,
    metadata: Table<Option<Vec<u8>>>,
}

impl AccessControlNFT {
    /// The admin, or `None` before initialization.
    pub closed spec fn spec_admin(&self) -> Option<u64> {
        self.admin
    }

    /// Whether `initialize` has run.
    pub open spec fn spec_initialized(&self) -> bool {
        self.spec_admin() is Some
    }

    /// The contract name.
    pub closed spec fn spec_name(&self) -> Seq<char> {
        self.name@
    }

    /// The contract symbol.
    pub closed spec fn spec_symbol(&self) -> Seq<char> {
        self.symbol@
    }

    /// The id the next minted token receives.
    pub closed spec fn spec_next_token_id(&self) -> u64 {
        self.next_token
    }

    /// Whether `account` holds `role`.
    pub closed spec fn spec_has_role(&self, account: u64, role: Seq<char>) -> bool {
        self.roles.spec_has_role(account, role)
    }

    /// The owner of `token_id`, or `None` for a token never minted or
    /// burned since.
    pub closed spec fn spec_token_owner(&self, token_id: u64) -> Option<u64> {
        match self.owners.spec_get(token_id) {
            Some(o) => o,
            None => None,
        }
    }

    /// The metadata of `token_id`, or `None` for a token never minted or
    /// burned since.
    pub closed spec fn spec_token_metadata(&self, token_id: u64) -> Option<Seq<u8>> {
        match self.metadata.spec_get(token_id) {
            Some(Some(b)) => Some(b@),
            _ => None,
        }
    }

    /// The roles are as in `pre`.
    pub open spec fn roles_unchanged(&self, pre: AccessControlNFT) -> bool {
        forall|a: u64, r: Seq<char>|
            #[trigger] self.spec_has_role(a, r) == pre.spec_has_role(a, r)
    }

    /// The tokens (owners and metadata) are as in `pre`.
    pub open spec fn tokens_unchanged(&self, pre: AccessControlNFT) -> bool {
        &&& forall|t: u64| #[trigger] self.spec_token_owner(t) == pre.spec_token_owner(t)
        &&& forall|t: u64| #[trigger] self.spec_token_metadata(t) == pre.spec_token_metadata(t)
    }

    /// An uninitialized registry whose token ids start at 1.
    pub fn new() -> (c: AccessControlNFT)
        ensures
            !c.spec_initialized(),
            c.spec_next_token_id() == 1,
            forall|a: u64, r: Seq<char>| !#[trigger] c.spec_has_role(a, r),
            forall|t: u64| #[trigger] c.spec_token_owner(t) is None,
            forall|t: u64| #[trigger] c.spec_token_metadata(t) is None,
    {
        AccessControlNFT {
            admin: None,
            name: String::new(),
            symbol: String::new(),
            next_token: 1,
            roles: RoleTable::new(),
            owners: Table::new(),
            metadata: Table::new(),
        }
    }

    /// One-time setup: the admin, the metadata, token ids from 1, and the
    /// admin role granted to the admin.
    pub fn initialize(&mut self, admin: u64, name: String, symbol: String)
        requires
            !old(self).spec_initialized(),
        ensures
            final(self).spec_admin() == Some(admin),
            final(self).spec_name() == name@,
            final(self).spec_symbol() == symbol@,
            final(self).spec_next_token_id() == 1,
            final(self).spec_has_role(admin, "admin"@),
            forall|a: u64, r: Seq<char>|
                !(a == admin && r == "admin"@) ==> #[trigger] final(self).spec_has_role(a, r)
                    == old(self).spec_has_role(a, r),
            final(self).tokens_unchanged(*old(self)),
    {
        self.admin = Some(admin);
        self.name = name;
        self.symbol = symbol;
        self.next_token = 1;
        let admin_role = "admin".to_owned();
        self.roles.set(admin, admin_role, true);
    }

    /// Whether `account` holds `role`.
    pub fn has_role(&self, account: u64, role: String) -> (r: bool)
        ensures
            r == self.spec_has_role(account, role@),
    {
        self.roles.has_role(account, &role)
    }

    /// Grants `role` to `account`; only the admin may.
    pub fn grant_role(&mut self, caller: u64, account: u64, role: String)
        requires
            old(self).spec_admin() == Some(caller),
        ensures
            final(self).spec_has_role(account, role@),
            forall|a: u64, r: Seq<char>|
                !(a == account && r == role@) ==> #[trigger] final(self).spec_has_role(a, r)
                    == old(self).spec_has_role(a, r),
            final(self).spec_admin() == old(self).spec_admin(),
            final(self).spec_name() == old(self).spec_name(),
            final(self).spec_symbol() == old(self).spec_symbol(),
            final(self).spec_next_token_id() == old(self).spec_next_token_id(),
            final(self).tokens_unchanged(*old(self)),
    {
        self.roles.set(account, role, true);
    }

    /// Revokes `role` from `account`; only the admin may.
    pub fn revoke_role(&mut self, caller: u64, account: u64, role: String)
        requires
            old(self).spec_admin() == Some(caller),
        ensures
            !final(self).spec_has_role(account, role@),
            forall|a: u64, r: Seq<char>|
                !(a == account && r == role@) ==> #[trigger] final(self).spec_has_role(a, r)
                    == old(self).spec_has_role(a, r),
            final(self).spec_admin() == old(self).spec_admin(),
            final(self).spec_name() == old(self).spec_name(),
            final(self).spec_symbol() == old(self).spec_symbol(),
            final(self).spec_next_token_id() == old(self).spec_next_token_id(),
            final(self).tokens_unchanged(*old(self)),
    {
        self.roles.set(account, role, false);
    }

    /// Mints the next token to `to` and stores its metadata; only a holder
    /// of the minter role or the admin may. Returns the token id.
    pub fn mint(&mut self, caller: u64, to: u64, metadata: Vec<u8>) -> (token_id: u64)
        requires
            old(self).spec_initialized(),
            old(self).spec_has_role(caller, "minter"@) || old(self).spec_admin() == Some(caller),
            old(self).spec_next_token_id() < u64::MAX,
        ensures
            token_id == old(self).spec_next_token_id(),
            final(self).spec_next_token_id() == token_id + 1,
            final(self).spec_token_owner(token_id) == Some(to),
            final(self).spec_token_metadata(token_id) == Some(metadata@),
            forall|t: u64|
                t != token_id ==> #[trigger] final(self).spec_token_owner(t) == old(
                    self,
                ).spec_token_owner(t),
            forall|t: u64|
                t != token_id ==> #[trigger] final(self).spec_token_metadata(t) == old(
                    self,
                ).spec_token_metadata(t),
            final(self).roles_unchanged(*old(self)),
            final(self).spec_admin() == old(self).spec_admin(),
            final(self).spec_name() == old(self).spec_name(),
            final(self).spec_symbol() == old(self).spec_symbol(),
    {
        let token_id = self.next_token;
        self.owners.set(token_id, Some(to));
        self.metadata.set(token_id, Some(metadata));
        self.next_token = token_id + 1;
        token_id
    }

    /// Burns a minted token: removes its owner and metadata, leaving a
    /// tombstone. Only a holder of the burner role, the admin, or the
    /// token's owner may.
    pub fn burn(&mut self, caller: u64, token_id: u64)
        requires
            old(self).spec_initialized(),
            old(self).spec_token_owner(token_id) is Some,
            old(self).spec_has_role(caller, "burner"@) || old(self).spec_admin() == Some(caller)
                || old(self).spec_token_owner(token_id) == Some(caller),
        ensures
            final(self).spec_token_owner(token_id) is None,
            final(self).spec_token_metadata(token_id) is None,
            forall|t: u64|
                t != token_id ==> #[trigger] final(self).spec_token_owner(t) == old(
                    self,
                ).spec_token_owner(t),
            forall|t: u64|
                t != token_id ==> #[trigger] final(self).spec_token_metadata(t) == old(
                    self,
                ).spec_token_metadata(t),
            final(self).roles_unchanged(*old(self)),
            final(self).spec_admin() == old(self).spec_admin(),
            final(self).spec_name() == old(self).spec_name(),
            final(self).spec_symbol() == old(self).spec_symbol(),
            final(self).spec_next_token_id() == old(self).spec_next_token_id(),
    {
        self.owners.set(token_id, None);
        self.metadata.set(token_id, None);
    }

    /// The owner of a minted token.
    pub fn owner_of(&self, token_id: u64) -> (r: u64)
        requires
            self.spec_token_owner(token_id) is Some,
        ensures
            Some(r) == self.spec_token_owner(token_id),
    {
        match self.owners.get(token_id) {
            Some(o) => match o {
                Some(owner) => *owner,
                None => 0,
            },
            None => 0,
        }
    }

    /// The metadata of a minted token.
    pub fn token_metadata(&self, token_id: u64) -> (r: Vec<u8>)
        requires
            self.spec_token_metadata(token_id) is Some,
        ensures
            Some(r@) == self.spec_token_metadata(token_id),
    {
        match self.metadata.get(token_id) {
            Some(m) => match m {
                Some(b) => clone_bytes(b),
                None => Vec::new(),
            },
            None => Vec::new(),
        }
    }

    /// The contract name.
    pub fn name(&self) -> (r: String)
        requires
            self.spec_initialized(),
        ensures
            r@ == self.spec_name(),
    {
        self.name.clone()
    }

    /// The contract symbol.
    pub fn symbol(&self) -> (r: String)
        requires
            self.spec_initialized(),
        ensures
            r@ == self.spec_symbol(),
    {
        self.symbol.clone()
    }

    /// The id the next minted token receives.
    pub fn next_token_id(&self) -> (r: u64)
        ensures
            r == self.spec_next_token_id(),
    {
        self.next_token
    }
}

} // verus!
