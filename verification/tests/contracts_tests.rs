use ledger_contracts::access_nft::AccessControlNFT;
use ledger_contracts::blocklist::BlocklistToken;
use ledger_contracts::counter::OwnableCounter;
use ledger_contracts::hello::HelloContract;
use ledger_contracts::lsp::LspTest;
use ledger_contracts::multi_token::MultiExtensionToken;
use ledger_contracts::pausable::PausableToken;
use ledger_contracts::roles::RoleTable;
use ledger_contracts::simple_token::TokenContract;
use ledger_contracts::table::Table;
use ledger_contracts::voting::{Vote, VotingContract};

#[test]
fn test_ownable_functionality() {
    let mut client = OwnableCounter::new();

    let owner: u64 = 1;
    let new_owner: u64 = 2;

    // Initialize contract
    client.initialize(owner);
    assert_eq!(client.owner(), owner);
    assert_eq!(client.get_counter(), 0);

    // Test owner operations
    client.increment(owner);
    assert_eq!(client.get_counter(), 1);

    client.decrement(owner);
    assert_eq!(client.get_counter(), 0);

    client.set_counter(owner, 42);
    assert_eq!(client.get_counter(), 42);

    client.reset(owner);
    assert_eq!(client.get_counter(), 0);

    // Test ownership transfer
    client.transfer_ownership(owner, new_owner);
    assert_eq!(client.owner(), new_owner);
}

#[test]
fn test_blocklist_functionality() {
    let mut client = BlocklistToken::new();

    let admin: u64 = 1;
    let user1: u64 = 2;
    let user2: u64 = 3;

    // Initialize token
    client.initialize(admin, "BlockToken".to_string(), "BLT".to_string(), 18, 1000000);

    // Test blocklist
    assert!(!client.blocked(user1));

    // Block user1
    client.block_user(admin, user1);
    assert!(client.blocked(user1));

    // Test successful transfer (admin to user2)
    client.transfer(admin, user2, 1000);
    assert_eq!(client.balance(user2), 1000);

    // Unblock user1
    client.unblock_user(admin, user1);
    assert!(!client.blocked(user1));
}

#[test]
fn test_pausable_functionality() {
    let mut client = PausableToken::new();

    let admin: u64 = 1;
    let user1: u64 = 2;

    // Initialize token
    client.initialize(admin, "PauseToken".to_string(), "PST".to_string(), 18, 1000000);

    // Test initial state
    assert!(!client.paused());

    // Test transfer when not paused
    client.transfer(admin, user1, 1000);
    assert_eq!(client.balance(user1), 1000);

    // Pause contract
    client.pause(admin);
    assert!(client.paused());

    // Unpause contract
    client.unpause(admin);
    assert!(!client.paused());
}

#[test]
fn test_access_control_nft() {
    let mut client = AccessControlNFT::new();

    let admin: u64 = 1;
    let minter: u64 = 2;
    let user: u64 = 3;

    // Initialize contract
    client.initialize(admin, "AccessNFT".to_string(), "ANFT".to_string());

    // Test role management
    assert!(!client.has_role(minter, "minter".to_string()));

    client.grant_role(admin, minter, "minter".to_string());
    assert!(client.has_role(minter, "minter".to_string()));

    // Test NFT minting
    let metadata = vec![1u8, 2, 3];
    let token_id = client.mint(minter, user, metadata);
    assert_eq!(token_id, 1);
    assert_eq!(client.owner_of(token_id), user);

    // Test role revocation
    client.revoke_role(admin, minter, "minter".to_string());
    assert!(!client.has_role(minter, "minter".to_string()));
}

#[test]
fn test_multi_extension_token() {
    let mut client = MultiExtensionToken::new();

    let admin: u64 = 1;
    let user1: u64 = 2;
    let user2: u64 = 3;

    // Initialize token
    client.initialize(admin, "MultiToken".to_string(), "MT".to_string(), 18, 1000000);

    // Test role-based access
    assert!(client.has_role(admin, "minter".to_string()));

    // Test allowlist
    assert!(client.allowed(admin));
    assert!(!client.allowed(user1));

    client.allow_user(admin, user1);
    assert!(client.allowed(user1));

    // Test pausable
    assert!(!client.paused());
    client.pause(admin);
    assert!(client.paused());

    client.unpause(admin);
    assert!(!client.paused());

    // Test multi-pattern transfer
    client.allow_user(admin, user2);
    client.transfer(admin, user1, 1000);
    assert_eq!(client.balance(user1), 1000);
}

#[test]
fn test_lsp_contract_functionality() {
    let mut client = LspTest::new();

    let owner: u64 = 1;
    let user1: u64 = 2;

    // Initialize contract
    client.initialize(owner);
    assert_eq!(client.owner(), owner);
    assert!(!client.paused());

    // Test role management
    assert!(client.has_role(owner, "admin".to_string()));

    client.grant_role(owner, user1, "admin".to_string());
    assert!(client.has_role(user1, "admin".to_string()));

    // Test pausable functionality
    client.pause(owner);
    assert!(client.paused());

    client.unpause(owner);
    assert!(!client.paused());

    // Test counter
    client.increment_counter(owner);
    assert_eq!(client.counter(), 1);

    // Test data storage
    let test_data = vec![1u8, 2, 3, 4];
    client.store_test_data(owner, 123, test_data.clone());
    assert_eq!(client.get_test_data(123), Some(test_data));

    // Test user info
    let user_info = client.get_user_info(owner);
    assert_eq!(user_info[0], ("balance".to_string(), 0));
    assert_eq!(user_info[1], ("is_admin".to_string(), 1));
}

#[test]
fn hello_greets_the_same_whoever_asks() {
    assert_eq!(HelloContract::hello("World".to_string()), "Hello");
    assert_eq!(HelloContract::hello(String::new()), "Hello");
}

#[test]
fn simple_token_transfers_without_a_cover_check() {
    let mut t = TokenContract::new();
    t.initialize(1, 7, "Tok".to_string(), "TK".to_string());
    assert_eq!(t.balance(2), 0);
    // No cover check: the sender's balance goes negative.
    t.transfer(2, 3, 50);
    assert_eq!(t.balance(2), -50);
    assert_eq!(t.balance(3), 50);
    t.mint(1, 2, 100);
    assert_eq!(t.balance(2), 50);
}

#[test]
fn simple_token_self_transfer_credits_over_the_stale_debit() {
    let mut t = TokenContract::new();
    t.initialize(1, 7, "Tok".to_string(), "TK".to_string());
    t.mint(1, 2, 100);
    // The credit is computed from the balance read before the debit was
    // written, so a self-transfer adds the amount.
    t.transfer(2, 2, 10);
    assert_eq!(t.balance(2), 110);
}

#[test]
fn voting_runs_a_proposal_through_its_life() {
    let mut v = VotingContract::new();
    let id = v.create_proposal(1, "upgrade".to_string(), vec![9u8, 9], 100, 0);
    assert_eq!(id, 1);
    let p = v.get_proposal(id);
    assert_eq!(p.id, 1);
    assert_eq!(p.title, "upgrade");
    assert_eq!(p.description, vec![9u8, 9]);
    assert_eq!(p.creator, 1);
    assert_eq!(p.end_time, 100);
    assert!(!p.executed);

    v.vote(10, id, Vote::For, 50);
    v.vote(11, id, Vote::For, 60);
    v.vote(12, id, Vote::Against, 70);
    let p = v.get_proposal(id);
    assert_eq!(p.votes_for, 2);
    assert_eq!(p.votes_against, 1);

    v.execute_proposal(id, 101);
    assert!(v.get_proposal(id).executed);
}

#[test]
fn voting_assigns_rising_ids() {
    let mut v = VotingContract::new();
    assert_eq!(v.create_proposal(1, "a".to_string(), vec![], 10, 0), 1);
    assert_eq!(v.create_proposal(2, "b".to_string(), vec![], 10, 0), 2);
    assert_eq!(v.get_proposal(2).title, "b");
}

#[test]
fn table_reads_the_latest_write() {
    let mut t: Table<i128> = Table::new();
    assert_eq!(t.get(5), None);
    t.set(5, 10);
    t.set(6, 20);
    t.set(5, 30);
    assert_eq!(t.get(5), Some(&30));
    assert_eq!(t.get(6), Some(&20));
    assert_eq!(t.get_or(7, -1), -1);
}

#[test]
fn role_table_tracks_grants_and_revocations() {
    let mut r = RoleTable::new();
    assert!(!r.has_role(1, &"minter".to_string()));
    r.set(1, "minter".to_string(), true);
    assert!(r.has_role(1, &"minter".to_string()));
    assert!(!r.has_role(1, &"burner".to_string()));
    assert!(!r.has_role(2, &"minter".to_string()));
    r.set(1, "minter".to_string(), false);
    assert!(!r.has_role(1, &"minter".to_string()));
}

#[test]
fn lsp_bulk_transfer_credits_each_recipient_in_order() {
    let mut c = LspTest::new();
    c.initialize(1);
    let funder: u64 = 9;
    let a: u64 = 5;
    let b: u64 = 6;
    // A negative amount is "covered" by a zero balance and credits the
    // sender: the contract checks the total against the balance but never
    // the amounts' signs, so this is how a balance first arises.
    c.bulk_transfer(funder, vec![a], vec![-1000]);
    assert_eq!(c.balance(funder), 1000);
    assert_eq!(c.balance(a), -1000);
    c.bulk_transfer(funder, vec![a, b, a], vec![600, 300, 100]);
    assert_eq!(c.balance(funder), 0);
    assert_eq!(c.balance(a), -300);
    assert_eq!(c.balance(b), 300);
}

#[test]
fn lsp_transfer_and_emergency_withdraw() {
    let mut c = LspTest::new();
    c.initialize(1);
    c.bulk_transfer(7, vec![8], vec![-40]);
    assert_eq!(c.balance(7), 40);
    c.transfer_when_not_paused(7, 2, 15);
    assert_eq!(c.balance(7), 25);
    assert_eq!(c.balance(2), 15);
    c.pause(1);
    assert_eq!(c.emergency_withdraw_when_paused(1, 7), 25);
    assert_eq!(c.balance(7), 0);
}
