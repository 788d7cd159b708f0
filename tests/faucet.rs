use std::collections::HashMap;

use anchor_faucet::address::{
    control_address_matches, control_signer_seeds, find_control_address, keys_equal, Key,
};
use anchor_faucet::faucet::{drip, initialize, Config, Drip, FaucetError, Initialize, MintTo};

const PROGRAM: Key = [7u8; 32];
const ADMIN: Key = [1u8; 32];
const OTHER: Key = [2u8; 32];
const MINT: Key = [3u8; 32];
const OTHER_MINT: Key = [4u8; 32];
const RECIPIENT: Key = [5u8; 32];
const BYSTANDER: Key = [6u8; 32];

/// A small stand-in for the token ledger, for driving scenarios.
struct TestLedger {
    authority: HashMap<Key, Option<Key>>,
    supply: HashMap<Key, u64>,
    balance: HashMap<Key, u64>,
    account_mint: HashMap<Key, Key>,
}

impl TestLedger {
    fn new() -> Self {
        let mut l = TestLedger {
            authority: HashMap::new(),
            supply: HashMap::new(),
            balance: HashMap::new(),
            account_mint: HashMap::new(),
        };
        l.authority.insert(MINT, Some(ADMIN));
        l.supply.insert(MINT, 0);
        l.balance.insert(RECIPIENT, 0);
        l.account_mint.insert(RECIPIENT, MINT);
        l.balance.insert(BYSTANDER, 0);
        l.account_mint.insert(BYSTANDER, MINT);
        l
    }

    fn mint_to(&mut self, m: &MintTo) -> bool {
        if self.authority[&m.mint] != Some(m.authority) || self.account_mint[&m.to] != m.mint {
            return false;
        }
        let supply = match self.supply[&m.mint].checked_add(m.amount) {
            Some(s) => s,
            None => return false,
        };
        self.supply.insert(m.mint, supply);
        let b = self.balance[&m.to] + m.amount;
        self.balance.insert(m.to, b);
        true
    }
}

fn derived() -> (Key, u8) {
    find_control_address(&PROGRAM, &MINT).expect("a control address exists")
}

fn setup_ctx() -> Initialize {
    Initialize {
        program_id: PROGRAM,
        admin: ADMIN,
        admin_is_signer: true,
        mint: MINT,
        mint_authority: Some(ADMIN),
        config: derived().0,
        config_in_use: false,
    }
}

fn drip_ctx(caller: Key) -> Drip {
    let (config, bump) = derived();
    Drip {
        program_id: PROGRAM,
        admin: caller,
        admin_is_signer: true,
        mint: MINT,
        config,
        record: Config { admin: ADMIN, mint: MINT, bump },
        to: RECIPIENT,
        to_mint: MINT,
    }
}

#[test]
fn derivation_uses_control_label_and_mint() {
    let (address, bump) = derived();
    let program = anchor_lang::prelude::Pubkey::new_from_array(PROGRAM);
    let mint = anchor_lang::prelude::Pubkey::new_from_array(MINT);
    let (expected, expected_bump) =
        anchor_lang::prelude::Pubkey::find_program_address(&[b"control", mint.as_ref()], &program);
    assert_eq!(address, expected.to_bytes());
    assert_eq!(bump, expected_bump);
    assert_ne!(address, MINT);
    assert_ne!(address, PROGRAM);
}

#[test]
fn derivation_is_deterministic() {
    assert_eq!(find_control_address(&PROGRAM, &MINT), find_control_address(&PROGRAM, &MINT));
    assert_ne!(
        find_control_address(&PROGRAM, &MINT).unwrap().0,
        find_control_address(&PROGRAM, &OTHER_MINT).unwrap().0
    );
}

#[test]
fn rederivation_with_stored_bump_matches() {
    let (address, bump) = derived();
    assert!(control_address_matches(&PROGRAM, &MINT, bump, &address));
    assert!(!control_address_matches(&PROGRAM, &MINT, bump.wrapping_sub(1), &address));
    assert!(!control_address_matches(&PROGRAM, &OTHER_MINT, bump, &address));
    assert!(!control_address_matches(&PROGRAM, &MINT, bump, &OTHER));
}

#[test]
fn signer_seeds_are_label_mint_and_bump() {
    let seeds = control_signer_seeds(&MINT, 254);
    assert_eq!(seeds, vec![b"control".to_vec(), MINT.to_vec(), vec![254u8]]);
}

#[test]
fn keys_compare_by_bytes() {
    assert!(keys_equal(&ADMIN, &[1u8; 32]));
    let mut k = ADMIN;
    k[31] = 9;
    assert!(!keys_equal(&ADMIN, &k));
}

#[test]
fn record_layout_size() {
    assert_eq!(Config::SIZE, 65);
}

#[test]
fn setup_writes_record_and_hands_over_authority() {
    let (address, bump) = derived();
    let s = initialize(&setup_ctx()).expect("setup succeeds");
    assert_eq!(s.record, Config { admin: ADMIN, mint: MINT, bump });
    assert_eq!(s.authority_change.mint, MINT);
    assert_eq!(s.authority_change.current_authority, ADMIN);
    assert_eq!(s.authority_change.new_authority, address);
    assert_ne!(s.authority_change.new_authority, ADMIN);
}

#[test]
fn second_setup_fails_already_initialized() {
    let first = initialize(&setup_ctx()).expect("setup succeeds");
    let again = Initialize { config_in_use: true, ..setup_ctx() };
    assert_eq!(initialize(&again), Err(FaucetError::AlreadyInitialized));
    assert_eq!(first.record.admin, ADMIN);
}

#[test]
fn setup_rejects_unsigned_caller() {
    let ctx = Initialize { admin_is_signer: false, ..setup_ctx() };
    assert_eq!(initialize(&ctx), Err(FaucetError::Unauthorized));
}

#[test]
fn setup_rejects_caller_without_mint_authority() {
    let ctx = Initialize { mint_authority: Some(OTHER), ..setup_ctx() };
    assert_eq!(initialize(&ctx), Err(FaucetError::Unauthorized));
    let ctx = Initialize { mint_authority: None, ..setup_ctx() };
    assert_eq!(initialize(&ctx), Err(FaucetError::Unauthorized));
}

#[test]
fn setup_rejects_wrong_record_address() {
    let ctx = Initialize { config: OTHER, ..setup_ctx() };
    assert_eq!(initialize(&ctx), Err(FaucetError::AddressMismatch));
}

#[test]
fn drip_by_admin_builds_signed_mint() {
    let (address, bump) = derived();
    let m = drip(&drip_ctx(ADMIN), 100).expect("drip succeeds");
    assert_eq!(m.mint, MINT);
    assert_eq!(m.to, RECIPIENT);
    assert_eq!(m.authority, address);
    assert_eq!(m.amount, 100);
    assert_eq!(m.signer_seeds, vec![b"control".to_vec(), MINT.to_vec(), vec![bump]]);
}

#[test]
fn drip_by_other_caller_is_unauthorized() {
    assert_eq!(drip(&drip_ctx(OTHER), 50), Err(FaucetError::Unauthorized));
    let ctx = Drip { admin_is_signer: false, ..drip_ctx(ADMIN) };
    assert_eq!(drip(&ctx, 50), Err(FaucetError::Unauthorized));
}

#[test]
fn drip_into_other_mint_account_is_mismatch() {
    let ctx = Drip { to_mint: OTHER_MINT, ..drip_ctx(ADMIN) };
    assert_eq!(drip(&ctx, 10), Err(FaucetError::AccountMismatch));
}

#[test]
fn drip_rejects_substituted_record() {
    let ctx = Drip { config: OTHER, ..drip_ctx(ADMIN) };
    assert_eq!(drip(&ctx, 10), Err(FaucetError::AddressMismatch));
    let base = drip_ctx(ADMIN);
    let ctx = Drip {
        record: Config { bump: base.record.bump.wrapping_sub(1), ..base.record },
        ..base
    };
    assert_eq!(drip(&ctx, 10), Err(FaucetError::AddressMismatch));
    let ctx = Drip { record: Config { mint: OTHER_MINT, ..base.record }, ..base };
    assert_eq!(drip(&ctx, 10), Err(FaucetError::AddressMismatch));
}

#[test]
fn drip_of_zero_is_allowed() {
    let m = drip(&drip_ctx(ADMIN), 0).expect("drip succeeds");
    assert_eq!(m.amount, 0);
}

#[test]
fn admin_sets_up_drips_and_outsider_is_refused() {
    let mut ledger = TestLedger::new();
    let s = initialize(&setup_ctx()).expect("setup succeeds");
    let c = s.authority_change;
    assert_eq!(ledger.authority[&c.mint], Some(c.current_authority));
    ledger.authority.insert(c.mint, Some(c.new_authority));
    assert_eq!(ledger.authority[&MINT], Some(derived().0));

    let m = drip(&drip_ctx(ADMIN), 100).expect("admin drip succeeds");
    assert!(ledger.mint_to(&m));
    assert_eq!(ledger.balance[&RECIPIENT], 100);
    assert_eq!(ledger.supply[&MINT], 100);
    assert_eq!(ledger.balance[&BYSTANDER], 0);

    assert_eq!(drip(&drip_ctx(OTHER), 50), Err(FaucetError::Unauthorized));
    assert_eq!(ledger.balance[&RECIPIENT], 100);
    assert_eq!(ledger.supply[&MINT], 100);
}

#[test]
fn drip_past_supply_limit_is_refused_by_ledger() {
    let mut ledger = TestLedger::new();
    ledger.authority.insert(MINT, Some(derived().0));
    ledger.supply.insert(MINT, u64::MAX);
    let m = drip(&drip_ctx(ADMIN), 1).expect("drip succeeds");
    assert!(!ledger.mint_to(&m));
    assert_eq!(ledger.balance[&RECIPIENT], 0);
}
