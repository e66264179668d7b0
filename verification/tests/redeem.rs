use mount_breed::account::{Account, Slot};
use mount_breed::address::{
    metadata_address, metadata_program, new_cooldown_address, new_escrow_address, vault_authority,
};
use mount_breed::config::ProtocolConfig;
use mount_breed::error::EscrowError;
use mount_breed::identity::Identity;
use mount_breed::instructions::redeem::{assert_whitelisted, check_reward, handler};
use mount_breed::ledger::TokenAccount;
use mount_breed::provenance::MetadataAccount;
use mount_breed::{genesis, initialize, redeem, Data, EscrowAccount, Genesis, Initialize, Redeem};

const DEPOSITOR: u8 = 1;
const DEPOSIT_ACCOUNT: u8 = 2;
const DEPOSIT_TOKEN: u8 = 3;
const REWARD_TOKEN: u8 = 4;
const CREATOR_A: u8 = 7;
const CREATOR_B: u8 = 8;
const MOUNT_A: u8 = 10;
const MOUNT_B: u8 = 11;
const USER: u8 = 50;
const COST: u64 = 200 * 1_000_000_000;
const NOW: i64 = 1_700_000_000;

fn id(byte: u8) -> Identity {
    Identity::new([byte; 32])
}

fn program() -> Identity {
    id(42)
}

fn holding(key: u8, mint: u8, owner: u8, amount: u64) -> Account<TokenAccount> {
    Account { key: id(key), data: TokenAccount { mint: id(mint), owner: id(owner), amount } }
}

fn text(out: &mut Vec<u8>, value: &str) {
    out.extend_from_slice(&(value.len() as u32).to_le_bytes());
    out.extend_from_slice(value.as_bytes());
}

/// A metadata record as the registry lays it out, padded to its fixed size.
fn record(mint: &Identity, creators: &[(u8, bool)]) -> Vec<u8> {
    let mut out = vec![4u8];
    out.extend_from_slice(&[9u8; 32]);
    out.extend_from_slice(&mint.to_bytes());
    text(&mut out, "Mount");
    text(&mut out, "MNT");
    text(&mut out, "https://mounts.invalid/1.json");
    out.extend_from_slice(&500u16.to_le_bytes());
    out.push(1);
    out.extend_from_slice(&(creators.len() as u32).to_le_bytes());
    for (byte, verified) in creators {
        out.extend_from_slice(&[*byte; 32]);
        out.push(*verified as u8);
        out.push(20);
    }
    out.extend_from_slice(&[0, 1, 0]);
    out.resize(metaplex_token_metadata::state::MAX_METADATA_LEN, 0);
    out
}

fn metadata(mint: u8, creators: &[(u8, bool)]) -> MetadataAccount {
    let registry = metadata_program().expect("valid");
    let (key, _) = metadata_address(&id(mint), &registry).expect("found");
    MetadataAccount { key, owner: registry, data: record(&id(mint), creators) }
}

/// The vault and the escrow record of an escrow that a genesis opened.
fn opened() -> (Account<TokenAccount>, Account<EscrowAccount>) {
    let (_, bump) = new_escrow_address(&program()).expect("found");
    let mut accounts = Genesis {
        initializer: id(DEPOSITOR),
        mint: id(DEPOSIT_TOKEN),
        vault_account: Slot::Vacant,
        escrow_account: Slot::Vacant,
        initializer_deposit_token_account: holding(DEPOSIT_ACCOUNT, DEPOSIT_TOKEN, DEPOSITOR, 2202),
        mint_mtm: id(REWARD_TOKEN),
        creator_a: id(CREATOR_A),
        creator_b: id(CREATOR_B),
    };
    assert_eq!(genesis(&program(), &mut accounts, 0, bump), Ok(()));
    match (accounts.vault_account, accounts.escrow_account) {
        (Slot::Occupied(vault), Slot::Occupied(escrow)) => (vault, escrow),
        _ => panic!("the vault and the record exist"),
    }
}

/// The cooldown record that an initialize creates for a mount.
fn fresh(mint: u8, token_account: u8) -> Account<Data> {
    let (_, bump) = new_cooldown_address(&id(mint), &program()).expect("found");
    let mut accounts = Initialize {
        user: id(USER),
        mount_data_account: Slot::Vacant,
        mount_mint_account: id(mint),
        mount_token_account: holding(token_account, mint, USER, 1),
    };
    assert_eq!(initialize(&program(), &mut accounts, bump), Ok(()));
    match accounts.mount_data_account {
        Slot::Occupied(record) => record,
        _ => panic!("the record exists"),
    }
}

/// Accounts with which a redeem succeeds.
fn accounts() -> Redeem {
    let (vault, escrow) = opened();
    let (authority, _) = vault_authority(&program()).expect("found");
    Redeem {
        user: id(USER),
        mount_data_account_a: fresh(MOUNT_A, 20),
        mount_data_account_b: fresh(MOUNT_B, 21),
        user_mount_mint_account_a: id(MOUNT_A),
        user_mount_token_account_a: holding(20, MOUNT_A, USER, 1),
        metadata_mount_a: metadata(MOUNT_A, &[(CREATOR_A, true)]),
        user_mount_mint_account_b: id(MOUNT_B),
        user_mount_token_account_b: holding(21, MOUNT_B, USER, 1),
        metadata_mount_b: metadata(MOUNT_B, &[(99, true), (CREATOR_B, true)]),
        user_custom_token_account: holding(30, DEPOSIT_TOKEN, USER, 0),
        user_mtm_token_account: holding(31, REWARD_TOKEN, USER, COST),
        vault_account: vault,
        escrow_account: escrow,
        mint_mtm: id(REWARD_TOKEN),
        vault_authority: authority,
    }
}

fn refused(accounts: Redeem, now: i64, error: EscrowError) {
    let mut tried = accounts.clone();
    assert_eq!(redeem(&program(), &mut tried, now), Err(error));
    assert_eq!(tried, accounts);
}

#[test]
fn end_to_end() {
    let mut accounts = accounts();
    assert_eq!(accounts.vault_account.data.amount, 2202);
    assert_eq!(accounts.mount_data_account_a.data.count, 0);
    assert_eq!(accounts.mount_data_account_b.data.count, 0);
    let before = accounts.clone();

    assert_eq!(redeem(&program(), &mut accounts, NOW), Ok(()));
    assert_eq!(accounts.vault_account.data.amount, 2201);
    assert_eq!(accounts.user_custom_token_account.data.amount, 1);
    assert_eq!(accounts.user_mtm_token_account.data.amount, 0);
    assert_eq!(accounts.mount_data_account_a.data.count, 1);
    assert_eq!(accounts.mount_data_account_b.data.count, 1);
    assert_eq!(accounts.mount_data_account_a.data.timestamp, NOW);
    assert_eq!(accounts.mount_data_account_b.data.timestamp, NOW);

    let expected = Redeem {
        mount_data_account_a: Account {
            key: before.mount_data_account_a.key,
            data: Data { count: 1, bump: before.mount_data_account_a.data.bump, timestamp: NOW },
        },
        mount_data_account_b: Account {
            key: before.mount_data_account_b.key,
            data: Data { count: 1, bump: before.mount_data_account_b.data.bump, timestamp: NOW },
        },
        user_custom_token_account: holding(30, DEPOSIT_TOKEN, USER, 1),
        user_mtm_token_account: holding(31, REWARD_TOKEN, USER, 0),
        vault_account: Account {
            data: TokenAccount { amount: 2201, ..before.vault_account.data },
            ..before.vault_account
        },
        ..before
    };
    assert_eq!(accounts, expected);

    accounts.user_mtm_token_account.data.amount = COST;
    let after = accounts.clone();
    assert_eq!(redeem(&program(), &mut accounts, NOW), Err(EscrowError::CooldownNotElapsed));
    assert_eq!(accounts, after);
}

#[test]
fn a_second_redeem_within_the_cooldown_is_refused() {
    let mut accounts = accounts();
    accounts.user_mtm_token_account.data.amount = 10 * COST;
    assert_eq!(redeem(&program(), &mut accounts, NOW), Ok(()));
    refused(accounts.clone(), NOW + 1, EscrowError::CooldownNotElapsed);
    refused(accounts.clone(), NOW + 60, EscrowError::CooldownNotElapsed);
    refused(accounts.clone(), NOW - 1, EscrowError::CooldownNotElapsed);
    assert_eq!(redeem(&program(), &mut accounts, NOW + 61), Ok(()));
    assert_eq!(accounts.mount_data_account_a.data, Data {
        count: 2,
        bump: accounts.mount_data_account_a.data.bump,
        timestamp: NOW + 61,
    });
    assert_eq!(accounts.vault_account.data.amount, 2200);
    assert_eq!(accounts.user_custom_token_account.data.amount, 2);
    assert_eq!(accounts.user_mtm_token_account.data.amount, 8 * COST);
}

#[test]
fn a_rested_mount_with_a_tired_partner_is_refused() {
    let mut accounts = accounts();
    accounts.user_mtm_token_account.data.amount = 10 * COST;
    assert_eq!(redeem(&program(), &mut accounts, NOW), Ok(()));
    accounts.mount_data_account_a = fresh(MOUNT_A, 20);
    refused(accounts.clone(), NOW + 60, EscrowError::CooldownNotElapsed);
    let mut swapped = accounts.clone();
    swapped.mount_data_account_a = accounts.mount_data_account_b;
    swapped.mount_data_account_b = accounts.mount_data_account_a;
    swapped.user_mount_mint_account_a = id(MOUNT_B);
    swapped.user_mount_mint_account_b = id(MOUNT_A);
    swapped.user_mount_token_account_a = accounts.user_mount_token_account_b;
    swapped.user_mount_token_account_b = accounts.user_mount_token_account_a;
    swapped.metadata_mount_a = accounts.metadata_mount_b.clone();
    swapped.metadata_mount_b = accounts.metadata_mount_a.clone();
    refused(swapped, NOW + 60, EscrowError::CooldownNotElapsed);
}

#[test]
fn five_redemptions_and_no_more() {
    let mut accounts = accounts();
    accounts.user_mtm_token_account.data.amount = 10 * COST;
    for round in 0..5 {
        assert_eq!(redeem(&program(), &mut accounts, NOW + 61 * round), Ok(()));
    }
    assert_eq!(accounts.mount_data_account_a.data.count, 5);
    assert_eq!(accounts.mount_data_account_b.data.count, 5);
    assert_eq!(accounts.vault_account.data.amount, 2197);
    assert_eq!(accounts.user_custom_token_account.data.amount, 5);
    assert_eq!(accounts.user_mtm_token_account.data.amount, 5 * COST);
    refused(accounts.clone(), NOW + 61 * 5, EscrowError::UsageCapExceeded);
    refused(accounts.clone(), NOW + 61 * 4, EscrowError::UsageCapExceeded);
    refused(accounts.clone(), i64::MAX, EscrowError::UsageCapExceeded);
}

#[test]
fn a_used_up_mount_in_either_place_is_refused() {
    let mut first = accounts();
    first.mount_data_account_a.data.count = 5;
    refused(first, NOW, EscrowError::UsageCapExceeded);
    let mut second = accounts();
    second.mount_data_account_b.data.count = 5;
    refused(second, NOW, EscrowError::UsageCapExceeded);
    let mut four = accounts();
    four.mount_data_account_a.data.count = 4;
    four.mount_data_account_b.data.count = 4;
    assert_eq!(redeem(&program(), &mut four, NOW), Ok(()));
    assert_eq!(four.mount_data_account_a.data.count, 5);
}

#[test]
fn one_mount_named_twice_is_refused() {
    let mut twice = accounts();
    twice.user_mount_mint_account_b = twice.user_mount_mint_account_a;
    twice.user_mount_token_account_b = twice.user_mount_token_account_a;
    twice.mount_data_account_b = twice.mount_data_account_a;
    twice.metadata_mount_b = twice.metadata_mount_a.clone();
    refused(twice, NOW, EscrowError::DuplicateNftReference);
}

#[test]
fn one_mount_named_twice_is_refused_before_anything_else() {
    let mut twice = accounts();
    twice.user_mount_mint_account_b = twice.user_mount_mint_account_a;
    twice.mount_data_account_a.data.count = 5;
    twice.mount_data_account_b.data.timestamp = NOW;
    twice.user_mtm_token_account.data.amount = 0;
    twice.vault_authority = id(99);
    refused(twice, NOW, EscrowError::DuplicateNftReference);
}

#[test]
fn a_mount_without_a_whitelisted_creator_is_refused() {
    let mut unverified = accounts();
    unverified.metadata_mount_a = metadata(MOUNT_A, &[(CREATOR_A, false)]);
    refused(unverified, NOW, EscrowError::CreatorNotWhitelisted);

    let mut stranger = accounts();
    stranger.metadata_mount_b = metadata(MOUNT_B, &[(99, true), (98, true)]);
    refused(stranger, NOW, EscrowError::CreatorNotWhitelisted);

    let mut nobody = accounts();
    nobody.metadata_mount_a = metadata(MOUNT_A, &[]);
    refused(nobody, NOW, EscrowError::CreatorNotWhitelisted);

    let mut both = accounts();
    both.metadata_mount_a = metadata(MOUNT_A, &[(CREATOR_A, false), (CREATOR_B, false)]);
    both.metadata_mount_b = metadata(MOUNT_B, &[(CREATOR_A, false), (CREATOR_B, false)]);
    refused(both, NOW, EscrowError::CreatorNotWhitelisted);
}

#[test]
fn one_verified_whitelisted_creator_is_enough() {
    let mut same_creator = accounts();
    same_creator.metadata_mount_a = metadata(MOUNT_A, &[(CREATOR_B, true)]);
    same_creator.metadata_mount_b = metadata(MOUNT_B, &[(99, false), (CREATOR_B, true)]);
    assert_eq!(redeem(&program(), &mut same_creator, NOW), Ok(()));

    let mut among_others = accounts();
    among_others.metadata_mount_a =
        metadata(MOUNT_A, &[(CREATOR_B, false), (99, true), (CREATOR_A, true), (98, false)]);
    assert_eq!(redeem(&program(), &mut among_others, NOW), Ok(()));
    assert_eq!(assert_whitelisted(&among_others), Ok(()));
}

#[test]
fn forged_metadata_is_refused() {
    let mut other_owner = accounts();
    other_owner.metadata_mount_a.owner = id(USER);
    refused(other_owner, NOW, EscrowError::InvalidProvenance);

    let mut other_address = accounts();
    other_address.metadata_mount_b.key = id(97);
    refused(other_address, NOW, EscrowError::InvalidProvenance);

    let mut of_the_other_mount = accounts();
    of_the_other_mount.metadata_mount_a = metadata(MOUNT_B, &[(CREATOR_A, true)]);
    refused(of_the_other_mount, NOW, EscrowError::InvalidProvenance);

    let mut garbage = accounts();
    garbage.metadata_mount_b.data = vec![4u8; 10];
    refused(garbage, NOW, EscrowError::InvalidProvenance);

    let mut forged_and_unlisted = accounts();
    forged_and_unlisted.metadata_mount_a = metadata(MOUNT_A, &[]);
    forged_and_unlisted.metadata_mount_b.owner = id(USER);
    assert_eq!(assert_whitelisted(&forged_and_unlisted), Err(EscrowError::InvalidProvenance));
}

#[test]
fn the_caller_must_hold_both_mounts() {
    let mut none = accounts();
    none.user_mount_token_account_a.data.amount = 0;
    refused(none, NOW, EscrowError::Unauthorized);
    let mut two = accounts();
    two.user_mount_token_account_b.data.amount = 2;
    refused(two, NOW, EscrowError::Unauthorized);
    let mut another_s = accounts();
    another_s.user_mount_token_account_a.data.owner = id(51);
    refused(another_s, NOW, EscrowError::Unauthorized);
    let mut other_token = accounts();
    other_token.user_mount_token_account_b.data.mint = id(MOUNT_A);
    refused(other_token, NOW, EscrowError::AccountMismatch);
}

#[test]
fn the_reward_must_cover_the_cost() {
    let mut short = accounts();
    short.user_mtm_token_account.data.amount = COST - 1;
    refused(short, NOW, EscrowError::InsufficientRewardBalance);
    let mut nothing = accounts();
    nothing.user_mtm_token_account.data.amount = 0;
    refused(nothing, NOW, EscrowError::InsufficientRewardBalance);
    let mut more = accounts();
    more.user_mtm_token_account.data.amount = COST + 5;
    assert_eq!(redeem(&program(), &mut more, NOW), Ok(()));
    assert_eq!(more.user_mtm_token_account.data.amount, 5);
}

#[test]
fn the_reward_must_be_the_escrow_s() {
    let mut other_holding = accounts();
    other_holding.user_mtm_token_account.data.mint = id(DEPOSIT_TOKEN);
    refused(other_holding, NOW, EscrowError::AccountMismatch);
    let mut other_token = accounts();
    other_token.mint_mtm = id(DEPOSIT_TOKEN);
    refused(other_token.clone(), NOW, EscrowError::AccountMismatch);
    assert_eq!(
        check_reward(&program(), &ProtocolConfig::standard(), &other_token),
        Err(EscrowError::AccountMismatch)
    );
    let mut forged_escrow = accounts();
    forged_escrow.escrow_account.key = id(96);
    refused(forged_escrow, NOW, EscrowError::AccountMismatch);
    let mut other_bump = accounts();
    other_bump.escrow_account.data.bump = other_bump.escrow_account.data.bump.wrapping_sub(1);
    refused(other_bump, NOW, EscrowError::AccountMismatch);
    let mut one_account = accounts();
    one_account.user_custom_token_account.key = one_account.user_mtm_token_account.key;
    refused(one_account, NOW, EscrowError::AccountMismatch);
}

#[test]
fn the_payout_account_must_be_the_caller_s() {
    let mut another_s = accounts();
    another_s.user_custom_token_account.data.owner = id(51);
    refused(another_s, NOW, EscrowError::Unauthorized);
}

#[test]
fn the_record_must_be_the_mount_s() {
    let mut swapped = accounts();
    swapped.mount_data_account_a = fresh(MOUNT_B, 21);
    swapped.mount_data_account_b = fresh(MOUNT_A, 20);
    refused(swapped, NOW, EscrowError::AccountMismatch);
    let mut of_a_third = accounts();
    of_a_third.mount_data_account_b = fresh(12, 22);
    refused(of_a_third, NOW, EscrowError::AccountMismatch);
}

#[test]
fn only_the_derived_authority_moves_the_vault() {
    let mut the_caller = accounts();
    the_caller.vault_authority = id(USER);
    refused(the_caller, NOW, EscrowError::AuthorizationFailure);

    let mut the_caller_s_vault = accounts();
    the_caller_s_vault.vault_authority = id(USER);
    the_caller_s_vault.vault_account.data.owner = id(USER);
    refused(the_caller_s_vault, NOW, EscrowError::AuthorizationFailure);

    let mut not_the_vault_s = accounts();
    not_the_vault_s.vault_account.data.owner = id(DEPOSITOR);
    refused(not_the_vault_s, NOW, EscrowError::AuthorizationFailure);
}

#[test]
fn the_ledger_must_make_both_moves() {
    let mut empty = accounts();
    empty.vault_account.data.amount = 0;
    refused(empty, NOW, EscrowError::AuthorizationFailure);

    let mut other_token = accounts();
    other_token.user_custom_token_account.data.mint = id(REWARD_TOKEN);
    refused(other_token, NOW, EscrowError::AuthorizationFailure);

    let mut no_room = accounts();
    no_room.user_custom_token_account.data.amount = u64::MAX;
    refused(no_room, NOW, EscrowError::AuthorizationFailure);

    let mut into_the_vault = accounts();
    into_the_vault.user_custom_token_account.key = into_the_vault.vault_account.key;
    refused(into_the_vault, NOW, EscrowError::AuthorizationFailure);

    let mut another_s_reward = accounts();
    another_s_reward.user_mtm_token_account.data.owner = id(51);
    refused(another_s_reward, NOW, EscrowError::AuthorizationFailure);

    let mut last_unit = accounts();
    last_unit.vault_account.data.amount = 1;
    assert_eq!(redeem(&program(), &mut last_unit, NOW), Ok(()));
    assert_eq!(last_unit.vault_account.data.amount, 0);
}

#[test]
fn a_fresh_record_must_rest_from_time_zero() {
    refused(accounts(), 60, EscrowError::CooldownNotElapsed);
    refused(accounts(), 0, EscrowError::CooldownNotElapsed);
    let mut rested = accounts();
    assert_eq!(redeem(&program(), &mut rested, 61), Ok(()));
    assert_eq!(rested.mount_data_account_a.data.timestamp, 61);
}

#[test]
fn redeem_under_other_parameters() {
    let config = ProtocolConfig {
        deposit_minimum: 2202,
        cooldown_seconds: 5,
        max_uses: 2,
        reward_cost: 10,
        payout: 100,
    };
    let mut accounts = accounts();
    accounts.user_mtm_token_account.data.amount = 25;
    assert_eq!(handler(&program(), &config, &mut accounts, NOW), Ok(()));
    assert_eq!(accounts.vault_account.data.amount, 2102);
    assert_eq!(accounts.user_custom_token_account.data.amount, 100);
    assert_eq!(accounts.user_mtm_token_account.data.amount, 15);
    assert_eq!(handler(&program(), &config, &mut accounts, NOW + 5), Err(EscrowError::CooldownNotElapsed));
    assert_eq!(handler(&program(), &config, &mut accounts, NOW + 6), Ok(()));
    assert_eq!(accounts.user_mtm_token_account.data.amount, 5);
    assert_eq!(accounts.mount_data_account_b.data.count, 2);
    assert_eq!(handler(&program(), &config, &mut accounts, NOW + 12), Err(EscrowError::UsageCapExceeded));
}
