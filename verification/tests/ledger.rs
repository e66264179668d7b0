use mount_breed::account::{Account, Slot};
use mount_breed::error::EscrowError;
use mount_breed::identity::Identity;
use mount_breed::ledger::{
    burn, close_account, set_authority, transfer, Burn, CloseAccount, SetAuthority, TokenAccount,
    Transfer,
};

fn id(byte: u8) -> Identity {
    Identity::new([byte; 32])
}

fn holding(key: u8, mint: u8, owner: u8, amount: u64) -> Account<TokenAccount> {
    Account { key: id(key), data: TokenAccount { mint: id(mint), owner: id(owner), amount } }
}

#[test]
fn transfer_moves_the_amount() {
    let mut from = holding(1, 9, 5, 100);
    let mut to = holding(2, 9, 6, 7);
    let accounts = Transfer { from: id(1), to: id(2), authority: id(5) };
    assert_eq!(transfer(&accounts, &id(5), &mut from, &mut to, 30), Ok(()));
    assert_eq!(from, holding(1, 9, 5, 70));
    assert_eq!(to, holding(2, 9, 6, 37));
}

#[test]
fn transfer_of_everything_and_of_nothing() {
    let mut from = holding(1, 9, 5, 100);
    let mut to = holding(2, 9, 6, 0);
    let accounts = Transfer { from: id(1), to: id(2), authority: id(5) };
    assert_eq!(transfer(&accounts, &id(5), &mut from, &mut to, 100), Ok(()));
    assert_eq!((from.data.amount, to.data.amount), (0, 100));
    assert_eq!(transfer(&accounts, &id(5), &mut from, &mut to, 0), Ok(()));
    assert_eq!((from.data.amount, to.data.amount), (0, 100));
}

#[test]
fn transfer_needs_the_owner_s_authority() {
    let mut from = holding(1, 9, 5, 100);
    let mut to = holding(2, 9, 6, 7);
    let not_owner = Transfer { from: id(1), to: id(2), authority: id(6) };
    assert_eq!(
        transfer(&not_owner, &id(6), &mut from, &mut to, 30),
        Err(EscrowError::AuthorizationFailure)
    );
    let not_signed = Transfer { from: id(1), to: id(2), authority: id(5) };
    assert_eq!(
        transfer(&not_signed, &id(6), &mut from, &mut to, 30),
        Err(EscrowError::AuthorizationFailure)
    );
    assert_eq!(from, holding(1, 9, 5, 100));
    assert_eq!(to, holding(2, 9, 6, 7));
}

#[test]
fn transfer_is_refused_where_the_ledger_cannot_make_it() {
    let accounts = Transfer { from: id(1), to: id(2), authority: id(5) };
    let mut from = holding(1, 9, 5, 100);
    let mut to = holding(2, 9, 6, 7);
    assert_eq!(
        transfer(&accounts, &id(5), &mut from, &mut to, 101),
        Err(EscrowError::AuthorizationFailure)
    );
    let mut other_token = holding(2, 8, 6, 7);
    assert_eq!(
        transfer(&accounts, &id(5), &mut from, &mut other_token, 1),
        Err(EscrowError::AuthorizationFailure)
    );
    let mut full = holding(2, 9, 6, u64::MAX);
    assert_eq!(
        transfer(&accounts, &id(5), &mut from, &mut full, 1),
        Err(EscrowError::AuthorizationFailure)
    );
    let mut other_account = holding(3, 9, 6, 7);
    assert_eq!(
        transfer(&accounts, &id(5), &mut from, &mut other_account, 1),
        Err(EscrowError::AuthorizationFailure)
    );
    let to_itself = Transfer { from: id(1), to: id(1), authority: id(5) };
    let mut same = holding(1, 9, 5, 100);
    assert_eq!(
        transfer(&to_itself, &id(5), &mut from, &mut same, 1),
        Err(EscrowError::AuthorizationFailure)
    );
    assert_eq!(from, holding(1, 9, 5, 100));
    assert_eq!(to, holding(2, 9, 6, 7));
    assert_eq!(full, holding(2, 9, 6, u64::MAX));
}

#[test]
fn transfer_fills_an_account_to_the_brim() {
    let accounts = Transfer { from: id(1), to: id(2), authority: id(5) };
    let mut from = holding(1, 9, 5, 1);
    let mut to = holding(2, 9, 6, u64::MAX - 1);
    assert_eq!(transfer(&accounts, &id(5), &mut from, &mut to, 1), Ok(()));
    assert_eq!(to.data.amount, u64::MAX);
}

#[test]
fn burn_destroys_the_amount() {
    let mut from = holding(1, 9, 5, 100);
    let accounts = Burn { mint: id(9), from: id(1), authority: id(5) };
    assert_eq!(burn(&accounts, &id(5), &mut from, 40), Ok(()));
    assert_eq!(from, holding(1, 9, 5, 60));
    assert_eq!(burn(&accounts, &id(5), &mut from, 60), Ok(()));
    assert_eq!(from, holding(1, 9, 5, 0));
}

#[test]
fn burn_is_refused() {
    let mut from = holding(1, 9, 5, 100);
    let accounts = Burn { mint: id(9), from: id(1), authority: id(5) };
    assert_eq!(burn(&accounts, &id(5), &mut from, 101), Err(EscrowError::AuthorizationFailure));
    assert_eq!(burn(&accounts, &id(6), &mut from, 1), Err(EscrowError::AuthorizationFailure));
    let other_token = Burn { mint: id(8), from: id(1), authority: id(5) };
    assert_eq!(burn(&other_token, &id(5), &mut from, 1), Err(EscrowError::AuthorizationFailure));
    let other_account = Burn { mint: id(9), from: id(2), authority: id(5) };
    assert_eq!(burn(&other_account, &id(5), &mut from, 1), Err(EscrowError::AuthorizationFailure));
    let not_owner = Burn { mint: id(9), from: id(1), authority: id(6) };
    assert_eq!(burn(&not_owner, &id(6), &mut from, 1), Err(EscrowError::AuthorizationFailure));
    assert_eq!(from, holding(1, 9, 5, 100));
}

#[test]
fn set_authority_hands_the_account_over() {
    let mut account = holding(1, 9, 5, 100);
    let accounts = SetAuthority { account_or_mint: id(1), current_authority: id(5) };
    assert_eq!(set_authority(&accounts, &id(5), &mut account, id(6)), Ok(()));
    assert_eq!(account, holding(1, 9, 6, 100));
    assert_eq!(
        set_authority(&accounts, &id(5), &mut account, id(5)),
        Err(EscrowError::AuthorizationFailure)
    );
    assert_eq!(account, holding(1, 9, 6, 100));
}

#[test]
fn set_authority_is_refused() {
    let mut account = holding(1, 9, 5, 100);
    let accounts = SetAuthority { account_or_mint: id(1), current_authority: id(5) };
    assert_eq!(
        set_authority(&accounts, &id(6), &mut account, id(6)),
        Err(EscrowError::AuthorizationFailure)
    );
    let other = SetAuthority { account_or_mint: id(2), current_authority: id(5) };
    assert_eq!(
        set_authority(&other, &id(5), &mut account, id(6)),
        Err(EscrowError::AuthorizationFailure)
    );
    assert_eq!(account, holding(1, 9, 5, 100));
}

#[test]
fn close_destroys_an_empty_account() {
    let mut slot = Slot::Occupied(holding(1, 9, 5, 0));
    let accounts = CloseAccount { account: id(1), destination: id(7), authority: id(5) };
    assert_eq!(close_account(&accounts, &id(5), &mut slot), Ok(()));
    assert_eq!(slot, Slot::Closed);
    assert!(slot.is_closed());
    assert!(!slot.is_occupied());
    assert!(!slot.is_vacant());
    assert_eq!(
        close_account(&accounts, &id(5), &mut slot),
        Err(EscrowError::AuthorizationFailure)
    );
    assert_eq!(slot, Slot::Closed);
}

#[test]
fn close_is_refused() {
    let accounts = CloseAccount { account: id(1), destination: id(7), authority: id(5) };
    let mut holds = Slot::Occupied(holding(1, 9, 5, 1));
    assert_eq!(
        close_account(&accounts, &id(5), &mut holds),
        Err(EscrowError::AuthorizationFailure)
    );
    assert_eq!(holds, Slot::Occupied(holding(1, 9, 5, 1)));
    let mut empty = Slot::Occupied(holding(1, 9, 5, 0));
    assert_eq!(
        close_account(&accounts, &id(6), &mut empty),
        Err(EscrowError::AuthorizationFailure)
    );
    let mut vacant: Slot<Account<TokenAccount>> = Slot::Vacant;
    assert_eq!(
        close_account(&accounts, &id(5), &mut vacant),
        Err(EscrowError::AuthorizationFailure)
    );
    assert!(vacant.is_vacant());
}
