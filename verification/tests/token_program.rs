use tale_ledger::address::Address;
use tale_ledger::store::{Failure, StoreError};
use tale_ledger::tale_nft::ledger::{
    cancel_mint_activity, close_mint_activity_account, list_nft, log_mint_activity, unlist_nft,
    update_listed_nft, CancelMintActivity, CloseMintActivityAccount, ListNft, LogMintActivity,
    TokenLedger, UnlistNft, UpdateListedNft,
};
use tale_ledger::tale_nft::records::{
    AppError, ListedNft, MintActivity, MintActivityStatus, LISTED_NFT_ACCOUNT_SPACE,
    MINT_ACTIVITY_ACCOUNT_SPACE,
};

fn addr(tag: u8) -> Address {
    Address::new([tag; 32])
}

fn s(text: &str) -> String {
    text.to_string()
}

#[test]
fn token_listing_names_a_token_and_a_candy_machine() {
    let zero = Address::default();
    assert_eq!(ListedNft::new(addr(1), 255, 10, zero, zero).err(), Some(AppError::NftMintAddressRequired));
    assert_eq!(ListedNft::new(addr(1), 255, 10, zero, addr(3)).err(), Some(AppError::NftMintAddressRequired));
    assert_eq!(
        ListedNft::new(addr(1), 255, 10, addr(2), zero).err(),
        Some(AppError::CandyMachineAddressRequired)
    );
    let listed = ListedNft::new(addr(1), 255, 10, addr(2), addr(3)).unwrap();
    assert_eq!(
        listed,
        ListedNft {
            creator_wallet: addr(1),
            nft_mint_address: addr(2),
            candy_machine_address: addr(3),
            listed_at: 10,
            bump: 255,
        }
    );
}

#[test]
fn token_listing_update_changes_the_candy_machine_only() {
    let mut listed = ListedNft::new(addr(1), 255, 10, addr(2), addr(3)).unwrap();
    assert_eq!(listed.update(Address::default()), Err(AppError::CandyMachineAddressRequired));
    assert_eq!(listed.candy_machine_address, addr(3));
    assert_eq!(listed.update(addr(4)), Ok(()));
    assert_eq!(
        listed,
        ListedNft {
            creator_wallet: addr(1),
            nft_mint_address: addr(2),
            candy_machine_address: addr(4),
            listed_at: 10,
            bump: 255,
        }
    );
}

#[test]
fn token_spaces_and_ordinals() {
    assert_eq!(MINT_ACTIVITY_ACCOUNT_SPACE, 271);
    assert_eq!(LISTED_NFT_ACCOUNT_SPACE, 150);
    assert_eq!(MintActivityStatus::Active.ordinal(), 0);
    assert_eq!(MintActivityStatus::Cancelled.ordinal(), 1);
}

#[test]
fn token_mint_activity_is_cancelled_once() {
    let mut activity =
        MintActivity::new(addr(1), addr(2), addr(3), 255, 40, "y".repeat(88), None).unwrap();
    assert_eq!(activity.status, 0);
    assert_eq!(activity.cancel(50), Ok(()));
    assert_eq!(activity.status, 1);
    assert_eq!(activity.timestamp, 50);
    assert_eq!(activity.cancel(60), Err(AppError::MintActivityAlreadyCancelled));
    assert_eq!(
        MintActivity::new(addr(1), addr(2), addr(3), 255, 40, "y".repeat(89), None).err(),
        Some(AppError::TxSignatureTooLong)
    );
}

#[test]
fn token_list_update_and_unlist() {
    let mut ledger = TokenLedger::new(addr(200));
    let creator = addr(1);
    let token = addr(2);
    let (account, nonce) = ledger.listed_nft_address(&creator, &token).unwrap();
    let ctx = ListNft { listed_nft_account: account, creator_wallet: creator };
    let refused = list_nft(&mut ledger, &ctx, 10, token, Address::default());
    assert_eq!(refused.err(), Some(Failure::Rule(AppError::CandyMachineAddressRequired)));
    let refused = list_nft(&mut ledger, &ctx, 10, addr(9), addr(3));
    assert_eq!(refused.err(), Some(Failure::Store(StoreError::AddressMismatch)));
    assert!(!ledger.listed_nfts.contains(&account));

    let reserve = list_nft(&mut ledger, &ctx, 10, token, addr(3)).unwrap();
    assert_eq!(reserve.holder, creator);
    assert_eq!(reserve.space, LISTED_NFT_ACCOUNT_SPACE);
    assert_eq!(
        *ledger.listed_nfts.load(&account).unwrap(),
        ListedNft {
            creator_wallet: creator,
            nft_mint_address: token,
            candy_machine_address: addr(3),
            listed_at: 10,
            bump: nonce,
        }
    );
    let again = list_nft(&mut ledger, &ctx, 11, token, addr(4));
    assert_eq!(again.err(), Some(Failure::Store(StoreError::AddressAlreadyInUse)));

    let stranger = UpdateListedNft { listed_nft_account: account, creator_wallet: addr(5) };
    assert_eq!(
        update_listed_nft(&mut ledger, &stranger, addr(4)),
        Err(Failure::Store(StoreError::AddressMismatch))
    );
    let update = UpdateListedNft { listed_nft_account: account, creator_wallet: creator };
    assert_eq!(
        update_listed_nft(&mut ledger, &update, Address::default()),
        Err(Failure::Rule(AppError::CandyMachineAddressRequired))
    );
    assert_eq!(ledger.listed_nfts.load(&account).unwrap().candy_machine_address, addr(3));
    assert_eq!(update_listed_nft(&mut ledger, &update, addr(4)), Ok(()));
    assert_eq!(ledger.listed_nfts.load(&account).unwrap().candy_machine_address, addr(4));
    assert_eq!(ledger.listed_nfts.load(&account).unwrap().listed_at, 10);

    let stranger = UnlistNft { listed_nft_account: account, creator_wallet: addr(5) };
    assert_eq!(unlist_nft(&mut ledger, &stranger).err(), Some(Failure::Store(StoreError::AddressMismatch)));
    let unlist = UnlistNft { listed_nft_account: account, creator_wallet: creator };
    let release = unlist_nft(&mut ledger, &unlist).unwrap();
    assert_eq!(release.holder, creator);
    assert_eq!(release.space, LISTED_NFT_ACCOUNT_SPACE);
    assert_eq!(unlist_nft(&mut ledger, &unlist).err(), Some(Failure::Store(StoreError::RecordNotFound)));
    assert!(list_nft(&mut ledger, &ctx, 12, token, addr(3)).is_ok());
}

#[test]
fn token_listing_by_a_wallet_that_is_not_on_it_is_unauthorized() {
    let mut ledger = TokenLedger::new(addr(200));
    let signer = addr(5);
    let token = addr(2);
    let (account, nonce) = ledger.listed_nft_address(&signer, &token).unwrap();
    let listed = ListedNft {
        creator_wallet: addr(1),
        nft_mint_address: token,
        candy_machine_address: addr(3),
        listed_at: 10,
        bump: nonce,
    };
    ledger.listed_nfts.create_at(account, LISTED_NFT_ACCOUNT_SPACE, listed).unwrap();
    let update = UpdateListedNft { listed_nft_account: account, creator_wallet: signer };
    assert_eq!(
        update_listed_nft(&mut ledger, &update, addr(4)),
        Err(Failure::Rule(AppError::Unauthorized))
    );
    let unlist = UnlistNft { listed_nft_account: account, creator_wallet: signer };
    assert_eq!(unlist_nft(&mut ledger, &unlist).err(), Some(Failure::Rule(AppError::Unauthorized)));
    assert_eq!(*ledger.listed_nfts.load(&account).unwrap(), listed);
}

#[test]
fn token_mint_log_is_made_under_the_candy_machine_and_found_under_the_token() {
    let mut ledger = TokenLedger::new(addr(200));
    let user = addr(5);
    let machine = addr(7);

    // the token is the candy machine: made and found at the same address
    let account = ledger.mint_activity_address(&user, &machine).unwrap().0;
    let ctx = LogMintActivity { mint_activity_account: account, nft_mint_address: machine, user_wallet: user };
    let reserve = log_mint_activity(&mut ledger, &ctx, 10, machine, s("sig"), None).unwrap();
    assert_eq!(reserve.holder, user);
    assert_eq!(reserve.space, MINT_ACTIVITY_ACCOUNT_SPACE);
    let cancel = CancelMintActivity { mint_activity_account: account, user_wallet: user };
    assert_eq!(cancel_mint_activity(&mut ledger, &cancel, 20), Ok(()));
    assert_eq!(
        cancel_mint_activity(&mut ledger, &cancel, 21),
        Err(Failure::Rule(AppError::MintActivityAlreadyCancelled))
    );
    let close = CloseMintActivityAccount { mint_activity_account: account, user_wallet: user };
    assert_eq!(close_mint_activity_account(&mut ledger, &close).unwrap().space, MINT_ACTIVITY_ACCOUNT_SPACE);
    assert!(!ledger.mint_activities.contains(&account));

    // the token is another address: the log is made, and no one finds it
    let token = addr(6);
    let ctx = LogMintActivity { mint_activity_account: account, nft_mint_address: token, user_wallet: user };
    log_mint_activity(&mut ledger, &ctx, 30, machine, s("sig"), Some(addr(8))).unwrap();
    let logged = ledger.mint_activities.load(&account).unwrap();
    assert_eq!(logged.nft_mint_address, token);
    assert_eq!(logged.candy_machine_id, machine);
    assert_eq!(logged.user_wallet, user);
    assert_eq!(logged.timestamp, 30);
    assert_eq!(
        cancel_mint_activity(&mut ledger, &cancel, 40),
        Err(Failure::Store(StoreError::AddressMismatch))
    );
    assert_eq!(
        close_mint_activity_account(&mut ledger, &close).err(),
        Some(Failure::Store(StoreError::AddressMismatch))
    );
    assert_eq!(ledger.mint_activities.load(&account).unwrap().status, 0);

    let under_token = ledger.mint_activity_address(&user, &token).unwrap().0;
    let wrong = LogMintActivity { mint_activity_account: under_token, nft_mint_address: token, user_wallet: user };
    let refused = log_mint_activity(&mut ledger, &wrong, 30, machine, s("sig"), None);
    assert_eq!(refused.err(), Some(Failure::Store(StoreError::AddressMismatch)));
    let refused = log_mint_activity(&mut ledger, &ctx, 30, machine, "y".repeat(89), None);
    assert_eq!(refused.err(), Some(Failure::Store(StoreError::AddressAlreadyInUse)));
}

#[test]
fn token_errors_have_their_messages() {
    assert_eq!(AppError::Unauthorized.message(), "Unauthorized action.");
    assert_eq!(AppError::InvalidStatus.message(), "Invalid status value.");
    assert_eq!(AppError::CandyMachineIdTooLong.message(), "Candy Machine ID is too long.");
    assert_eq!(AppError::TxSignatureTooLong.message(), "Transaction signature string is too long.");
    assert_eq!(AppError::MintActivityAlreadyCancelled.message(), "Mint activity already cancelled.");
    assert_eq!(AppError::MintActivityNotFound.message(), "Mint activity not found or already closed.");
    assert_eq!(AppError::NftAlreadyListed.message(), "NFT is already listed by this creator.");
    assert_eq!(AppError::ListedNftNotFound.message(), "Listed NFT not found.");
    assert_eq!(AppError::NftMintAddressRequired.message(), "The NFT Mint address cannot be empty.");
    assert_eq!(
        AppError::CandyMachineAddressRequired.message(),
        "The Candy Machine address cannot be empty."
    );
}
