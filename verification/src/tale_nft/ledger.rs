//! The token program over its stores.
//!
//! The log of a mint lives at the address derived from the tag
//! `mint_activity`, the minter and the candy machine; a listing at the
//! address derived from the tag `listed_nft`, the creator and the token. A
//! record is changed or closed only at the address that the signer and the
//! token it names derive, and only by the wallet it names; an operation
//! either takes effect in full or leaves every store as it was.

use super::records::{
    listing_refusal, AppError, ListedNft, ListedNftView, MintActivity, MintActivityView, ACTIVE,
    CANCELLED, LISTED_NFT_ACCOUNT_SPACE, MAX_TX_SIGNATURE_LENGTH, MINT_ACTIVITY_ACCOUNT_SPACE,
};
use crate::address::{optional_view, placed, seeds_view, zero_address, Address};
use crate::fields::fits;
use crate::guard::{access_refusal, check_access, AccessError};
use crate::store::{placement_refusal, Deposit, Entry, Failure, RecordStore, StoreError};
use vstd::prelude::*;

verus! {

/// Domain tag of the address of the log of a mint.
pub const MINT_ACTIVITY_TAG: &'static str = "mint_activity";

/// Domain tag of the address of a listing.
pub const LISTED_NFT_TAG: &'static str = "listed_nft";

/// The accounts of `log_mint_activity`: the address presented for the log,
/// the minted token and the minter, who signs and pays.
#[derive(Clone, Copy, Debug)]
pub struct LogMintActivity {
    pub mint_activity_account: Address,
    pub nft_mint_address: Address,
    pub user_wallet: Address,
}

/// The accounts of `cancel_mint_activity`: the log and the signer.
#[derive(Clone, Copy, Debug)]
pub struct CancelMintActivity {
    pub mint_activity_account: Address,
    pub user_wallet: Address,
}

/// The accounts of `close_mint_activity_account`: the log and the signer,
/// who is given the log's space back.
#[derive(Clone, Copy, Debug)]
pub struct CloseMintActivityAccount {
    pub mint_activity_account: Address,
    pub user_wallet: Address,
}

/// The accounts of `list_nft`: the address presented for the listing and
/// the creator, who signs and pays.
#[derive(Clone, Copy, Debug)]
pub struct ListNft {
    pub listed_nft_account: Address,
    pub creator_wallet: Address,
}

/// The accounts of `update_listed_nft`: the listing and the signer.
#[derive(Clone, Copy, Debug)]
pub struct UpdateListedNft {
    pub listed_nft_account: Address,
    pub creator_wallet: Address,
}

/// The accounts of `unlist_nft`: the listing and the signer, who is given
/// the listing's space back.
#[derive(Clone, Copy, Debug)]
pub struct UnlistNft {
    pub listed_nft_account: Address,
    pub creator_wallet: Address,
}

/// The records of the token program, each kind in its store.
pub struct TokenLedger {
    pub program: Address,
    pub mint_activities: RecordStore<MintActivity>,
    pub listed_nfts: RecordStore<ListedNft>,
}

/// The ledger over maps from address to record.
pub struct TokenView {
    pub program: Seq<u8>,
    pub mint_activities: Map<Seq<u8>, Entry<MintActivityView>>,
    pub listed_nfts: Map<Seq<u8>, Entry<ListedNftView>>,
}

impl View for TokenLedger {
    type V = TokenView;

    open spec fn view(&self) -> TokenView {
        TokenView {
            program: self.program@,
            mint_activities: self.mint_activities@,
            listed_nfts: self.listed_nfts@,
        }
    }
}

impl TokenView {
    /// Every record in the ledger is well formed and has the space of its
    /// kind.
    pub open spec fn wf(self) -> bool {
        &&& forall|at: Seq<u8>| #[trigger]
            self.mint_activities.contains_key(at) ==> {
                &&& self.mint_activities[at].record.wf()
                &&& self.mint_activities[at].space == MINT_ACTIVITY_ACCOUNT_SPACE
            }
        &&& forall|at: Seq<u8>| #[trigger]
            self.listed_nfts.contains_key(at) ==> {
                &&& self.listed_nfts[at].record.wf()
                &&& self.listed_nfts[at].space == LISTED_NFT_ACCOUNT_SPACE
            }
    }

    /// Every record lives at the address derived for it when it was made,
    /// under the nonce that it stores: a log at the address of its minter
    /// and its candy machine, a listing at the address of its creator and
    /// its token. The operations of the program put records nowhere else.
    pub open spec fn placed(self) -> bool {
        &&& forall|at: Seq<u8>| #[trigger]
            self.mint_activities.contains_key(at) ==> placed(
                self.program,
                MINT_ACTIVITY_TAG@,
                mint_activity_seeds(
                    self.mint_activities[at].record.user_wallet,
                    self.mint_activities[at].record.candy_machine_id,
                ),
                self.mint_activities[at].record.bump,
                at,
            )
        &&& forall|at: Seq<u8>| #[trigger]
            self.listed_nfts.contains_key(at) ==> placed(
                self.program,
                LISTED_NFT_TAG@,
                listed_nft_seeds(
                    self.listed_nfts[at].record.creator_wallet,
                    self.listed_nfts[at].record.nft_mint_address,
                ),
                self.listed_nfts[at].record.bump,
                at,
            )
    }
}

/// The seeds of the log of a mint after its tag: a wallet and a second
/// address. A log is made under the minter and the candy machine, and looked
/// up under the signer and the token it names.
pub open spec fn mint_activity_seeds(user_wallet: Seq<u8>, second: Seq<u8>) -> Seq<Seq<u8>> {
    seq![user_wallet, second]
}

/// The seeds of a listing after its tag: the creator and the token.
pub open spec fn listed_nft_seeds(creator_wallet: Seq<u8>, nft_mint_address: Seq<u8>) -> Seq<
    Seq<u8>,
> {
    seq![creator_wallet, nft_mint_address]
}

/// A refusal of access as a failure of the program.
pub open spec fn denied(e: Option<AccessError>) -> Option<Failure<AppError>> {
    match e {
        Some(AccessError::AddressMismatch) => Some(Failure::Store(StoreError::AddressMismatch)),
        Some(AccessError::Unauthorized) => Some(Failure::Rule(AppError::Unauthorized)),
        None => None,
    }
}

/// A broken rule as a failure of the program.
pub open spec fn broken(e: Option<AppError>) -> Option<Failure<AppError>> {
    match e {
        Some(e) => Some(Failure::Rule(e)),
        None => None,
    }
}

/// Why the signer has no access to the log of a mint at an address, or
/// `None` where the signer has. The address is derived again from the
/// signer and the token that the log names.
pub open spec fn mint_activity_access_refusal(
    ledger: TokenView,
    at: Seq<u8>,
    signer: Seq<u8>,
) -> Option<Failure<AppError>> {
    if !ledger.mint_activities.contains_key(at) {
        Some(Failure::Store(StoreError::RecordNotFound))
    } else {
        let activity = ledger.mint_activities[at].record;
        denied(
            access_refusal(
                at,
                ledger.program,
                MINT_ACTIVITY_TAG@,
                mint_activity_seeds(signer, activity.nft_mint_address),
                activity.bump,
                activity.user_wallet,
                signer,
            ),
        )
    }
}

/// Why the signer has no access to the listing at an address, or `None`
/// where the signer has. The address is derived again from the signer and
/// the token that the listing names.
pub open spec fn listed_nft_access_refusal(ledger: TokenView, at: Seq<u8>, signer: Seq<u8>) -> Option<
    Failure<AppError>,
> {
    if !ledger.listed_nfts.contains_key(at) {
        Some(Failure::Store(StoreError::RecordNotFound))
    } else {
        let listed = ledger.listed_nfts[at].record;
        denied(
            access_refusal(
                at,
                ledger.program,
                LISTED_NFT_TAG@,
                listed_nft_seeds(signer, listed.nft_mint_address),
                listed.bump,
                listed.creator_wallet,
                signer,
            ),
        )
    }
}

/// Why `log_mint_activity` fails, or `None` where it succeeds.
pub open spec fn log_mint_activity_refusal(
    ledger: TokenView,
    mint_activity_account: Seq<u8>,
    candy_machine_id: Seq<u8>,
    user_wallet: Seq<u8>,
    transaction_signature: Seq<char>,
) -> Option<Failure<AppError>> {
    match placement_refusal(
        ledger.mint_activities,
        ledger.program,
        MINT_ACTIVITY_TAG@,
        mint_activity_seeds(user_wallet, candy_machine_id),
        mint_activity_account,
    ) {
        Some(e) => Some(Failure::Store(e)),
        None => if !fits(transaction_signature, MAX_TX_SIGNATURE_LENGTH) {
            Some(Failure::Rule(AppError::TxSignatureTooLong))
        } else {
            None
        },
    }
}

/// Why `cancel_mint_activity` fails, or `None` where it succeeds.
pub open spec fn cancel_mint_activity_refusal(
    ledger: TokenView,
    mint_activity_account: Seq<u8>,
    signer: Seq<u8>,
) -> Option<Failure<AppError>> {
    match mint_activity_access_refusal(ledger, mint_activity_account, signer) {
        Some(e) => Some(e),
        None => if ledger.mint_activities[mint_activity_account].record.status == CANCELLED {
            Some(Failure::Rule(AppError::MintActivityAlreadyCancelled))
        } else {
            None
        },
    }
}

/// Why `list_nft` fails, or `None` where it succeeds.
pub open spec fn list_nft_refusal(
    ledger: TokenView,
    listed_nft_account: Seq<u8>,
    creator_wallet: Seq<u8>,
    nft_mint_address: Seq<u8>,
    candy_machine_address: Seq<u8>,
) -> Option<Failure<AppError>> {
    match placement_refusal(
        ledger.listed_nfts,
        ledger.program,
        LISTED_NFT_TAG@,
        listed_nft_seeds(creator_wallet, nft_mint_address),
        listed_nft_account,
    ) {
        Some(e) => Some(Failure::Store(e)),
        None => broken(listing_refusal(nft_mint_address, candy_machine_address)),
    }
}

/// Why `update_listed_nft` fails, or `None` where it succeeds.
pub open spec fn update_listed_nft_refusal(
    ledger: TokenView,
    listed_nft_account: Seq<u8>,
    signer: Seq<u8>,
    candy_machine_address: Seq<u8>,
) -> Option<Failure<AppError>> {
    match listed_nft_access_refusal(ledger, listed_nft_account, signer) {
        Some(e) => Some(e),
        None => if candy_machine_address == zero_address() {
            Some(Failure::Rule(AppError::CandyMachineAddressRequired))
        } else {
            None
        },
    }
}

fn seeds_of_mint_activity(user_wallet: &Address, second: &Address) -> (r: Vec<Vec<u8>>)
    ensures
        seeds_view(r@) == mint_activity_seeds(user_wallet@, second@),
{
    let mut seeds: Vec<Vec<u8>> = Vec::new();
    seeds.push(user_wallet.as_seed());
    seeds.push(second.as_seed());
    assert(seeds_view(seeds@) =~= mint_activity_seeds(user_wallet@, second@));
    seeds
}

fn seeds_of_listed_nft(creator_wallet: &Address, nft_mint_address: &Address) -> (r: Vec<Vec<u8>>)
    ensures
        seeds_view(r@) == listed_nft_seeds(creator_wallet@, nft_mint_address@),
{
    let mut seeds: Vec<Vec<u8>> = Vec::new();
    seeds.push(creator_wallet.as_seed());
    seeds.push(nft_mint_address.as_seed());
    assert(seeds_view(seeds@) =~= listed_nft_seeds(creator_wallet@, nft_mint_address@));
    seeds
}

fn deny(e: AccessError) -> (r: Failure<AppError>)
    ensures
        denied(Some(e)) == Some(r),
{
    match e {
        AccessError::AddressMismatch => Failure::Store(StoreError::AddressMismatch),
        AccessError::Unauthorized => Failure::Rule(AppError::Unauthorized),
    }
}

impl TokenLedger {
    /// The stores hold no address twice, and every record is well formed.
    pub open spec fn wf(&self) -> bool {
        &&& self.mint_activities.wf()
        &&& self.listed_nfts.wf()
        &&& self@.wf()
    }

    /// The empty ledger of a program.
    pub fn new(program: Address) -> (r: TokenLedger)
        ensures
            r.wf(),
            r@.placed(),
            r@.program == program@,
            r@.mint_activities == Map::<Seq<u8>, Entry<MintActivityView>>::empty(),
            r@.listed_nfts == Map::<Seq<u8>, Entry<ListedNftView>>::empty(),
    {
        TokenLedger {
            program,
            mint_activities: RecordStore::new(),
            listed_nfts: RecordStore::new(),
        }
    }

    /// The address derived for the log of a mint from a wallet and a second
    /// address, with its nonce.
    pub fn mint_activity_address(&self, user_wallet: &Address, second: &Address) -> (r:
        Option<(Address, u8)>)
        ensures
            crate::address::is_derivation(
                self.program@,
                MINT_ACTIVITY_TAG@,
                mint_activity_seeds(user_wallet@, second@),
                r,
            ),
    {
        crate::address::derive(
            &self.program,
            MINT_ACTIVITY_TAG,
            seeds_of_mint_activity(user_wallet, second),
        )
    }

    /// The address of the listing of a token by a creator, with its nonce.
    pub fn listed_nft_address(&self, creator_wallet: &Address, nft_mint_address: &Address) -> (r:
        Option<(Address, u8)>)
        ensures
            crate::address::is_derivation(
                self.program@,
                LISTED_NFT_TAG@,
                listed_nft_seeds(creator_wallet@, nft_mint_address@),
                r,
            ),
    {
        crate::address::derive(
            &self.program,
            LISTED_NFT_TAG,
            seeds_of_listed_nft(creator_wallet, nft_mint_address),
        )
    }

    fn mint_activity_access(&self, at: &Address, signer: &Address) -> (r: Result<
        (),
        Failure<AppError>,
    >)
        requires
            self.wf(),
        ensures
            match r {
                Ok(()) => mint_activity_access_refusal(self@, at@, signer@) is None,
                Err(e) => mint_activity_access_refusal(self@, at@, signer@) == Some(e),
            },
    {
        let activity = match self.mint_activities.load(at) {
            Ok(activity) => activity,
            Err(_) => {
                return Err(Failure::Store(StoreError::RecordNotFound));
            },
        };
        match check_access(
            at,
            &self.program,
            MINT_ACTIVITY_TAG,
            seeds_of_mint_activity(signer, &activity.nft_mint_address),
            activity.bump,
            &activity.user_wallet,
            signer,
        ) {
            Ok(()) => Ok(()),
            Err(e) => Err(deny(e)),
        }
    }

    fn listed_nft_access(&self, at: &Address, signer: &Address) -> (r: Result<
        (),
        Failure<AppError>,
    >)
        requires
            self.wf(),
        ensures
            match r {
                Ok(()) => listed_nft_access_refusal(self@, at@, signer@) is None,
                Err(e) => listed_nft_access_refusal(self@, at@, signer@) == Some(e),
            },
    {
        let listed = match self.listed_nfts.load(at) {
            Ok(listed) => listed,
            Err(_) => {
                return Err(Failure::Store(StoreError::RecordNotFound));
            },
        };
        match check_access(
            at,
            &self.program,
            LISTED_NFT_TAG,
            seeds_of_listed_nft(signer, &listed.nft_mint_address),
            listed.bump,
            &listed.creator_wallet,
            signer,
        ) {
            Ok(()) => Ok(()),
            Err(e) => Err(deny(e)),
        }
    }
}

/// Logs a mint at the address derived for the minter and the candy machine.
/// Hands out the reservation for the log, to be charged to the minter.
pub fn log_mint_activity(
    ledger: &mut TokenLedger,
    ctx: &LogMintActivity,
    now: i64,
    candy_machine_id_arg: Address,
    transaction_signature_str: String,
    episode_on_chain_pda_option: Option<Address>,
) -> (r: Result<Deposit, Failure<AppError>>)
    requires
        old(ledger).wf(),
    ensures
        final(ledger).wf(),
        old(ledger)@.placed() ==> final(ledger)@.placed(),
        match r {
            Ok(reserve) => {
                &&& log_mint_activity_refusal(
                    old(ledger)@,
                    ctx.mint_activity_account@,
                    candy_machine_id_arg@,
                    ctx.user_wallet@,
                    transaction_signature_str@,
                ) is None
                &&& reserve.holder == ctx.user_wallet
                &&& reserve.space == MINT_ACTIVITY_ACCOUNT_SPACE
                &&& final(ledger)@ == (TokenView {
                    mint_activities: old(ledger)@.mint_activities.insert(
                        ctx.mint_activity_account@,
                        Entry {
                            space: MINT_ACTIVITY_ACCOUNT_SPACE,
                            record: MintActivityView {
                                user_wallet: ctx.user_wallet@,
                                candy_machine_id: candy_machine_id_arg@,
                                nft_mint_address: ctx.nft_mint_address@,
                                transaction_signature: transaction_signature_str@,
                                episode_on_chain_pda: optional_view(episode_on_chain_pda_option),
                                timestamp: now,
                                status: ACTIVE,
                                bump: crate::store::nonce_of(
                                    old(ledger)@.program,
                                    MINT_ACTIVITY_TAG@,
                                    mint_activity_seeds(ctx.user_wallet@, candy_machine_id_arg@),
                                ),
                            },
                        },
                    ),
                    ..old(ledger)@
                })
            },
            Err(e) => {
                &&& log_mint_activity_refusal(
                    old(ledger)@,
                    ctx.mint_activity_account@,
                    candy_machine_id_arg@,
                    ctx.user_wallet@,
                    transaction_signature_str@,
                ) == Some(e)
                &&& final(ledger)@ == old(ledger)@
            },
        },
{
    let bump = match ledger.mint_activities.placement(
        &ledger.program,
        MINT_ACTIVITY_TAG,
        seeds_of_mint_activity(&ctx.user_wallet, &candy_machine_id_arg),
        &ctx.mint_activity_account,
    ) {
        Ok(nonce) => nonce,
        Err(e) => {
            return Err(Failure::Store(e));
        },
    };
    let activity = match MintActivity::new(
        ctx.user_wallet,
        candy_machine_id_arg,
        ctx.nft_mint_address,
        bump,
        now,
        transaction_signature_str,
        episode_on_chain_pda_option,
    ) {
        Ok(activity) => activity,
        Err(e) => {
            return Err(Failure::Rule(e));
        },
    };
    ledger.mint_activities.put(ctx.mint_activity_account, MINT_ACTIVITY_ACCOUNT_SPACE, activity);
    Ok(Deposit { holder: ctx.user_wallet, space: MINT_ACTIVITY_ACCOUNT_SPACE })
}

/// Cancels a logged mint for the minter.
pub fn cancel_mint_activity(ledger: &mut TokenLedger, ctx: &CancelMintActivity, now: i64) -> (r:
    Result<(), Failure<AppError>>)
    requires
        old(ledger).wf(),
    ensures
        final(ledger).wf(),
        old(ledger)@.placed() ==> final(ledger)@.placed(),
        match r {
            Ok(()) => {
                &&& cancel_mint_activity_refusal(
                    old(ledger)@,
                    ctx.mint_activity_account@,
                    ctx.user_wallet@,
                ) is None
                &&& final(ledger)@ == (TokenView {
                    mint_activities: old(ledger)@.mint_activities.insert(
                        ctx.mint_activity_account@,
                        Entry {
                            space: old(ledger)@.mint_activities[ctx.mint_activity_account@].space,
                            record: MintActivityView {
                                status: CANCELLED,
                                timestamp: now,
                                ..old(ledger)@.mint_activities[ctx.mint_activity_account@].record
                            },
                        },
                    ),
                    ..old(ledger)@
                })
            },
            Err(e) => {
                &&& cancel_mint_activity_refusal(
                    old(ledger)@,
                    ctx.mint_activity_account@,
                    ctx.user_wallet@,
                ) == Some(e)
                &&& final(ledger)@ == old(ledger)@
            },
        },
{
    match ledger.mint_activity_access(&ctx.mint_activity_account, &ctx.user_wallet) {
        Ok(()) => {},
        Err(e) => {
            return Err(e);
        },
    }
    let (mut activity, space) = match ledger.mint_activities.take(&ctx.mint_activity_account) {
        Some(taken) => taken,
        None => {
            return Err(Failure::Store(StoreError::RecordNotFound));
        },
    };
    let outcome = activity.cancel(now);
    let ghost after = activity@;
    ledger.mint_activities.put(ctx.mint_activity_account, space, activity);
    assert(ledger.mint_activities@ =~= old(ledger).mint_activities@.insert(
        ctx.mint_activity_account@,
        Entry { space, record: after },
    ));
    match outcome {
        Ok(()) => Ok(()),
        Err(e) => {
            assert(ledger.mint_activities@ =~= old(ledger).mint_activities@);
            assert(ledger@ == old(ledger)@);
            Err(Failure::Rule(e))
        },
    }
}

/// Closes the log of a mint for the minter. Hands out the release of the
/// log's space, to be paid to the minter.
pub fn close_mint_activity_account(ledger: &mut TokenLedger, ctx: &CloseMintActivityAccount) -> (r:
    Result<Deposit, Failure<AppError>>)
    requires
        old(ledger).wf(),
    ensures
        final(ledger).wf(),
        old(ledger)@.placed() ==> final(ledger)@.placed(),
        match r {
            Ok(release) => {
                &&& mint_activity_access_refusal(
                    old(ledger)@,
                    ctx.mint_activity_account@,
                    ctx.user_wallet@,
                ) is None
                &&& release.holder == ctx.user_wallet
                &&& release.space == old(ledger)@.mint_activities[ctx.mint_activity_account@].space
                &&& final(ledger)@ == (TokenView {
                    mint_activities: old(ledger)@.mint_activities.remove(
                        ctx.mint_activity_account@,
                    ),
                    ..old(ledger)@
                })
            },
            Err(e) => {
                &&& mint_activity_access_refusal(
                    old(ledger)@,
                    ctx.mint_activity_account@,
                    ctx.user_wallet@,
                ) == Some(e)
                &&& final(ledger)@ == old(ledger)@
            },
        },
{
    match ledger.mint_activity_access(&ctx.mint_activity_account, &ctx.user_wallet) {
        Ok(()) => {},
        Err(e) => {
            return Err(e);
        },
    }
    match ledger.mint_activities.destroy(&ctx.mint_activity_account, ctx.user_wallet) {
        Ok((_, release)) => Ok(release),
        Err(e) => Err(Failure::Store(e)),
    }
}

/// Lists a token for its creator, at the address derived for the creator
/// and the token. Hands out the reservation for the listing, to be charged
/// to the creator.
pub fn list_nft(
    ledger: &mut TokenLedger,
    ctx: &ListNft,
    now: i64,
    nft_mint_address_arg: Address,
    candy_machine_address_arg: Address,
) -> (r: Result<Deposit, Failure<AppError>>)
    requires
        old(ledger).wf(),
    ensures
        final(ledger).wf(),
        old(ledger)@.placed() ==> final(ledger)@.placed(),
        match r {
            Ok(reserve) => {
                &&& list_nft_refusal(
                    old(ledger)@,
                    ctx.listed_nft_account@,
                    ctx.creator_wallet@,
                    nft_mint_address_arg@,
                    candy_machine_address_arg@,
                ) is None
                &&& reserve.holder == ctx.creator_wallet
                &&& reserve.space == LISTED_NFT_ACCOUNT_SPACE
                &&& final(ledger)@ == (TokenView {
                    listed_nfts: old(ledger)@.listed_nfts.insert(
                        ctx.listed_nft_account@,
                        Entry {
                            space: LISTED_NFT_ACCOUNT_SPACE,
                            record: ListedNftView {
                                creator_wallet: ctx.creator_wallet@,
                                nft_mint_address: nft_mint_address_arg@,
                                candy_machine_address: candy_machine_address_arg@,
                                listed_at: now,
                                bump: crate::store::nonce_of(
                                    old(ledger)@.program,
                                    LISTED_NFT_TAG@,
                                    listed_nft_seeds(ctx.creator_wallet@, nft_mint_address_arg@),
                                ),
                            },
                        },
                    ),
                    ..old(ledger)@
                })
            },
            Err(e) => {
                &&& list_nft_refusal(
                    old(ledger)@,
                    ctx.listed_nft_account@,
                    ctx.creator_wallet@,
                    nft_mint_address_arg@,
                    candy_machine_address_arg@,
                ) == Some(e)
                &&& final(ledger)@ == old(ledger)@
            },
        },
{
    let bump = match ledger.listed_nfts.placement(
        &ledger.program,
        LISTED_NFT_TAG,
        seeds_of_listed_nft(&ctx.creator_wallet, &nft_mint_address_arg),
        &ctx.listed_nft_account,
    ) {
        Ok(nonce) => nonce,
        Err(e) => {
            return Err(Failure::Store(e));
        },
    };
    let listed = match ListedNft::new(
        ctx.creator_wallet,
        bump,
        now,
        nft_mint_address_arg,
        candy_machine_address_arg,
    ) {
        Ok(listed) => listed,
        Err(e) => {
            return Err(Failure::Rule(e));
        },
    };
    ledger.listed_nfts.put(ctx.listed_nft_account, LISTED_NFT_ACCOUNT_SPACE, listed);
    Ok(Deposit { holder: ctx.creator_wallet, space: LISTED_NFT_ACCOUNT_SPACE })
}

/// Names another candy machine for a listed token, for the creator of the
/// listing.
pub fn update_listed_nft(
    ledger: &mut TokenLedger,
    ctx: &UpdateListedNft,
    new_candy_machine_address_arg: Address,
) -> (r: Result<(), Failure<AppError>>)
    requires
        old(ledger).wf(),
    ensures
        final(ledger).wf(),
        old(ledger)@.placed() ==> final(ledger)@.placed(),
        match r {
            Ok(()) => {
                &&& update_listed_nft_refusal(
                    old(ledger)@,
                    ctx.listed_nft_account@,
                    ctx.creator_wallet@,
                    new_candy_machine_address_arg@,
                ) is None
                &&& final(ledger)@ == (TokenView {
                    listed_nfts: old(ledger)@.listed_nfts.insert(
                        ctx.listed_nft_account@,
                        Entry {
                            space: old(ledger)@.listed_nfts[ctx.listed_nft_account@].space,
                            record: ListedNftView {
                                candy_machine_address: new_candy_machine_address_arg@,
                                ..old(ledger)@.listed_nfts[ctx.listed_nft_account@].record
                            },
                        },
                    ),
                    ..old(ledger)@
                })
            },
            Err(e) => {
                &&& update_listed_nft_refusal(
                    old(ledger)@,
                    ctx.listed_nft_account@,
                    ctx.creator_wallet@,
                    new_candy_machine_address_arg@,
                ) == Some(e)
                &&& final(ledger)@ == old(ledger)@
            },
        },
{
    match ledger.listed_nft_access(&ctx.listed_nft_account, &ctx.creator_wallet) {
        Ok(()) => {},
        Err(e) => {
            return Err(e);
        },
    }
    let (mut listed, space) = match ledger.listed_nfts.take(&ctx.listed_nft_account) {
        Some(taken) => taken,
        None => {
            return Err(Failure::Store(StoreError::RecordNotFound));
        },
    };
    let outcome = listed.update(new_candy_machine_address_arg);
    let ghost after = listed@;
    ledger.listed_nfts.put(ctx.listed_nft_account, space, listed);
    assert(ledger.listed_nfts@ =~= old(ledger).listed_nfts@.insert(
        ctx.listed_nft_account@,
        Entry { space, record: after },
    ));
    match outcome {
        Ok(()) => Ok(()),
        Err(e) => {
            assert(ledger.listed_nfts@ =~= old(ledger).listed_nfts@);
            assert(ledger@ == old(ledger)@);
            Err(Failure::Rule(e))
        },
    }
}

/// Takes a listing down for its creator. Hands out the release of the
/// listing's space, to be paid to the creator.
pub fn unlist_nft(ledger: &mut TokenLedger, ctx: &UnlistNft) -> (r: Result<
    Deposit,
    Failure<AppError>,
>)
    requires
        old(ledger).wf(),
    ensures
        final(ledger).wf(),
        old(ledger)@.placed() ==> final(ledger)@.placed(),
        match r {
            Ok(release) => {
                &&& listed_nft_access_refusal(
                    old(ledger)@,
                    ctx.listed_nft_account@,
                    ctx.creator_wallet@,
                ) is None
                &&& release.holder == ctx.creator_wallet
                &&& release.space == old(ledger)@.listed_nfts[ctx.listed_nft_account@].space
                &&& final(ledger)@ == (TokenView {
                    listed_nfts: old(ledger)@.listed_nfts.remove(ctx.listed_nft_account@),
                    ..old(ledger)@
                })
            },
            Err(e) => {
                &&& listed_nft_access_refusal(
                    old(ledger)@,
                    ctx.listed_nft_account@,
                    ctx.creator_wallet@,
                ) == Some(e)
                &&& final(ledger)@ == old(ledger)@
            },
        },
{
    match ledger.listed_nft_access(&ctx.listed_nft_account, &ctx.creator_wallet) {
        Ok(()) => {},
        Err(e) => {
            return Err(e);
        },
    }
    match ledger.listed_nfts.destroy(&ctx.listed_nft_account, ctx.creator_wallet) {
        Ok((_, release)) => Ok(release),
        Err(e) => Err(Failure::Store(e)),
    }
}

} // verus!
