//! The reading program over its stores.
//!
//! A tale lives at the address derived from the tag `tale` and its id; an
//! episode at the address derived from the tag `episode`, its tale's address
//! and its seed; the log of a mint at the address derived from the tag
//! `mint_activity`, the minter and the minted token. A record is changed or
//! closed only at its own address and by its own author; an operation either
//! takes effect in full or leaves every store as it was.

use super::records::{
    episode_fields_refusal, episode_refusal, kept_candy_machine, tale_fields_refusal,
    tale_refusal, AppError, Episode, EpisodeView, MintActivity, MintActivityView, Tale, TaleView,
    ACTIVE, CANCELLED, EPISODE_ACCOUNT_SPACE, MAX_TX_SIGNATURE_LENGTH, MINT_ACTIVITY_ACCOUNT_SPACE,
    PUBLISHED, TALE_ACCOUNT_SPACE,
};
use crate::address::{optional_view, placed, seeds_view, text_bytes, text_seed, Address};
use crate::fields::fits;
use crate::guard::{access_refusal, check_access, AccessError};
use crate::store::{placement_refusal, Deposit, Entry, Failure, RecordStore, StoreError};
use vstd::prelude::*;

verus! {

/// Domain tag of the address of a tale.
pub const TALE_TAG: &'static str = "tale";

/// Domain tag of the address of an episode.
pub const EPISODE_TAG: &'static str = "episode";

/// Domain tag of the address of the log of a mint.
pub const MINT_ACTIVITY_TAG: &'static str = "mint_activity";

/// The accounts of `create_tale`: the address presented for the new tale and
/// the author, who signs and pays.
#[derive(Clone, Copy, Debug)]
pub struct CreateTale {
    pub tale_account: Address,
    pub author: Address,
}

/// The accounts of `update_tale`: the tale and the signer.
#[derive(Clone, Copy, Debug)]
pub struct UpdateTale {
    pub tale_account: Address,
    pub author: Address,
}

/// The accounts of `delete_tale`: the tale and the signer, who is given the
/// tale's space back.
#[derive(Clone, Copy, Debug)]
pub struct DeleteTale {
    pub tale_account: Address,
    pub author: Address,
}

/// The accounts of `create_episode`: the address presented for the new
/// episode, its tale, and the author of the tale, who signs and pays.
#[derive(Clone, Copy, Debug)]
pub struct CreateEpisode {
    pub episode_account: Address,
    pub parent_tale_account: Address,
    pub author: Address,
}

/// The accounts of `update_episode`: the episode and the signer.
#[derive(Clone, Copy, Debug)]
pub struct UpdateEpisode {
    pub episode_account: Address,
    pub author: Address,
}

/// The accounts of `delete_episode`: the episode and the signer, who is
/// given the episode's space back.
#[derive(Clone, Copy, Debug)]
pub struct DeleteEpisode {
    pub episode_account: Address,
    pub author: Address,
}

/// The accounts of `log_mint_activity`: the address presented for the log,
/// the minted token and the minter, who signs and pays.
#[derive(Clone, Copy, Debug)]
pub struct LogMintActivity {
    pub mint_activity_account: Address,
    pub nft_mint_address: Address,
    pub user_wallet: Address,
}

/// The accounts of `cancel_mint_activity`: the log and the signer.
#[derive(Clone, Copy, Debug)]
pub struct CancelMintActivity {
    pub mint_activity_account: Address,
    pub user_wallet: Address,
}

/// The accounts of `close_mint_activity_account`: the log and the signer,
/// who is given the log's space back.
#[derive(Clone, Copy, Debug)]
pub struct CloseMintActivityAccount {
    pub mint_activity_account: Address,
    pub user_wallet: Address,
}

/// The records of the reading program, each kind in its store.
pub struct ReadingLedger {
    pub program: Address,
    pub tales: RecordStore<Tale>,
    pub episodes: RecordStore<Episode>,
    pub mint_activities: RecordStore<MintActivity>,
}

/// The ledger over maps from address to record.
pub struct ReadingView {
    pub program: Seq<u8>,
    pub tales: Map<Seq<u8>, Entry<TaleView>>,
    pub episodes: Map<Seq<u8>, Entry<EpisodeView>>,
    pub mint_activities: Map<Seq<u8>, Entry<MintActivityView>>,
}

impl View for ReadingLedger {
    type V = ReadingView;

    open spec fn view(&self) -> ReadingView {
        ReadingView {
            program: self.program@,
            tales: self.tales@,
            episodes: self.episodes@,
            mint_activities: self.mint_activities@,
        }
    }
}

impl ReadingView {
    /// Every record in the ledger is within the bounds of its fields and has
    /// the space of its kind.
    pub open spec fn wf(self) -> bool {
        &&& forall|at: Seq<u8>| #[trigger]
            self.tales.contains_key(at) ==> {
                &&& self.tales[at].record.wf()
                &&& self.tales[at].space == TALE_ACCOUNT_SPACE
            }
        &&& forall|at: Seq<u8>| #[trigger]
            self.episodes.contains_key(at) ==> {
                &&& self.episodes[at].record.wf()
                &&& self.episodes[at].space == EPISODE_ACCOUNT_SPACE
            }
        &&& forall|at: Seq<u8>| #[trigger]
            self.mint_activities.contains_key(at) ==> {
                &&& self.mint_activities[at].record.wf()
                &&& self.mint_activities[at].space == MINT_ACTIVITY_ACCOUNT_SPACE
            }
    }

    /// Every record lives at the address that its own seeds derive, under
    /// the nonce that it stores. The operations of the program put records
    /// nowhere else.
    pub open spec fn placed(self) -> bool {
        &&& forall|at: Seq<u8>| #[trigger]
            self.tales.contains_key(at) ==> placed(
                self.program,
                TALE_TAG@,
                tale_seeds(self.tales[at].record.tale_id),
                self.tales[at].record.bump,
                at,
            )
        &&& forall|at: Seq<u8>| #[trigger]
            self.episodes.contains_key(at) ==> placed(
                self.program,
                EPISODE_TAG@,
                episode_seeds(
                    self.episodes[at].record.parent_tale,
                    self.episodes[at].record.episode_id_seed,
                ),
                self.episodes[at].record.bump,
                at,
            )
        &&& forall|at: Seq<u8>| #[trigger]
            self.mint_activities.contains_key(at) ==> placed(
                self.program,
                MINT_ACTIVITY_TAG@,
                mint_activity_seeds(
                    self.mint_activities[at].record.user_wallet,
                    self.mint_activities[at].record.nft_mint_address,
                ),
                self.mint_activities[at].record.bump,
                at,
            )
    }
}

/// The seeds of a tale after its tag: its id.
pub open spec fn tale_seeds(tale_id: Seq<char>) -> Seq<Seq<u8>> {
    seq![text_bytes(tale_id)]
}

/// The seeds of an episode after its tag: its tale and its seed.
pub open spec fn episode_seeds(parent_tale: Seq<u8>, episode_id_seed: Seq<char>) -> Seq<Seq<u8>> {
    seq![parent_tale, text_bytes(episode_id_seed)]
}

/// The seeds of the log of a mint after its tag: the minter and the token.
pub open spec fn mint_activity_seeds(user_wallet: Seq<u8>, nft_mint_address: Seq<u8>) -> Seq<
    Seq<u8>,
> {
    seq![user_wallet, nft_mint_address]
}

/// A refusal of access as a failure of the program.
pub open spec fn denied(e: Option<AccessError>) -> Option<Failure<AppError>> {
    match e {
        Some(AccessError::AddressMismatch) => Some(Failure::Store(StoreError::AddressMismatch)),
        Some(AccessError::Unauthorized) => Some(Failure::Rule(AppError::Unauthorized)),
        None => None,
    }
}

/// A broken rule as a failure of the program.
pub open spec fn broken(e: Option<AppError>) -> Option<Failure<AppError>> {
    match e {
        Some(e) => Some(Failure::Rule(e)),
        None => None,
    }
}

/// Why the signer has no access to the tale at an address, or `None` where
/// the signer has.
pub open spec fn tale_access_refusal(ledger: ReadingView, at: Seq<u8>, signer: Seq<u8>) -> Option<
    Failure<AppError>,
> {
    if !ledger.tales.contains_key(at) {
        Some(Failure::Store(StoreError::RecordNotFound))
    } else {
        let tale = ledger.tales[at].record;
        denied(
            access_refusal(
                at,
                ledger.program,
                TALE_TAG@,
                tale_seeds(tale.tale_id),
                tale.bump,
                tale.author,
                signer,
            ),
        )
    }
}

/// Why the signer has no access to the episode at an address, or `None`
/// where the signer has. The author is the copy that the episode keeps.
pub open spec fn episode_access_refusal(ledger: ReadingView, at: Seq<u8>, signer: Seq<u8>) -> Option<
    Failure<AppError>,
> {
    if !ledger.episodes.contains_key(at) {
        Some(Failure::Store(StoreError::RecordNotFound))
    } else {
        let episode = ledger.episodes[at].record;
        denied(
            access_refusal(
                at,
                ledger.program,
                EPISODE_TAG@,
                episode_seeds(episode.parent_tale, episode.episode_id_seed),
                episode.bump,
                episode.author,
                signer,
            ),
        )
    }
}

/// Why the signer has no access to the log of a mint at an address, or
/// `None` where the signer has. The address is derived again from the
/// signer and the token that the log names.
pub open spec fn mint_activity_access_refusal(
    ledger: ReadingView,
    at: Seq<u8>,
    signer: Seq<u8>,
) -> Option<Failure<AppError>> {
    if !ledger.mint_activities.contains_key(at) {
        Some(Failure::Store(StoreError::RecordNotFound))
    } else {
        let activity = ledger.mint_activities[at].record;
        denied(
            access_refusal(
                at,
                ledger.program,
                MINT_ACTIVITY_TAG@,
                mint_activity_seeds(signer, activity.nft_mint_address),
                activity.bump,
                activity.user_wallet,
                signer,
            ),
        )
    }
}

/// Why `create_tale` fails, or `None` where it succeeds.
pub open spec fn create_tale_refusal(
    ledger: ReadingView,
    tale_account: Seq<u8>,
    tale_id: Seq<char>,
    title: Seq<char>,
    content_cid: Seq<char>,
    genre: Seq<char>,
    cover_image_cid: Seq<char>,
    initial_status: u8,
) -> Option<Failure<AppError>> {
    match placement_refusal(
        ledger.tales,
        ledger.program,
        TALE_TAG@,
        tale_seeds(tale_id),
        tale_account,
    ) {
        Some(e) => Some(Failure::Store(e)),
        None => broken(
            tale_refusal(tale_id, title, content_cid, genre, cover_image_cid, initial_status),
        ),
    }
}

/// Why `update_tale` fails, or `None` where it succeeds.
pub open spec fn update_tale_refusal(
    ledger: ReadingView,
    tale_account: Seq<u8>,
    signer: Seq<u8>,
    title: Seq<char>,
    content_cid: Seq<char>,
    genre: Seq<char>,
    cover_image_cid: Seq<char>,
    status: u8,
) -> Option<Failure<AppError>> {
    match tale_access_refusal(ledger, tale_account, signer) {
        Some(e) => Some(e),
        None => broken(tale_fields_refusal(title, content_cid, genre, cover_image_cid, status)),
    }
}

/// Why `delete_tale` fails, or `None` where it succeeds.
pub open spec fn delete_tale_refusal(ledger: ReadingView, tale_account: Seq<u8>, signer: Seq<u8>) -> Option<
    Failure<AppError>,
> {
    match tale_access_refusal(ledger, tale_account, signer) {
        Some(e) => Some(e),
        None => if ledger.tales[tale_account].record.status == PUBLISHED {
            Some(Failure::Rule(AppError::CannotDeletePublished))
        } else {
            None
        },
    }
}

/// Why `create_episode` fails, or `None` where it succeeds: the tale must be
/// there, the episode's address must be the derived one and free, the signer
/// must be the tale's author, and the fields must be within bounds.
pub open spec fn create_episode_refusal(
    ledger: ReadingView,
    episode_account: Seq<u8>,
    parent_tale_account: Seq<u8>,
    signer: Seq<u8>,
    episode_id_seed: Seq<char>,
    episode_name: Seq<char>,
    content_cid: Seq<char>,
    image_set_id: Seq<char>,
    candy_machine_id: Seq<char>,
    initial_status: u8,
) -> Option<Failure<AppError>> {
    if !ledger.tales.contains_key(parent_tale_account) {
        Some(Failure::Store(StoreError::RecordNotFound))
    } else {
        match placement_refusal(
            ledger.episodes,
            ledger.program,
            EPISODE_TAG@,
            episode_seeds(parent_tale_account, episode_id_seed),
            episode_account,
        ) {
            Some(e) => Some(Failure::Store(e)),
            None => if ledger.tales[parent_tale_account].record.author != signer {
                Some(Failure::Rule(AppError::Unauthorized))
            } else {
                broken(
                    episode_refusal(
                        episode_id_seed,
                        episode_name,
                        content_cid,
                        image_set_id,
                        candy_machine_id,
                        initial_status,
                    ),
                )
            },
        }
    }
}

/// Why `update_episode` fails, or `None` where it succeeds.
pub open spec fn update_episode_refusal(
    ledger: ReadingView,
    episode_account: Seq<u8>,
    signer: Seq<u8>,
    episode_name: Seq<char>,
    content_cid: Seq<char>,
    image_set_id: Seq<char>,
    candy_machine_id: Seq<char>,
    status: u8,
) -> Option<Failure<AppError>> {
    match episode_access_refusal(ledger, episode_account, signer) {
        Some(e) => Some(e),
        None => broken(
            episode_fields_refusal(episode_name, content_cid, image_set_id, candy_machine_id, status),
        ),
    }
}

/// Why `log_mint_activity` fails, or `None` where it succeeds.
pub open spec fn log_mint_activity_refusal(
    ledger: ReadingView,
    mint_activity_account: Seq<u8>,
    nft_mint_address: Seq<u8>,
    user_wallet: Seq<u8>,
    transaction_signature: Seq<char>,
) -> Option<Failure<AppError>> {
    match placement_refusal(
        ledger.mint_activities,
        ledger.program,
        MINT_ACTIVITY_TAG@,
        mint_activity_seeds(user_wallet, nft_mint_address),
        mint_activity_account,
    ) {
        Some(e) => Some(Failure::Store(e)),
        None => if !fits(transaction_signature, MAX_TX_SIGNATURE_LENGTH) {
            Some(Failure::Rule(AppError::TxSignatureTooLong))
        } else {
            None
        },
    }
}

/// Why `cancel_mint_activity` fails, or `None` where it succeeds.
pub open spec fn cancel_mint_activity_refusal(
    ledger: ReadingView,
    mint_activity_account: Seq<u8>,
    signer: Seq<u8>,
) -> Option<Failure<AppError>> {
    match mint_activity_access_refusal(ledger, mint_activity_account, signer) {
        Some(e) => Some(e),
        None => if ledger.mint_activities[mint_activity_account].record.status == CANCELLED {
            Some(Failure::Rule(AppError::MintActivityAlreadyCancelled))
        } else {
            None
        },
    }
}

fn seeds_of_tale(tale_id: &str) -> (r: Vec<Vec<u8>>)
    ensures
        seeds_view(r@) == tale_seeds(tale_id@),
{
    let mut seeds: Vec<Vec<u8>> = Vec::new();
    seeds.push(text_seed(tale_id));
    assert(seeds_view(seeds@) =~= tale_seeds(tale_id@));
    seeds
}

fn seeds_of_episode(parent_tale: &Address, episode_id_seed: &str) -> (r: Vec<Vec<u8>>)
    ensures
        seeds_view(r@) == episode_seeds(parent_tale@, episode_id_seed@),
{
    let mut seeds: Vec<Vec<u8>> = Vec::new();
    seeds.push(parent_tale.as_seed());
    seeds.push(text_seed(episode_id_seed));
    assert(seeds_view(seeds@) =~= episode_seeds(parent_tale@, episode_id_seed@));
    seeds
}

fn seeds_of_mint_activity(user_wallet: &Address, nft_mint_address: &Address) -> (r: Vec<Vec<u8>>)
    ensures
        seeds_view(r@) == mint_activity_seeds(user_wallet@, nft_mint_address@),
{
    let mut seeds: Vec<Vec<u8>> = Vec::new();
    seeds.push(user_wallet.as_seed());
    seeds.push(nft_mint_address.as_seed());
    assert(seeds_view(seeds@) =~= mint_activity_seeds(user_wallet@, nft_mint_address@));
    seeds
}

fn deny(e: AccessError) -> (r: Failure<AppError>)
    ensures
        denied(Some(e)) == Some(r),
{
    match e {
        AccessError::AddressMismatch => Failure::Store(StoreError::AddressMismatch),
        AccessError::Unauthorized => Failure::Rule(AppError::Unauthorized),
    }
}

impl ReadingLedger {
    /// The stores hold no address twice, and every record is within the
    /// bounds of its fields.
    pub open spec fn wf(&self) -> bool {
        &&& self.tales.wf()
        &&& self.episodes.wf()
        &&& self.mint_activities.wf()
        &&& self@.wf()
    }

    /// The empty ledger of a program.
    pub fn new(program: Address) -> (r: ReadingLedger)
        ensures
            r.wf(),
            r@.placed(),
            r@.program == program@,
            r@.tales == Map::<Seq<u8>, Entry<TaleView>>::empty(),
            r@.episodes == Map::<Seq<u8>, Entry<EpisodeView>>::empty(),
            r@.mint_activities == Map::<Seq<u8>, Entry<MintActivityView>>::empty(),
    {
        ReadingLedger {
            program,
            tales: RecordStore::new(),
            episodes: RecordStore::new(),
            mint_activities: RecordStore::new(),
        }
    }

    /// The address of the tale of an id, with its nonce.
    pub fn tale_address(&self, tale_id: &str) -> (r: Option<(Address, u8)>)
        ensures
            crate::address::is_derivation(self.program@, TALE_TAG@, tale_seeds(tale_id@), r),
    {
        crate::address::derive(&self.program, TALE_TAG, seeds_of_tale(tale_id))
    }

    /// The address of the episode of a tale and a seed, with its nonce.
    pub fn episode_address(&self, parent_tale: &Address, episode_id_seed: &str) -> (r: Option<
        (Address, u8),
    >)
        ensures
            crate::address::is_derivation(
                self.program@,
                EPISODE_TAG@,
                episode_seeds(parent_tale@, episode_id_seed@),
                r,
            ),
    {
        crate::address::derive(
            &self.program,
            EPISODE_TAG,
            seeds_of_episode(parent_tale, episode_id_seed),
        )
    }

    /// The address of the log of a mint, with its nonce.
    pub fn mint_activity_address(&self, user_wallet: &Address, nft_mint_address: &Address) -> (r:
        Option<(Address, u8)>)
        ensures
            crate::address::is_derivation(
                self.program@,
                MINT_ACTIVITY_TAG@,
                mint_activity_seeds(user_wallet@, nft_mint_address@),
                r,
            ),
    {
        crate::address::derive(
            &self.program,
            MINT_ACTIVITY_TAG,
            seeds_of_mint_activity(user_wallet, nft_mint_address),
        )
    }

    fn tale_access(&self, at: &Address, signer: &Address) -> (r: Result<(), Failure<AppError>>)
        requires
            self.wf(),
        ensures
            match r {
                Ok(()) => tale_access_refusal(self@, at@, signer@) is None,
                Err(e) => tale_access_refusal(self@, at@, signer@) == Some(e),
            },
    {
        let tale = match self.tales.load(at) {
            Ok(tale) => tale,
            Err(_) => {
                return Err(Failure::Store(StoreError::RecordNotFound));
            },
        };
        match check_access(
            at,
            &self.program,
            TALE_TAG,
            seeds_of_tale(tale.tale_id.as_str()),
            tale.bump,
            &tale.author,
            signer,
        ) {
            Ok(()) => Ok(()),
            Err(e) => Err(deny(e)),
        }
    }

    fn episode_access(&self, at: &Address, signer: &Address) -> (r: Result<(), Failure<AppError>>)
        requires
            self.wf(),
        ensures
            match r {
                Ok(()) => episode_access_refusal(self@, at@, signer@) is None,
                Err(e) => episode_access_refusal(self@, at@, signer@) == Some(e),
            },
    {
        let episode = match self.episodes.load(at) {
            Ok(episode) => episode,
            Err(_) => {
                return Err(Failure::Store(StoreError::RecordNotFound));
            },
        };
        match check_access(
            at,
            &self.program,
            EPISODE_TAG,
            seeds_of_episode(&episode.parent_tale, episode.episode_id_seed.as_str()),
            episode.bump,
            &episode.author,
            signer,
        ) {
            Ok(()) => Ok(()),
            Err(e) => Err(deny(e)),
        }
    }

    fn mint_activity_access(&self, at: &Address, signer: &Address) -> (r: Result<
        (),
        Failure<AppError>,
    >)
        requires
            self.wf(),
        ensures
            match r {
                Ok(()) => mint_activity_access_refusal(self@, at@, signer@) is None,
                Err(e) => mint_activity_access_refusal(self@, at@, signer@) == Some(e),
            },
    {
        let activity = match self.mint_activities.load(at) {
            Ok(activity) => activity,
            Err(_) => {
                return Err(Failure::Store(StoreError::RecordNotFound));
            },
        };
        match check_access(
            at,
            &self.program,
            MINT_ACTIVITY_TAG,
            seeds_of_mint_activity(signer, &activity.nft_mint_address),
            activity.bump,
            &activity.user_wallet,
            signer,
        ) {
            Ok(()) => Ok(()),
            Err(e) => Err(deny(e)),
        }
    }
}

/// Makes a tale at the address derived for its id. Hands out the
/// reservation for it, to be charged to the author.
pub fn create_tale(
    ledger: &mut ReadingLedger,
    ctx: &CreateTale,
    now: i64,
    tale_id: String,
    title: String,
    content_cid: String,
    genre: String,
    cover_image_cid: String,
    initial_status: u8,
) -> (r: Result<Deposit, Failure<AppError>>)
    requires
        old(ledger).wf(),
    ensures
        final(ledger).wf(),
        old(ledger)@.placed() ==> final(ledger)@.placed(),
        match r {
            Ok(reserve) => {
                &&& create_tale_refusal(
                    old(ledger)@,
                    ctx.tale_account@,
                    tale_id@,
                    title@,
                    content_cid@,
                    genre@,
                    cover_image_cid@,
                    initial_status,
                ) is None
                &&& reserve.holder == ctx.author
                &&& reserve.space == TALE_ACCOUNT_SPACE
                &&& final(ledger)@ == (ReadingView {
                    tales: old(ledger)@.tales.insert(
                        ctx.tale_account@,
                        Entry {
                            space: TALE_ACCOUNT_SPACE,
                            record: TaleView {
                                author: ctx.author@,
                                tale_id: tale_id@,
                                title: title@,
                                content_cid: content_cid@,
                                genre: genre@,
                                cover_image_cid: cover_image_cid@,
                                status: initial_status,
                                timestamp: now,
                                bump: crate::store::nonce_of(
                                    old(ledger)@.program,
                                    TALE_TAG@,
                                    tale_seeds(tale_id@),
                                ),
                            },
                        },
                    ),
                    ..old(ledger)@
                })
            },
            Err(e) => {
                &&& create_tale_refusal(
                    old(ledger)@,
                    ctx.tale_account@,
                    tale_id@,
                    title@,
                    content_cid@,
                    genre@,
                    cover_image_cid@,
                    initial_status,
                ) == Some(e)
                &&& final(ledger)@ == old(ledger)@
            },
        },
{
    let bump = match ledger.tales.placement(
        &ledger.program,
        TALE_TAG,
        seeds_of_tale(tale_id.as_str()),
        &ctx.tale_account,
    ) {
        Ok(nonce) => nonce,
        Err(e) => {
            return Err(Failure::Store(e));
        },
    };
    let tale = match Tale::new(
        ctx.author,
        bump,
        now,
        tale_id,
        title,
        content_cid,
        genre,
        cover_image_cid,
        initial_status,
    ) {
        Ok(tale) => tale,
        Err(e) => {
            return Err(Failure::Rule(e));
        },
    };
    ledger.tales.put(ctx.tale_account, TALE_ACCOUNT_SPACE, tale);
    Ok(Deposit { holder: ctx.author, space: TALE_ACCOUNT_SPACE })
}

/// Rewrites a tale for its author.
pub fn update_tale(
    ledger: &mut ReadingLedger,
    ctx: &UpdateTale,
    now: i64,
    new_title: String,
    new_content_cid: String,
    new_genre: String,
    new_cover_image_cid: String,
    new_status: u8,
) -> (r: Result<(), Failure<AppError>>)
    requires
        old(ledger).wf(),
    ensures
        final(ledger).wf(),
        old(ledger)@.placed() ==> final(ledger)@.placed(),
        match r {
            Ok(()) => {
                &&& update_tale_refusal(
                    old(ledger)@,
                    ctx.tale_account@,
                    ctx.author@,
                    new_title@,
                    new_content_cid@,
                    new_genre@,
                    new_cover_image_cid@,
                    new_status,
                ) is None
                &&& final(ledger)@ == (ReadingView {
                    tales: old(ledger)@.tales.insert(
                        ctx.tale_account@,
                        Entry {
                            space: old(ledger)@.tales[ctx.tale_account@].space,
                            record: TaleView {
                                title: new_title@,
                                content_cid: new_content_cid@,
                                genre: new_genre@,
                                cover_image_cid: new_cover_image_cid@,
                                status: new_status,
                                timestamp: now,
                                ..old(ledger)@.tales[ctx.tale_account@].record
                            },
                        },
                    ),
                    ..old(ledger)@
                })
            },
            Err(e) => {
                &&& update_tale_refusal(
                    old(ledger)@,
                    ctx.tale_account@,
                    ctx.author@,
                    new_title@,
                    new_content_cid@,
                    new_genre@,
                    new_cover_image_cid@,
                    new_status,
                ) == Some(e)
                &&& final(ledger)@ == old(ledger)@
            },
        },
{
    match ledger.tale_access(&ctx.tale_account, &ctx.author) {
        Ok(()) => {},
        Err(e) => {
            return Err(e);
        },
    }
    let (mut tale, space) = match ledger.tales.take(&ctx.tale_account) {
        Some(taken) => taken,
        None => {
            return Err(Failure::Store(StoreError::RecordNotFound));
        },
    };
    let outcome = tale.update(
        now,
        new_title,
        new_content_cid,
        new_genre,
        new_cover_image_cid,
        new_status,
    );
    let ghost after = tale@;
    ledger.tales.put(ctx.tale_account, space, tale);
    assert(ledger.tales@ =~= old(ledger).tales@.insert(
        ctx.tale_account@,
        Entry { space, record: after },
    ));
    match outcome {
        Ok(()) => Ok(()),
        Err(e) => {
            assert(ledger.tales@ =~= old(ledger).tales@);
            assert(ledger@ == old(ledger)@);
            Err(Failure::Rule(e))
        },
    }
}

/// Deletes a tale for its author, unless the tale is published. Hands out
/// the release of the tale's space, to be paid to the author.
pub fn delete_tale(ledger: &mut ReadingLedger, ctx: &DeleteTale) -> (r: Result<
    Deposit,
    Failure<AppError>,
>)
    requires
        old(ledger).wf(),
    ensures
        final(ledger).wf(),
        old(ledger)@.placed() ==> final(ledger)@.placed(),
        match r {
            Ok(release) => {
                &&& delete_tale_refusal(old(ledger)@, ctx.tale_account@, ctx.author@) is None
                &&& release.holder == ctx.author
                &&& release.space == old(ledger)@.tales[ctx.tale_account@].space
                &&& final(ledger)@ == (ReadingView {
                    tales: old(ledger)@.tales.remove(ctx.tale_account@),
                    ..old(ledger)@
                })
            },
            Err(e) => {
                &&& delete_tale_refusal(old(ledger)@, ctx.tale_account@, ctx.author@) == Some(e)
                &&& final(ledger)@ == old(ledger)@
            },
        },
{
    match ledger.tale_access(&ctx.tale_account, &ctx.author) {
        Ok(()) => {},
        Err(e) => {
            return Err(e);
        },
    }
    let deletable = match ledger.tales.load(&ctx.tale_account) {
        Ok(tale) => tale.check_delete(),
        Err(_) => {
            return Err(Failure::Store(StoreError::RecordNotFound));
        },
    };
    match deletable {
        Ok(()) => {},
        Err(e) => {
            return Err(Failure::Rule(e));
        },
    }
    match ledger.tales.destroy(&ctx.tale_account, ctx.author) {
        Ok((_, release)) => Ok(release),
        Err(e) => Err(Failure::Store(e)),
    }
}

/// Makes an episode under a tale for the tale's author, at the address
/// derived for the tale and the episode's seed. Hands out the reservation
/// for it, to be charged to the author.
pub fn create_episode(
    ledger: &mut ReadingLedger,
    ctx: &CreateEpisode,
    now: i64,
    episode_id_seed: String,
    episode_name: String,
    content_cid: String,
    image_set_id: String,
    order: u32,
    initial_status: u8,
    is_nft: bool,
    candy_machine_id: String,
) -> (r: Result<Deposit, Failure<AppError>>)
    requires
        old(ledger).wf(),
    ensures
        final(ledger).wf(),
        old(ledger)@.placed() ==> final(ledger)@.placed(),
        match r {
            Ok(reserve) => {
                &&& create_episode_refusal(
                    old(ledger)@,
                    ctx.episode_account@,
                    ctx.parent_tale_account@,
                    ctx.author@,
                    episode_id_seed@,
                    episode_name@,
                    content_cid@,
                    image_set_id@,
                    candy_machine_id@,
                    initial_status,
                ) is None
                &&& reserve.holder == ctx.author
                &&& reserve.space == EPISODE_ACCOUNT_SPACE
                &&& final(ledger)@ == (ReadingView {
                    episodes: old(ledger)@.episodes.insert(
                        ctx.episode_account@,
                        Entry {
                            space: EPISODE_ACCOUNT_SPACE,
                            record: EpisodeView {
                                author: ctx.author@,
                                parent_tale: ctx.parent_tale_account@,
                                episode_id_seed: episode_id_seed@,
                                episode_name: episode_name@,
                                content_cid: content_cid@,
                                image_set_id: image_set_id@,
                                order,
                                status: initial_status,
                                is_nft,
                                candy_machine_id: kept_candy_machine(is_nft, candy_machine_id@),
                                timestamp: now,
                                bump: crate::store::nonce_of(
                                    old(ledger)@.program,
                                    EPISODE_TAG@,
                                    episode_seeds(ctx.parent_tale_account@, episode_id_seed@),
                                ),
                            },
                        },
                    ),
                    ..old(ledger)@
                })
            },
            Err(e) => {
                &&& create_episode_refusal(
                    old(ledger)@,
                    ctx.episode_account@,
                    ctx.parent_tale_account@,
                    ctx.author@,
                    episode_id_seed@,
                    episode_name@,
                    content_cid@,
                    image_set_id@,
                    candy_machine_id@,
                    initial_status,
                ) == Some(e)
                &&& final(ledger)@ == old(ledger)@
            },
        },
{
    let tale_author = match ledger.tales.load(&ctx.parent_tale_account) {
        Ok(tale) => tale.author,
        Err(_) => {
            return Err(Failure::Store(StoreError::RecordNotFound));
        },
    };
    let bump = match ledger.episodes.placement(
        &ledger.program,
        EPISODE_TAG,
        seeds_of_episode(&ctx.parent_tale_account, episode_id_seed.as_str()),
        &ctx.episode_account,
    ) {
        Ok(nonce) => nonce,
        Err(e) => {
            return Err(Failure::Store(e));
        },
    };
    if tale_author != ctx.author {
        return Err(Failure::Rule(AppError::Unauthorized));
    }
    let episode = match Episode::new(
        ctx.author,
        ctx.parent_tale_account,
        bump,
        now,
        episode_id_seed,
        episode_name,
        content_cid,
        image_set_id,
        order,
        initial_status,
        is_nft,
        candy_machine_id,
    ) {
        Ok(episode) => episode,
        Err(e) => {
            return Err(Failure::Rule(e));
        },
    };
    ledger.episodes.put(ctx.episode_account, EPISODE_ACCOUNT_SPACE, episode);
    Ok(Deposit { holder: ctx.author, space: EPISODE_ACCOUNT_SPACE })
}

/// Rewrites an episode for its author.
pub fn update_episode(
    ledger: &mut ReadingLedger,
    ctx: &UpdateEpisode,
    now: i64,
    new_episode_name: String,
    new_content_cid: String,
    new_image_set_id: String,
    new_order: u32,
    new_status: u8,
    new_is_nft: bool,
    new_candy_machine_id: String,
) -> (r: Result<(), Failure<AppError>>)
    requires
        old(ledger).wf(),
    ensures
        final(ledger).wf(),
        old(ledger)@.placed() ==> final(ledger)@.placed(),
        match r {
            Ok(()) => {
                &&& update_episode_refusal(
                    old(ledger)@,
                    ctx.episode_account@,
                    ctx.author@,
                    new_episode_name@,
                    new_content_cid@,
                    new_image_set_id@,
                    new_candy_machine_id@,
                    new_status,
                ) is None
                &&& final(ledger)@ == (ReadingView {
                    episodes: old(ledger)@.episodes.insert(
                        ctx.episode_account@,
                        Entry {
                            space: old(ledger)@.episodes[ctx.episode_account@].space,
                            record: EpisodeView {
                                episode_name: new_episode_name@,
                                content_cid: new_content_cid@,
                                image_set_id: new_image_set_id@,
                                order: new_order,
                                status: new_status,
                                is_nft: new_is_nft,
                                candy_machine_id: kept_candy_machine(
                                    new_is_nft,
                                    new_candy_machine_id@,
                                ),
                                timestamp: now,
                                ..old(ledger)@.episodes[ctx.episode_account@].record
                            },
                        },
                    ),
                    ..old(ledger)@
                })
            },
            Err(e) => {
                &&& update_episode_refusal(
                    old(ledger)@,
                    ctx.episode_account@,
                    ctx.author@,
                    new_episode_name@,
                    new_content_cid@,
                    new_image_set_id@,
                    new_candy_machine_id@,
                    new_status,
                ) == Some(e)
                &&& final(ledger)@ == old(ledger)@
            },
        },
{
    match ledger.episode_access(&ctx.episode_account, &ctx.author) {
        Ok(()) => {},
        Err(e) => {
            return Err(e);
        },
    }
    let (mut episode, space) = match ledger.episodes.take(&ctx.episode_account) {
        Some(taken) => taken,
        None => {
            return Err(Failure::Store(StoreError::RecordNotFound));
        },
    };
    let outcome = episode.update(
        now,
        new_episode_name,
        new_content_cid,
        new_image_set_id,
        new_order,
        new_status,
        new_is_nft,
        new_candy_machine_id,
    );
    let ghost after = episode@;
    ledger.episodes.put(ctx.episode_account, space, episode);
    assert(ledger.episodes@ =~= old(ledger).episodes@.insert(
        ctx.episode_account@,
        Entry { space, record: after },
    ));
    match outcome {
        Ok(()) => Ok(()),
        Err(e) => {
            assert(ledger.episodes@ =~= old(ledger).episodes@);
            assert(ledger@ == old(ledger)@);
            Err(Failure::Rule(e))
        },
    }
}

/// Deletes an episode for its author. Hands out the release of the
/// episode's space, to be paid to the author.
pub fn delete_episode(ledger: &mut ReadingLedger, ctx: &DeleteEpisode) -> (r: Result<
    Deposit,
    Failure<AppError>,
>)
    requires
        old(ledger).wf(),
    ensures
        final(ledger).wf(),
        old(ledger)@.placed() ==> final(ledger)@.placed(),
        match r {
            Ok(release) => {
                &&& episode_access_refusal(old(ledger)@, ctx.episode_account@, ctx.author@) is None
                &&& release.holder == ctx.author
                &&& release.space == old(ledger)@.episodes[ctx.episode_account@].space
                &&& final(ledger)@ == (ReadingView {
                    episodes: old(ledger)@.episodes.remove(ctx.episode_account@),
                    ..old(ledger)@
                })
            },
            Err(e) => {
                &&& episode_access_refusal(old(ledger)@, ctx.episode_account@, ctx.author@)
                    == Some(e)
                &&& final(ledger)@ == old(ledger)@
            },
        },
{
    match ledger.episode_access(&ctx.episode_account, &ctx.author) {
        Ok(()) => {},
        Err(e) => {
            return Err(e);
        },
    }
    match ledger.episodes.destroy(&ctx.episode_account, ctx.author) {
        Ok((_, release)) => Ok(release),
        Err(e) => Err(Failure::Store(e)),
    }
}

/// Logs a mint at the address derived for the minter and the minted token.
/// Hands out the reservation for the log, to be charged to the minter.
pub fn log_mint_activity(
    ledger: &mut ReadingLedger,
    ctx: &LogMintActivity,
    now: i64,
    candy_machine_id_arg: Address,
    transaction_signature_str: String,
    episode_on_chain_pda_option: Option<Address>,
) -> (r: Result<Deposit, Failure<AppError>>)
    requires
        old(ledger).wf(),
    ensures
        final(ledger).wf(),
        old(ledger)@.placed() ==> final(ledger)@.placed(),
        match r {
            Ok(reserve) => {
                &&& log_mint_activity_refusal(
                    old(ledger)@,
                    ctx.mint_activity_account@,
                    ctx.nft_mint_address@,
                    ctx.user_wallet@,
                    transaction_signature_str@,
                ) is None
                &&& reserve.holder == ctx.user_wallet
                &&& reserve.space == MINT_ACTIVITY_ACCOUNT_SPACE
                &&& final(ledger)@ == (ReadingView {
                    mint_activities: old(ledger)@.mint_activities.insert(
                        ctx.mint_activity_account@,
                        Entry {
                            space: MINT_ACTIVITY_ACCOUNT_SPACE,
                            record: MintActivityView {
                                user_wallet: ctx.user_wallet@,
                                candy_machine_id: candy_machine_id_arg@,
                                nft_mint_address: ctx.nft_mint_address@,
                                transaction_signature: transaction_signature_str@,
                                episode_on_chain_pda: optional_view(episode_on_chain_pda_option),
                                timestamp: now,
                                status: ACTIVE,
                                bump: crate::store::nonce_of(
                                    old(ledger)@.program,
                                    MINT_ACTIVITY_TAG@,
                                    mint_activity_seeds(ctx.user_wallet@, ctx.nft_mint_address@),
                                ),
                            },
                        },
                    ),
                    ..old(ledger)@
                })
            },
            Err(e) => {
                &&& log_mint_activity_refusal(
                    old(ledger)@,
                    ctx.mint_activity_account@,
                    ctx.nft_mint_address@,
                    ctx.user_wallet@,
                    transaction_signature_str@,
                ) == Some(e)
                &&& final(ledger)@ == old(ledger)@
            },
        },
{
    let bump = match ledger.mint_activities.placement(
        &ledger.program,
        MINT_ACTIVITY_TAG,
        seeds_of_mint_activity(&ctx.user_wallet, &ctx.nft_mint_address),
        &ctx.mint_activity_account,
    ) {
        Ok(nonce) => nonce,
        Err(e) => {
            return Err(Failure::Store(e));
        },
    };
    let activity = match MintActivity::new(
        ctx.user_wallet,
        candy_machine_id_arg,
        ctx.nft_mint_address,
        bump,
        now,
        transaction_signature_str,
        episode_on_chain_pda_option,
    ) {
        Ok(activity) => activity,
        Err(e) => {
            return Err(Failure::Rule(e));
        },
    };
    ledger.mint_activities.put(ctx.mint_activity_account, MINT_ACTIVITY_ACCOUNT_SPACE, activity);
    Ok(Deposit { holder: ctx.user_wallet, space: MINT_ACTIVITY_ACCOUNT_SPACE })
}

/// Cancels a logged mint for the minter.
pub fn cancel_mint_activity(ledger: &mut ReadingLedger, ctx: &CancelMintActivity, now: i64) -> (r:
    Result<(), Failure<AppError>>)
    requires
        old(ledger).wf(),
    ensures
        final(ledger).wf(),
        old(ledger)@.placed() ==> final(ledger)@.placed(),
        match r {
            Ok(()) => {
                &&& cancel_mint_activity_refusal(
                    old(ledger)@,
                    ctx.mint_activity_account@,
                    ctx.user_wallet@,
                ) is None
                &&& final(ledger)@ == (ReadingView {
                    mint_activities: old(ledger)@.mint_activities.insert(
                        ctx.mint_activity_account@,
                        Entry {
                            space: old(ledger)@.mint_activities[ctx.mint_activity_account@].space,
                            record: MintActivityView {
                                status: CANCELLED,
                                timestamp: now,
                                ..old(ledger)@.mint_activities[ctx.mint_activity_account@].record
                            },
                        },
                    ),
                    ..old(ledger)@
                })
            },
            Err(e) => {
                &&& cancel_mint_activity_refusal(
                    old(ledger)@,
                    ctx.mint_activity_account@,
                    ctx.user_wallet@,
                ) == Some(e)
                &&& final(ledger)@ == old(ledger)@
            },
        },
{
    match ledger.mint_activity_access(&ctx.mint_activity_account, &ctx.user_wallet) {
        Ok(()) => {},
        Err(e) => {
            return Err(e);
        },
    }
    let (mut activity, space) = match ledger.mint_activities.take(&ctx.mint_activity_account) {
        Some(taken) => taken,
        None => {
            return Err(Failure::Store(StoreError::RecordNotFound));
        },
    };
    let outcome = activity.cancel(now);
    let ghost after = activity@;
    ledger.mint_activities.put(ctx.mint_activity_account, space, activity);
    assert(ledger.mint_activities@ =~= old(ledger).mint_activities@.insert(
        ctx.mint_activity_account@,
        Entry { space, record: after },
    ));
    match outcome {
        Ok(()) => Ok(()),
        Err(e) => {
            assert(ledger.mint_activities@ =~= old(ledger).mint_activities@);
            assert(ledger@ == old(ledger)@);
            Err(Failure::Rule(e))
        },
    }
}

/// Closes the log of a mint for the minter. Hands out the release of the
/// log's space, to be paid to the minter.
pub fn close_mint_activity_account(ledger: &mut ReadingLedger, ctx: &CloseMintActivityAccount) -> (r:
    Result<Deposit, Failure<AppError>>)
    requires
        old(ledger).wf(),
    ensures
        final(ledger).wf(),
        old(ledger)@.placed() ==> final(ledger)@.placed(),
        match r {
            Ok(release) => {
                &&& mint_activity_access_refusal(
                    old(ledger)@,
                    ctx.mint_activity_account@,
                    ctx.user_wallet@,
                ) is None
                &&& release.holder == ctx.user_wallet
                &&& release.space == old(ledger)@.mint_activities[ctx.mint_activity_account@].space
                &&& final(ledger)@ == (ReadingView {
                    mint_activities: old(ledger)@.mint_activities.remove(
                        ctx.mint_activity_account@,
                    ),
                    ..old(ledger)@
                })
            },
            Err(e) => {
                &&& mint_activity_access_refusal(
                    old(ledger)@,
                    ctx.mint_activity_account@,
                    ctx.user_wallet@,
                ) == Some(e)
                &&& final(ledger)@ == old(ledger)@
            },
        },
{
    match ledger.mint_activity_access(&ctx.mint_activity_account, &ctx.user_wallet) {
        Ok(()) => {},
        Err(e) => {
            return Err(e);
        },
    }
    match ledger.mint_activities.destroy(&ctx.mint_activity_account, ctx.user_wallet) {
        Ok((_, release)) => Ok(release),
        Err(e) => Err(Failure::Store(e)),
    }
}

} // verus!
