//! The story program over its stores.
//!
//! A tale lives at the address derived from the tag `tale` and its id; an
//! episode at the address derived from the tag `episode`, its tale's address
//! and its seed. A record is rewritten or deleted only at its own address
//! and by its own author; anyone may like a tale or an episode. An operation
//! either takes effect in full or leaves every store as it was.

use super::records::{
    episode_fields_refusal, episode_refusal, kept_candy_machine, like_refusal,
    tale_fields_refusal, tale_refusal, AppError, Episode, EpisodeView, Tale, TaleView,
    EPISODE_ACCOUNT_SPACE, PUBLISHED, TALE_ACCOUNT_SPACE,
};
use crate::address::{
    is_address_of, optional_view, placed, rederived, seeds_view, text_bytes, text_seed, Address,
};
use crate::guard::{access_refusal, check_access, AccessError};
use crate::store::{placement_refusal, Deposit, Entry, Failure, RecordStore, StoreError};
use vstd::prelude::*;

verus! {

/// Domain tag of the address of a tale.
pub const TALE_TAG: &'static str = "tale";

/// Domain tag of the address of an episode.
pub const EPISODE_TAG: &'static str = "episode";

/// The accounts of `create_tale`: the address presented for the new tale and
/// the author, who signs and pays.
#[derive(Clone, Copy, Debug)]
pub struct CreateTale {
    pub tale_account: Address,
    pub author: Address,
}

/// The accounts of `update_tale`: the tale and the signer.
#[derive(Clone, Copy, Debug)]
pub struct UpdateTale {
    pub tale_account: Address,
    pub author: Address,
}

/// The accounts of `delete_tale`: the tale and the signer, who is given the
/// tale's space back.
#[derive(Clone, Copy, Debug)]
pub struct DeleteTale {
    pub tale_account: Address,
    pub author: Address,
}

/// The accounts of `create_episode`: the address presented for the new
/// episode, its tale, and the author of the tale, who signs and pays.
#[derive(Clone, Copy, Debug)]
pub struct CreateEpisode {
    pub episode_account: Address,
    pub parent_tale_account: Address,
    pub author: Address,
}

/// The accounts of `update_episode`: the episode and the signer.
#[derive(Clone, Copy, Debug)]
pub struct UpdateEpisode {
    pub episode_account: Address,
    pub author: Address,
}

/// The accounts of `delete_episode`: the episode and the signer, who is
/// given the episode's space back.
#[derive(Clone, Copy, Debug)]
pub struct DeleteEpisode {
    pub episode_account: Address,
    pub author: Address,
}

/// The accounts of `like_episode`: the episode and the reader who likes it.
#[derive(Clone, Copy, Debug)]
pub struct LikeEpisode {
    pub episode_account: Address,
    pub user: Address,
}

/// The accounts of `like_tale`: the tale and the reader who likes it.
#[derive(Clone, Copy, Debug)]
pub struct LikeTale {
    pub tale_account: Address,
    pub user: Address,
}

/// The records of the story program, each kind in its store.
pub struct StoryLedger {
    pub program: Address,
    pub tales: RecordStore<Tale>,
    pub episodes: RecordStore<Episode>,
}

/// The ledger over maps from address to record.
pub struct StoryView {
    pub program: Seq<u8>,
    pub tales: Map<Seq<u8>, Entry<TaleView>>,
    pub episodes: Map<Seq<u8>, Entry<EpisodeView>>,
}

impl View for StoryLedger {
    type V = StoryView;

    open spec fn view(&self) -> StoryView {
        StoryView {
            program: self.program@,
            tales: self.tales@,
            episodes: self.episodes@,
        }
    }
}

impl StoryView {
    /// Every record in the ledger is within the bounds of its fields and has
    /// the space of its kind.
    pub open spec fn wf(self) -> bool {
        &&& forall|at: Seq<u8>| #[trigger]
            self.tales.contains_key(at) ==> {
                &&& self.tales[at].record.wf()
                &&& self.tales[at].space == TALE_ACCOUNT_SPACE
            }
        &&& forall|at: Seq<u8>| #[trigger]
            self.episodes.contains_key(at) ==> {
                &&& self.episodes[at].record.wf()
                &&& self.episodes[at].space == EPISODE_ACCOUNT_SPACE
            }
    }

    /// Every record lives at the address that its own seeds derive, under
    /// the nonce that it stores. The operations of the program put records
    /// nowhere else.
    pub open spec fn placed(self) -> bool {
        &&& forall|at: Seq<u8>| #[trigger]
            self.tales.contains_key(at) ==> placed(
                self.program,
                TALE_TAG@,
                tale_seeds(self.tales[at].record.tale_id),
                self.tales[at].record.bump,
                at,
            )
        &&& forall|at: Seq<u8>| #[trigger]
            self.episodes.contains_key(at) ==> placed(
                self.program,
                EPISODE_TAG@,
                episode_seeds(
                    self.episodes[at].record.parent_tale,
                    self.episodes[at].record.episode_id_seed,
                ),
                self.episodes[at].record.bump,
                at,
            )
    }
}

/// The seeds of a tale after its tag: its id.
pub open spec fn tale_seeds(tale_id: Seq<char>) -> Seq<Seq<u8>> {
    seq![text_bytes(tale_id)]
}

/// The seeds of an episode after its tag: its tale and its seed.
pub open spec fn episode_seeds(parent_tale: Seq<u8>, episode_id_seed: Seq<char>) -> Seq<Seq<u8>> {
    seq![parent_tale, text_bytes(episode_id_seed)]
}

/// A refusal of access as a failure of the program.
pub open spec fn denied(e: Option<AccessError>) -> Option<Failure<AppError>> {
    match e {
        Some(AccessError::AddressMismatch) => Some(Failure::Store(StoreError::AddressMismatch)),
        Some(AccessError::Unauthorized) => Some(Failure::Rule(AppError::Unauthorized)),
        None => None,
    }
}

/// A broken rule as a failure of the program.
pub open spec fn broken(e: Option<AppError>) -> Option<Failure<AppError>> {
    match e {
        Some(e) => Some(Failure::Rule(e)),
        None => None,
    }
}

/// Why the signer has no access to the tale at an address, or `None` where
/// the signer has.
pub open spec fn tale_access_refusal(ledger: StoryView, at: Seq<u8>, signer: Seq<u8>) -> Option<
    Failure<AppError>,
> {
    if !ledger.tales.contains_key(at) {
        Some(Failure::Store(StoreError::RecordNotFound))
    } else {
        let tale = ledger.tales[at].record;
        denied(
            access_refusal(
                at,
                ledger.program,
                TALE_TAG@,
                tale_seeds(tale.tale_id),
                tale.bump,
                tale.author,
                signer,
            ),
        )
    }
}

/// Why the signer has no access to the episode at an address, or `None`
/// where the signer has. The author is the copy that the episode keeps.
pub open spec fn episode_access_refusal(ledger: StoryView, at: Seq<u8>, signer: Seq<u8>) -> Option<
    Failure<AppError>,
> {
    if !ledger.episodes.contains_key(at) {
        Some(Failure::Store(StoreError::RecordNotFound))
    } else {
        let episode = ledger.episodes[at].record;
        denied(
            access_refusal(
                at,
                ledger.program,
                EPISODE_TAG@,
                episode_seeds(episode.parent_tale, episode.episode_id_seed),
                episode.bump,
                episode.author,
                signer,
            ),
        )
    }
}

/// Why `create_tale` fails, or `None` where it succeeds.
pub open spec fn create_tale_refusal(
    ledger: StoryView,
    tale_account: Seq<u8>,
    tale_id: Seq<char>,
    title: Seq<char>,
    content_cid: Seq<char>,
    genre: Seq<char>,
    cover_image_cid: Seq<char>,
    thumbnail_cid: Seq<char>,
    initial_status: u8,
) -> Option<Failure<AppError>> {
    match placement_refusal(
        ledger.tales,
        ledger.program,
        TALE_TAG@,
        tale_seeds(tale_id),
        tale_account,
    ) {
        Some(e) => Some(Failure::Store(e)),
        None => broken(
            tale_refusal(
                tale_id,
                title,
                content_cid,
                genre,
                cover_image_cid,
                thumbnail_cid,
                initial_status,
            ),
        ),
    }
}

/// Why `update_tale` fails, or `None` where it succeeds.
pub open spec fn update_tale_refusal(
    ledger: StoryView,
    tale_account: Seq<u8>,
    signer: Seq<u8>,
    title: Seq<char>,
    content_cid: Seq<char>,
    genre: Seq<char>,
    cover_image_cid: Seq<char>,
    thumbnail_cid: Seq<char>,
    status: u8,
) -> Option<Failure<AppError>> {
    match tale_access_refusal(ledger, tale_account, signer) {
        Some(e) => Some(e),
        None => broken(
            tale_fields_refusal(title, content_cid, genre, cover_image_cid, thumbnail_cid, status),
        ),
    }
}

/// Why `delete_tale` fails, or `None` where it succeeds.
pub open spec fn delete_tale_refusal(ledger: StoryView, tale_account: Seq<u8>, signer: Seq<u8>) -> Option<
    Failure<AppError>,
> {
    match tale_access_refusal(ledger, tale_account, signer) {
        Some(e) => Some(e),
        None => if ledger.tales[tale_account].record.status == PUBLISHED {
            Some(Failure::Rule(AppError::CannotDeletePublished))
        } else {
            None
        },
    }
}

/// Why `create_episode` fails, or `None` where it succeeds: the tale must be
/// there, the episode's address must be the derived one and free, the signer
/// must be the tale's author, and the fields must be within bounds.
pub open spec fn create_episode_refusal(
    ledger: StoryView,
    episode_account: Seq<u8>,
    parent_tale_account: Seq<u8>,
    signer: Seq<u8>,
    episode_id_seed: Seq<char>,
    episode_name: Seq<char>,
    content_cid: Seq<char>,
    thumbnail_cid: Seq<char>,
    image_set_id: Seq<char>,
    candy_machine_id: Seq<char>,
    initial_status: u8,
    publish_at: Option<i64>,
    unpublish_at: Option<i64>,
) -> Option<Failure<AppError>> {
    if !ledger.tales.contains_key(parent_tale_account) {
        Some(Failure::Store(StoreError::RecordNotFound))
    } else {
        match placement_refusal(
            ledger.episodes,
            ledger.program,
            EPISODE_TAG@,
            episode_seeds(parent_tale_account, episode_id_seed),
            episode_account,
        ) {
            Some(e) => Some(Failure::Store(e)),
            None => if ledger.tales[parent_tale_account].record.author != signer {
                Some(Failure::Rule(AppError::Unauthorized))
            } else {
                broken(
                    episode_refusal(
                        episode_id_seed,
                        episode_name,
                        content_cid,
                        thumbnail_cid,
                        image_set_id,
                        candy_machine_id,
                        initial_status,
                        publish_at,
                        unpublish_at,
                    ),
                )
            },
        }
    }
}

/// Why `update_episode` fails, or `None` where it succeeds.
pub open spec fn update_episode_refusal(
    ledger: StoryView,
    episode_account: Seq<u8>,
    signer: Seq<u8>,
    episode_name: Seq<char>,
    content_cid: Seq<char>,
    thumbnail_cid: Seq<char>,
    image_set_id: Seq<char>,
    candy_machine_id: Seq<char>,
    status: u8,
    publish_at: Option<i64>,
    unpublish_at: Option<i64>,
) -> Option<Failure<AppError>> {
    match episode_access_refusal(ledger, episode_account, signer) {
        Some(e) => Some(e),
        None => broken(
            episode_fields_refusal(
                episode_name,
                content_cid,
                thumbnail_cid,
                image_set_id,
                candy_machine_id,
                status,
                publish_at,
                unpublish_at,
            ),
        ),
    }
}

/// Why no tale is found at an address, or `None` where one is: a tale must
/// be there, and the address must be the one that the tale's own id and
/// nonce derive.
pub open spec fn tale_refusal_at(ledger: StoryView, at: Seq<u8>) -> Option<StoreError> {
    if !ledger.tales.contains_key(at) {
        Some(StoreError::RecordNotFound)
    } else if rederived(
        ledger.program,
        TALE_TAG@,
        tale_seeds(ledger.tales[at].record.tale_id),
        ledger.tales[at].record.bump,
    ) != Some(at) {
        Some(StoreError::AddressMismatch)
    } else {
        None
    }
}

/// Why no episode is found at an address, or `None` where one is: an
/// episode must be there, and the address must be the one that the
/// episode's own tale, seed and nonce derive.
pub open spec fn episode_refusal_at(ledger: StoryView, at: Seq<u8>) -> Option<StoreError> {
    if !ledger.episodes.contains_key(at) {
        Some(StoreError::RecordNotFound)
    } else if rederived(
        ledger.program,
        EPISODE_TAG@,
        episode_seeds(
            ledger.episodes[at].record.parent_tale,
            ledger.episodes[at].record.episode_id_seed,
        ),
        ledger.episodes[at].record.bump,
    ) != Some(at) {
        Some(StoreError::AddressMismatch)
    } else {
        None
    }
}

/// Why `like_tale` fails, or `None` where it succeeds.
pub open spec fn like_tale_refusal(ledger: StoryView, tale_account: Seq<u8>) -> Option<
    Failure<AppError>,
> {
    match tale_refusal_at(ledger, tale_account) {
        Some(e) => Some(Failure::Store(e)),
        None => broken(like_refusal(ledger.tales[tale_account].record.like_count)),
    }
}

/// Why `like_episode` fails, or `None` where it succeeds.
pub open spec fn like_episode_refusal(ledger: StoryView, episode_account: Seq<u8>) -> Option<
    Failure<AppError>,
> {
    match episode_refusal_at(ledger, episode_account) {
        Some(e) => Some(Failure::Store(e)),
        None => broken(like_refusal(ledger.episodes[episode_account].record.like_count)),
    }
}

fn seeds_of_tale(tale_id: &str) -> (r: Vec<Vec<u8>>)
    ensures
        seeds_view(r@) == tale_seeds(tale_id@),
{
    let mut seeds: Vec<Vec<u8>> = Vec::new();
    seeds.push(text_seed(tale_id));
    assert(seeds_view(seeds@) =~= tale_seeds(tale_id@));
    seeds
}

fn seeds_of_episode(parent_tale: &Address, episode_id_seed: &str) -> (r: Vec<Vec<u8>>)
    ensures
        seeds_view(r@) == episode_seeds(parent_tale@, episode_id_seed@),
{
    let mut seeds: Vec<Vec<u8>> = Vec::new();
    seeds.push(parent_tale.as_seed());
    seeds.push(text_seed(episode_id_seed));
    assert(seeds_view(seeds@) =~= episode_seeds(parent_tale@, episode_id_seed@));
    seeds
}

fn deny(e: AccessError) -> (r: Failure<AppError>)
    ensures
        denied(Some(e)) == Some(r),
{
    match e {
        AccessError::AddressMismatch => Failure::Store(StoreError::AddressMismatch),
        AccessError::Unauthorized => Failure::Rule(AppError::Unauthorized),
    }
}

impl StoryLedger {
    /// The stores hold no address twice, and every record is within the
    /// bounds of its fields.
    pub open spec fn wf(&self) -> bool {
        &&& self.tales.wf()
        &&& self.episodes.wf()
        &&& self@.wf()
    }

    /// The empty ledger of a program.
    pub fn new(program: Address) -> (r: StoryLedger)
        ensures
            r.wf(),
            r@.placed(),
            r@.program == program@,
            r@.tales == Map::<Seq<u8>, Entry<TaleView>>::empty(),
            r@.episodes == Map::<Seq<u8>, Entry<EpisodeView>>::empty(),
    {
        StoryLedger {
            program,
            tales: RecordStore::new(),
            episodes: RecordStore::new(),
        }
    }

    /// The address of the tale of an id, with its nonce.
    pub fn tale_address(&self, tale_id: &str) -> (r: Option<(Address, u8)>)
        ensures
            crate::address::is_derivation(self.program@, TALE_TAG@, tale_seeds(tale_id@), r),
    {
        crate::address::derive(&self.program, TALE_TAG, seeds_of_tale(tale_id))
    }

    /// The address of the episode of a tale and a seed, with its nonce.
    pub fn episode_address(&self, parent_tale: &Address, episode_id_seed: &str) -> (r: Option<
        (Address, u8),
    >)
        ensures
            crate::address::is_derivation(
                self.program@,
                EPISODE_TAG@,
                episode_seeds(parent_tale@, episode_id_seed@),
                r,
            ),
    {
        crate::address::derive(
            &self.program,
            EPISODE_TAG,
            seeds_of_episode(parent_tale, episode_id_seed),
        )
    }

    /// Finds the tale at an address and derives the address again from the
    /// id and the nonce that the tale holds. A tale found elsewhere is
    /// refused.
    fn find_tale(&self, at: &Address) -> (r: Result<(), StoreError>)
        requires
            self.wf(),
        ensures
            match r {
                Ok(()) => tale_refusal_at(self@, at@) is None,
                Err(e) => tale_refusal_at(self@, at@) == Some(e),
            },
    {
        let tale = match self.tales.load(at) {
            Ok(tale) => tale,
            Err(e) => {
                return Err(e);
            },
        };
        if is_address_of(at, &self.program, TALE_TAG, seeds_of_tale(tale.tale_id.as_str()), tale.bump) {
            Ok(())
        } else {
            Err(StoreError::AddressMismatch)
        }
    }

    /// Finds the episode at an address and derives the address again from
    /// the tale, the seed and the nonce that the episode holds. An episode
    /// found elsewhere is refused.
    fn find_episode(&self, at: &Address) -> (r: Result<(), StoreError>)
        requires
            self.wf(),
        ensures
            match r {
                Ok(()) => episode_refusal_at(self@, at@) is None,
                Err(e) => episode_refusal_at(self@, at@) == Some(e),
            },
    {
        let episode = match self.episodes.load(at) {
            Ok(episode) => episode,
            Err(e) => {
                return Err(e);
            },
        };
        if is_address_of(
            at,
            &self.program,
            EPISODE_TAG,
            seeds_of_episode(&episode.parent_tale, episode.episode_id_seed.as_str()),
            episode.bump,
        ) {
            Ok(())
        } else {
            Err(StoreError::AddressMismatch)
        }
    }

    fn tale_access(&self, at: &Address, signer: &Address) -> (r: Result<(), Failure<AppError>>)
        requires
            self.wf(),
        ensures
            match r {
                Ok(()) => tale_access_refusal(self@, at@, signer@) is None,
                Err(e) => tale_access_refusal(self@, at@, signer@) == Some(e),
            },
    {
        let tale = match self.tales.load(at) {
            Ok(tale) => tale,
            Err(_) => {
                return Err(Failure::Store(StoreError::RecordNotFound));
            },
        };
        match check_access(
            at,
            &self.program,
            TALE_TAG,
            seeds_of_tale(tale.tale_id.as_str()),
            tale.bump,
            &tale.author,
            signer,
        ) {
            Ok(()) => Ok(()),
            Err(e) => Err(deny(e)),
        }
    }

    fn episode_access(&self, at: &Address, signer: &Address) -> (r: Result<(), Failure<AppError>>)
        requires
            self.wf(),
        ensures
            match r {
                Ok(()) => episode_access_refusal(self@, at@, signer@) is None,
                Err(e) => episode_access_refusal(self@, at@, signer@) == Some(e),
            },
    {
        let episode = match self.episodes.load(at) {
            Ok(episode) => episode,
            Err(_) => {
                return Err(Failure::Store(StoreError::RecordNotFound));
            },
        };
        match check_access(
            at,
            &self.program,
            EPISODE_TAG,
            seeds_of_episode(&episode.parent_tale, episode.episode_id_seed.as_str()),
            episode.bump,
            &episode.author,
            signer,
        ) {
            Ok(()) => Ok(()),
            Err(e) => Err(deny(e)),
        }
    }
}

/// Makes a tale at the address derived for its id. Hands out the
/// reservation for it, to be charged to the author.
pub fn create_tale(
    ledger: &mut StoryLedger,
    ctx: &CreateTale,
    now: i64,
    tale_id: String,
    title: String,
    content_cid: String,
    genre: String,
    cover_image_cid: String,
    thumbnail_cid: String,
    initial_status: u8,
    candy_machine_address_option: Option<Address>,
    is_governance: bool,
    is_early_access: bool,
    is_real_world: bool,
) -> (r: Result<Deposit, Failure<AppError>>)
    requires
        old(ledger).wf(),
    ensures
        final(ledger).wf(),
        old(ledger)@.placed() ==> final(ledger)@.placed(),
        match r {
            Ok(reserve) => {
                &&& create_tale_refusal(
                    old(ledger)@,
                    ctx.tale_account@,
                    tale_id@,
                    title@,
                    content_cid@,
                    genre@,
                    cover_image_cid@,
                    thumbnail_cid@,
                    initial_status,
                ) is None
                &&& reserve.holder == ctx.author
                &&& reserve.space == TALE_ACCOUNT_SPACE
                &&& final(ledger)@ == (StoryView {
                    tales: old(ledger)@.tales.insert(
                        ctx.tale_account@,
                        Entry {
                            space: TALE_ACCOUNT_SPACE,
                            record: TaleView {
                                author: ctx.author@,
                                tale_id: tale_id@,
                                title: title@,
                                content_cid: content_cid@,
                                genre: genre@,
                                cover_image_cid: cover_image_cid@,
                                thumbnail_cid: thumbnail_cid@,
                                status: initial_status,
                                timestamp: now,
                                bump: crate::store::nonce_of(
                                    old(ledger)@.program,
                                    TALE_TAG@,
                                    tale_seeds(tale_id@),
                                ),
                                candy_machine_address: optional_view(
                                    candy_machine_address_option,
                                ),
                                is_governance_token_gated: is_governance,
                                is_early_access_token_gated: is_early_access,
                                is_real_world_asset_gated: is_real_world,
                                like_count: 0,
                            },
                        },
                    ),
                    ..old(ledger)@
                })
            },
            Err(e) => {
                &&& create_tale_refusal(
                    old(ledger)@,
                    ctx.tale_account@,
                    tale_id@,
                    title@,
                    content_cid@,
                    genre@,
                    cover_image_cid@,
                    thumbnail_cid@,
                    initial_status,
                ) == Some(e)
                &&& final(ledger)@ == old(ledger)@
            },
        },
{
    let bump = match ledger.tales.placement(
        &ledger.program,
        TALE_TAG,
        seeds_of_tale(tale_id.as_str()),
        &ctx.tale_account,
    ) {
        Ok(nonce) => nonce,
        Err(e) => {
            return Err(Failure::Store(e));
        },
    };
    let tale = match Tale::new(
        ctx.author,
        bump,
        now,
        tale_id,
        title,
        content_cid,
        genre,
        cover_image_cid,
        thumbnail_cid,
        initial_status,
        candy_machine_address_option,
        is_governance,
        is_early_access,
        is_real_world,
    ) {
        Ok(tale) => tale,
        Err(e) => {
            return Err(Failure::Rule(e));
        },
    };
    ledger.tales.put(ctx.tale_account, TALE_ACCOUNT_SPACE, tale);
    Ok(Deposit { holder: ctx.author, space: TALE_ACCOUNT_SPACE })
}

/// Rewrites a tale for its author.
pub fn update_tale(
    ledger: &mut StoryLedger,
    ctx: &UpdateTale,
    now: i64,
    new_title: String,
    new_content_cid: String,
    new_genre: String,
    new_cover_image_cid: String,
    new_thumbnail_cid: String,
    new_status: u8,
    new_candy_machine_address_option: Option<Address>,
    new_is_governance: bool,
    new_is_early_access: bool,
    new_is_real_world: bool,
) -> (r: Result<(), Failure<AppError>>)
    requires
        old(ledger).wf(),
    ensures
        final(ledger).wf(),
        old(ledger)@.placed() ==> final(ledger)@.placed(),
        match r {
            Ok(()) => {
                &&& update_tale_refusal(
                    old(ledger)@,
                    ctx.tale_account@,
                    ctx.author@,
                    new_title@,
                    new_content_cid@,
                    new_genre@,
                    new_cover_image_cid@,
                    new_thumbnail_cid@,
                    new_status,
                ) is None
                &&& final(ledger)@ == (StoryView {
                    tales: old(ledger)@.tales.insert(
                        ctx.tale_account@,
                        Entry {
                            space: old(ledger)@.tales[ctx.tale_account@].space,
                            record: TaleView {
                                title: new_title@,
                                content_cid: new_content_cid@,
                                genre: new_genre@,
                                cover_image_cid: new_cover_image_cid@,
                                thumbnail_cid: new_thumbnail_cid@,
                                status: new_status,
                                timestamp: now,
                                candy_machine_address: optional_view(
                                    new_candy_machine_address_option,
                                ),
                                is_governance_token_gated: new_is_governance,
                                is_early_access_token_gated: new_is_early_access,
                                is_real_world_asset_gated: new_is_real_world,
                                ..old(ledger)@.tales[ctx.tale_account@].record
                            },
                        },
                    ),
                    ..old(ledger)@
                })
            },
            Err(e) => {
                &&& update_tale_refusal(
                    old(ledger)@,
                    ctx.tale_account@,
                    ctx.author@,
                    new_title@,
                    new_content_cid@,
                    new_genre@,
                    new_cover_image_cid@,
                    new_thumbnail_cid@,
                    new_status,
                ) == Some(e)
                &&& final(ledger)@ == old(ledger)@
            },
        },
{
    match ledger.tale_access(&ctx.tale_account, &ctx.author) {
        Ok(()) => {},
        Err(e) => {
            return Err(e);
        },
    }
    let (mut tale, space) = match ledger.tales.take(&ctx.tale_account) {
        Some(taken) => taken,
        None => {
            return Err(Failure::Store(StoreError::RecordNotFound));
        },
    };
    let outcome = tale.update(
        now,
        new_title,
        new_content_cid,
        new_genre,
        new_cover_image_cid,
        new_thumbnail_cid,
        new_status,
        new_candy_machine_address_option,
        new_is_governance,
        new_is_early_access,
        new_is_real_world,
    );
    let ghost after = tale@;
    ledger.tales.put(ctx.tale_account, space, tale);
    assert(ledger.tales@ =~= old(ledger).tales@.insert(
        ctx.tale_account@,
        Entry { space, record: after },
    ));
    match outcome {
        Ok(()) => Ok(()),
        Err(e) => {
            assert(ledger.tales@ =~= old(ledger).tales@);
            assert(ledger@ == old(ledger)@);
            Err(Failure::Rule(e))
        },
    }
}

/// Deletes a tale for its author, unless the tale is published. Hands out
/// the release of the tale's space, to be paid to the author.
pub fn delete_tale(ledger: &mut StoryLedger, ctx: &DeleteTale) -> (r: Result<
    Deposit,
    Failure<AppError>,
>)
    requires
        old(ledger).wf(),
    ensures
        final(ledger).wf(),
        old(ledger)@.placed() ==> final(ledger)@.placed(),
        match r {
            Ok(release) => {
                &&& delete_tale_refusal(old(ledger)@, ctx.tale_account@, ctx.author@) is None
                &&& release.holder == ctx.author
                &&& release.space == old(ledger)@.tales[ctx.tale_account@].space
                &&& final(ledger)@ == (StoryView {
                    tales: old(ledger)@.tales.remove(ctx.tale_account@),
                    ..old(ledger)@
                })
            },
            Err(e) => {
                &&& delete_tale_refusal(old(ledger)@, ctx.tale_account@, ctx.author@) == Some(e)
                &&& final(ledger)@ == old(ledger)@
            },
        },
{
    match ledger.tale_access(&ctx.tale_account, &ctx.author) {
        Ok(()) => {},
        Err(e) => {
            return Err(e);
        },
    }
    let deletable = match ledger.tales.load(&ctx.tale_account) {
        Ok(tale) => tale.check_delete(),
        Err(_) => {
            return Err(Failure::Store(StoreError::RecordNotFound));
        },
    };
    match deletable {
        Ok(()) => {},
        Err(e) => {
            return Err(Failure::Rule(e));
        },
    }
    match ledger.tales.destroy(&ctx.tale_account, ctx.author) {
        Ok((_, release)) => Ok(release),
        Err(e) => Err(Failure::Store(e)),
    }
}

/// Makes an episode under a tale for the tale's author, at the address
/// derived for the tale and the episode's seed. Hands out the reservation
/// for it, to be charged to the author.
pub fn create_episode(
    ledger: &mut StoryLedger,
    ctx: &CreateEpisode,
    now: i64,
    episode_id_seed: String,
    episode_name: String,
    content_cid: String,
    thumbnail_cid: String,
    image_set_id: String,
    order: u32,
    initial_status: u8,
    is_nft: bool,
    candy_machine_id: String,
    publish_at_time_option: Option<i64>,
    unpublish_at_time_option: Option<i64>,
) -> (r: Result<Deposit, Failure<AppError>>)
    requires
        old(ledger).wf(),
    ensures
        final(ledger).wf(),
        old(ledger)@.placed() ==> final(ledger)@.placed(),
        match r {
            Ok(reserve) => {
                &&& create_episode_refusal(
                    old(ledger)@,
                    ctx.episode_account@,
                    ctx.parent_tale_account@,
                    ctx.author@,
                    episode_id_seed@,
                    episode_name@,
                    content_cid@,
                    thumbnail_cid@,
                    image_set_id@,
                    candy_machine_id@,
                    initial_status,
                    publish_at_time_option,
                    unpublish_at_time_option,
                ) is None
                &&& reserve.holder == ctx.author
                &&& reserve.space == EPISODE_ACCOUNT_SPACE
                &&& final(ledger)@ == (StoryView {
                    episodes: old(ledger)@.episodes.insert(
                        ctx.episode_account@,
                        Entry {
                            space: EPISODE_ACCOUNT_SPACE,
                            record: EpisodeView {
                                author: ctx.author@,
                                parent_tale: ctx.parent_tale_account@,
                                episode_id_seed: episode_id_seed@,
                                episode_name: episode_name@,
                                content_cid: content_cid@,
                                thumbnail_cid: thumbnail_cid@,
                                image_set_id: image_set_id@,
                                order,
                                status: initial_status,
                                is_nft,
                                candy_machine_id: kept_candy_machine(is_nft, candy_machine_id@),
                                timestamp: now,
                                bump: crate::store::nonce_of(
                                    old(ledger)@.program,
                                    EPISODE_TAG@,
                                    episode_seeds(ctx.parent_tale_account@, episode_id_seed@),
                                ),
                                publish_at_time: publish_at_time_option,
                                unpublish_at_time: unpublish_at_time_option,
                                like_count: 0,
                            },
                        },
                    ),
                    ..old(ledger)@
                })
            },
            Err(e) => {
                &&& create_episode_refusal(
                    old(ledger)@,
                    ctx.episode_account@,
                    ctx.parent_tale_account@,
                    ctx.author@,
                    episode_id_seed@,
                    episode_name@,
                    content_cid@,
                    thumbnail_cid@,
                    image_set_id@,
                    candy_machine_id@,
                    initial_status,
                    publish_at_time_option,
                    unpublish_at_time_option,
                ) == Some(e)
                &&& final(ledger)@ == old(ledger)@
            },
        },
{
    let tale_author = match ledger.tales.load(&ctx.parent_tale_account) {
        Ok(tale) => tale.author,
        Err(_) => {
            return Err(Failure::Store(StoreError::RecordNotFound));
        },
    };
    let bump = match ledger.episodes.placement(
        &ledger.program,
        EPISODE_TAG,
        seeds_of_episode(&ctx.parent_tale_account, episode_id_seed.as_str()),
        &ctx.episode_account,
    ) {
        Ok(nonce) => nonce,
        Err(e) => {
            return Err(Failure::Store(e));
        },
    };
    if tale_author != ctx.author {
        return Err(Failure::Rule(AppError::Unauthorized));
    }
    let episode = match Episode::new(
        ctx.author,
        ctx.parent_tale_account,
        bump,
        now,
        episode_id_seed,
        episode_name,
        content_cid,
        thumbnail_cid,
        image_set_id,
        order,
        initial_status,
        is_nft,
        candy_machine_id,
        publish_at_time_option,
        unpublish_at_time_option,
    ) {
        Ok(episode) => episode,
        Err(e) => {
            return Err(Failure::Rule(e));
        },
    };
    ledger.episodes.put(ctx.episode_account, EPISODE_ACCOUNT_SPACE, episode);
    Ok(Deposit { holder: ctx.author, space: EPISODE_ACCOUNT_SPACE })
}

/// Rewrites an episode for its author.
pub fn update_episode(
    ledger: &mut StoryLedger,
    ctx: &UpdateEpisode,
    now: i64,
    new_episode_name: String,
    new_content_cid: String,
    new_thumbnail_cid: String,
    new_image_set_id: String,
    new_order: u32,
    new_status: u8,
    new_is_nft: bool,
    new_candy_machine_id: String,
    new_publish_at_time_option: Option<i64>,
    new_unpublish_at_time_option: Option<i64>,
) -> (r: Result<(), Failure<AppError>>)
    requires
        old(ledger).wf(),
    ensures
        final(ledger).wf(),
        old(ledger)@.placed() ==> final(ledger)@.placed(),
        match r {
            Ok(()) => {
                &&& update_episode_refusal(
                    old(ledger)@,
                    ctx.episode_account@,
                    ctx.author@,
                    new_episode_name@,
                    new_content_cid@,
                    new_thumbnail_cid@,
                    new_image_set_id@,
                    new_candy_machine_id@,
                    new_status,
                    new_publish_at_time_option,
                    new_unpublish_at_time_option,
                ) is None
                &&& final(ledger)@ == (StoryView {
                    episodes: old(ledger)@.episodes.insert(
                        ctx.episode_account@,
                        Entry {
                            space: old(ledger)@.episodes[ctx.episode_account@].space,
                            record: EpisodeView {
                                episode_name: new_episode_name@,
                                content_cid: new_content_cid@,
                                thumbnail_cid: new_thumbnail_cid@,
                                image_set_id: new_image_set_id@,
                                order: new_order,
                                status: new_status,
                                is_nft: new_is_nft,
                                candy_machine_id: kept_candy_machine(
                                    new_is_nft,
                                    new_candy_machine_id@,
                                ),
                                timestamp: now,
                                publish_at_time: new_publish_at_time_option,
                                unpublish_at_time: new_unpublish_at_time_option,
                                ..old(ledger)@.episodes[ctx.episode_account@].record
                            },
                        },
                    ),
                    ..old(ledger)@
                })
            },
            Err(e) => {
                &&& update_episode_refusal(
                    old(ledger)@,
                    ctx.episode_account@,
                    ctx.author@,
                    new_episode_name@,
                    new_content_cid@,
                    new_thumbnail_cid@,
                    new_image_set_id@,
                    new_candy_machine_id@,
                    new_status,
                    new_publish_at_time_option,
                    new_unpublish_at_time_option,
                ) == Some(e)
                &&& final(ledger)@ == old(ledger)@
            },
        },
{
    match ledger.episode_access(&ctx.episode_account, &ctx.author) {
        Ok(()) => {},
        Err(e) => {
            return Err(e);
        },
    }
    let (mut episode, space) = match ledger.episodes.take(&ctx.episode_account) {
        Some(taken) => taken,
        None => {
            return Err(Failure::Store(StoreError::RecordNotFound));
        },
    };
    let outcome = episode.update(
        now,
        new_episode_name,
        new_content_cid,
        new_thumbnail_cid,
        new_image_set_id,
        new_order,
        new_status,
        new_is_nft,
        new_candy_machine_id,
        new_publish_at_time_option,
        new_unpublish_at_time_option,
    );
    let ghost after = episode@;
    ledger.episodes.put(ctx.episode_account, space, episode);
    assert(ledger.episodes@ =~= old(ledger).episodes@.insert(
        ctx.episode_account@,
        Entry { space, record: after },
    ));
    match outcome {
        Ok(()) => Ok(()),
        Err(e) => {
            assert(ledger.episodes@ =~= old(ledger).episodes@);
            assert(ledger@ == old(ledger)@);
            Err(Failure::Rule(e))
        },
    }
}

/// Deletes an episode for its author. Hands out the release of the
/// episode's space, to be paid to the author.
pub fn delete_episode(ledger: &mut StoryLedger, ctx: &DeleteEpisode) -> (r: Result<
    Deposit,
    Failure<AppError>,
>)
    requires
        old(ledger).wf(),
    ensures
        final(ledger).wf(),
        old(ledger)@.placed() ==> final(ledger)@.placed(),
        match r {
            Ok(release) => {
                &&& episode_access_refusal(old(ledger)@, ctx.episode_account@, ctx.author@) is None
                &&& release.holder == ctx.author
                &&& release.space == old(ledger)@.episodes[ctx.episode_account@].space
                &&& final(ledger)@ == (StoryView {
                    episodes: old(ledger)@.episodes.remove(ctx.episode_account@),
                    ..old(ledger)@
                })
            },
            Err(e) => {
                &&& episode_access_refusal(old(ledger)@, ctx.episode_account@, ctx.author@)
                    == Some(e)
                &&& final(ledger)@ == old(ledger)@
            },
        },
{
    match ledger.episode_access(&ctx.episode_account, &ctx.author) {
        Ok(()) => {},
        Err(e) => {
            return Err(e);
        },
    }
    match ledger.episodes.destroy(&ctx.episode_account, ctx.author) {
        Ok((_, release)) => Ok(release),
        Err(e) => Err(Failure::Store(e)),
    }
}

/// Counts one more like on an episode, for any reader. The address is
/// checked as on every access; the reader is not.
pub fn like_episode(ledger: &mut StoryLedger, ctx: &LikeEpisode) -> (r: Result<
    (),
    Failure<AppError>,
>)
    requires
        old(ledger).wf(),
    ensures
        final(ledger).wf(),
        old(ledger)@.placed() ==> final(ledger)@.placed(),
        match r {
            Ok(()) => {
                &&& like_episode_refusal(old(ledger)@, ctx.episode_account@) is None
                &&& final(ledger)@ == (StoryView {
                    episodes: old(ledger)@.episodes.insert(
                        ctx.episode_account@,
                        Entry {
                            space: old(ledger)@.episodes[ctx.episode_account@].space,
                            record: EpisodeView {
                                like_count: (old(ledger)@.episodes[ctx.episode_account@].record.like_count
                                    + 1) as u64,
                                ..old(ledger)@.episodes[ctx.episode_account@].record
                            },
                        },
                    ),
                    ..old(ledger)@
                })
            },
            Err(e) => {
                &&& like_episode_refusal(old(ledger)@, ctx.episode_account@) == Some(e)
                &&& final(ledger)@ == old(ledger)@
            },
        },
{
    match ledger.find_episode(&ctx.episode_account) {
        Ok(()) => {},
        Err(e) => {
            return Err(Failure::Store(e));
        },
    }
    let (mut episode, space) = match ledger.episodes.take(&ctx.episode_account) {
        Some(taken) => taken,
        None => {
            return Err(Failure::Store(StoreError::RecordNotFound));
        },
    };
    let outcome = episode.like();
    let ghost after = episode@;
    ledger.episodes.put(ctx.episode_account, space, episode);
    assert(ledger.episodes@ =~= old(ledger).episodes@.insert(
        ctx.episode_account@,
        Entry { space, record: after },
    ));
    match outcome {
        Ok(()) => Ok(()),
        Err(e) => {
            assert(ledger.episodes@ =~= old(ledger).episodes@);
            assert(ledger@ == old(ledger)@);
            Err(Failure::Rule(e))
        },
    }
}

/// Counts one more like on a tale, for any reader. The address is checked
/// as on every access; the reader is not.
pub fn like_tale(ledger: &mut StoryLedger, ctx: &LikeTale) -> (r: Result<(), Failure<AppError>>)
    requires
        old(ledger).wf(),
    ensures
        final(ledger).wf(),
        old(ledger)@.placed() ==> final(ledger)@.placed(),
        match r {
            Ok(()) => {
                &&& like_tale_refusal(old(ledger)@, ctx.tale_account@) is None
                &&& final(ledger)@ == (StoryView {
                    tales: old(ledger)@.tales.insert(
                        ctx.tale_account@,
                        Entry {
                            space: old(ledger)@.tales[ctx.tale_account@].space,
                            record: TaleView {
                                like_count: (old(ledger)@.tales[ctx.tale_account@].record.like_count
                                    + 1) as u64,
                                ..old(ledger)@.tales[ctx.tale_account@].record
                            },
                        },
                    ),
                    ..old(ledger)@
                })
            },
            Err(e) => {
                &&& like_tale_refusal(old(ledger)@, ctx.tale_account@) == Some(e)
                &&& final(ledger)@ == old(ledger)@
            },
        },
{
    match ledger.find_tale(&ctx.tale_account) {
        Ok(()) => {},
        Err(e) => {
            return Err(Failure::Store(e));
        },
    }
    let (mut tale, space) = match ledger.tales.take(&ctx.tale_account) {
        Some(taken) => taken,
        None => {
            return Err(Failure::Store(StoreError::RecordNotFound));
        },
    };
    let outcome = tale.like();
    let ghost after = tale@;
    ledger.tales.put(ctx.tale_account, space, tale);
    assert(ledger.tales@ =~= old(ledger).tales@.insert(
        ctx.tale_account@,
        Entry { space, record: after },
    ));
    match outcome {
        Ok(()) => Ok(()),
        Err(e) => {
            assert(ledger.tales@ =~= old(ledger).tales@);
            assert(ledger@ == old(ledger)@);
            Err(Failure::Rule(e))
        },
    }
}

} // verus!
