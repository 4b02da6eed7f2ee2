//! The records of the reading program: tales, their episodes, and the log
//! of mints. Each is made and rewritten only from values that pass the
//! bounds of its fields.

use crate::address::{optional_view, Address};
use crate::fields::{byte_len, empty_text_fits, fits, too_long, validate_ordinal};
use vstd::prelude::*;

verus! {

pub const MAX_TALE_ID_LENGTH: usize = 32;

pub const MAX_TITLE_LENGTH: usize = 100;

pub const MAX_TALE_CONTENT_CID_LENGTH: usize = 64;

pub const MAX_GENRE_LENGTH: usize = 30;

pub const MAX_COVER_IMAGE_CID_LENGTH: usize = 64;

pub const MAX_EPISODE_ID_SEED_LENGTH: usize = 32;

pub const MAX_EPISODE_NAME_LENGTH: usize = 100;

pub const MAX_EPISODE_CONTENT_CID_LENGTH: usize = 64;

pub const MAX_IMAGE_SET_ID_LENGTH: usize = 30;

pub const MAX_CANDY_MACHINE_ID_LENGTH: usize = 44;

pub const MAX_TX_SIGNATURE_LENGTH: usize = 88;

/// Bytes set aside for a tale.
pub const TALE_ACCOUNT_SPACE: usize = 8 + 32 + (4 + 32) + (4 + 100) + (4 + 64) + (4 + 30) + (4
    + 64) + 1 + 8 + 1 + 32;

/// Bytes set aside for an episode.
pub const EPISODE_ACCOUNT_SPACE: usize = 8 + 32 + 32 + (4 + 32) + (4 + 100) + (4 + 64) + (4 + 30)
    + 4 + 1 + 1 + (4 + 44) + 8 + 1 + 32;

/// Bytes set aside for the log of one mint.
pub const MINT_ACTIVITY_ACCOUNT_SPACE: usize = 8 + 32 + 32 + 32 + (4 + 88) + (1 + 32) + 8 + 1 + 1
    + 32;

/// Why the reading program refuses an operation.
#[derive(Clone, Copy, Debug, PartialEq, Eq, Structural)]
pub enum AppError {
    TitleTooLong,
    ContentCidTooLong,
    GenreTooLong,
    CoverImageCidTooLong,
    Unauthorized,
    InvalidStatus,
    TalePublished,
    CannotDeletePublished,
    EpisodeIdSeedTooLong,
    EpisodeNameTooLong,
    ImageSetIdTooLong,
    CandyMachineIdTooLong,
    EpisodeNftLocked,
    ParentTaleMismatch,
    TxSignatureTooLong,
    MintActivityAlreadyCancelled,
    MintActivityNotFound,
}

impl AppError {
    /// The message that goes with the error.
    pub fn message(&self) -> (r: &'static str)
        ensures
            r@ == error_message(*self),
    {
        match self {
            AppError::TitleTooLong => "Title is too long.",
            AppError::ContentCidTooLong => "Content CID is too long.",
            AppError::GenreTooLong => "Genre is too long.",
            AppError::CoverImageCidTooLong => "Cover image CID is too long.",
            AppError::Unauthorized => "Unauthorized action.",
            AppError::InvalidStatus => "Invalid status value.",
            AppError::TalePublished => "Tale is already published and cannot be modified in this way.",
            AppError::CannotDeletePublished => "Cannot delete a published tale directly. Set to archived first.",
            AppError::EpisodeIdSeedTooLong => "Episode ID (seed) is too long.",
            AppError::EpisodeNameTooLong => "Episode name is too long.",
            AppError::ImageSetIdTooLong => "Image Set ID is too long.",
            AppError::CandyMachineIdTooLong => "Candy Machine ID is too long.",
            AppError::EpisodeNftLocked => "Episode is NFT linked and cannot be modified in this way.",
            AppError::ParentTaleMismatch => "Parent tale account does not match.",
            AppError::TxSignatureTooLong => "Transaction signature string is too long.",
            AppError::MintActivityAlreadyCancelled => "Mint activity already cancelled.",
            AppError::MintActivityNotFound => "Mint activity not found or already closed.",
        }
    }
}

/// The message of each error.
pub open spec fn error_message(e: AppError) -> Seq<char> {
    match e {
        AppError::TitleTooLong => "Title is too long."@,
        AppError::ContentCidTooLong => "Content CID is too long."@,
        AppError::GenreTooLong => "Genre is too long."@,
        AppError::CoverImageCidTooLong => "Cover image CID is too long."@,
        AppError::Unauthorized => "Unauthorized action."@,
        AppError::InvalidStatus => "Invalid status value."@,
        AppError::TalePublished => "Tale is already published and cannot be modified in this way."@,
        AppError::CannotDeletePublished => "Cannot delete a published tale directly. Set to archived first."@,
        AppError::EpisodeIdSeedTooLong => "Episode ID (seed) is too long."@,
        AppError::EpisodeNameTooLong => "Episode name is too long."@,
        AppError::ImageSetIdTooLong => "Image Set ID is too long."@,
        AppError::CandyMachineIdTooLong => "Candy Machine ID is too long."@,
        AppError::EpisodeNftLocked => "Episode is NFT linked and cannot be modified in this way."@,
        AppError::ParentTaleMismatch => "Parent tale account does not match."@,
        AppError::TxSignatureTooLong => "Transaction signature string is too long."@,
        AppError::MintActivityAlreadyCancelled => "Mint activity already cancelled."@,
        AppError::MintActivityNotFound => "Mint activity not found or already closed."@,
    }
}

/// The status of a tale; a tale stores its ordinal.
#[derive(Clone, Copy, Debug, PartialEq, Eq, Structural)]
pub enum TaleStatus {
    Draft,
    Published,
    Archived,
}

impl TaleStatus {
    /// The number stored for the status.
    pub fn ordinal(self) -> (r: u8)
        ensures
            r == tale_status_ordinal(self),
    {
        match self {
            TaleStatus::Draft => 0,
            TaleStatus::Published => 1,
            TaleStatus::Archived => 2,
        }
    }

    /// The status stored as a number, if the number is an ordinal.
    pub fn from_ordinal(value: u8) -> (r: Option<TaleStatus>)
        ensures
            match r {
                Some(status) => tale_status_ordinal(status) == value,
                None => value > 2,
            },
    {
        if value == 0 {
            Some(TaleStatus::Draft)
        } else if value == 1 {
            Some(TaleStatus::Published)
        } else if value == 2 {
            Some(TaleStatus::Archived)
        } else {
            None
        }
    }
}

pub open spec fn tale_status_ordinal(status: TaleStatus) -> u8 {
    match status {
        TaleStatus::Draft => 0,
        TaleStatus::Published => 1,
        TaleStatus::Archived => 2,
    }
}

/// The status of an episode; an episode stores its ordinal.
#[derive(Clone, Copy, Debug, PartialEq, Eq, Structural)]
pub enum EpisodeStatus {
    Draft,
    Published,
    Archived,
}

impl EpisodeStatus {
    /// The number stored for the status.
    pub fn ordinal(self) -> (r: u8)
        ensures
            r == episode_status_ordinal(self),
    {
        match self {
            EpisodeStatus::Draft => 0,
            EpisodeStatus::Published => 1,
            EpisodeStatus::Archived => 2,
        }
    }
}

pub open spec fn episode_status_ordinal(status: EpisodeStatus) -> u8 {
    match status {
        EpisodeStatus::Draft => 0,
        EpisodeStatus::Published => 1,
        EpisodeStatus::Archived => 2,
    }
}

/// The status of a logged mint; the log stores its ordinal.
#[derive(Clone, Copy, Debug, PartialEq, Eq, Structural)]
pub enum MintActivityStatus {
    Active,
    Cancelled,
}

impl MintActivityStatus {
    /// The number stored for the status.
    pub fn ordinal(self) -> (r: u8)
        ensures
            r == mint_activity_status_ordinal(self),
    {
        match self {
            MintActivityStatus::Active => 0,
            MintActivityStatus::Cancelled => 1,
        }
    }
}

pub open spec fn mint_activity_status_ordinal(status: MintActivityStatus) -> u8 {
    match status {
        MintActivityStatus::Active => 0,
        MintActivityStatus::Cancelled => 1,
    }
}

/// Highest ordinal of a tale's status.
pub const HIGHEST_TALE_STATUS: u8 = 2;

/// Highest ordinal of an episode's status.
pub const HIGHEST_EPISODE_STATUS: u8 = 2;

/// Ordinal of a published tale.
pub const PUBLISHED: u8 = 1;

/// Ordinal of a logged mint that stands.
pub const ACTIVE: u8 = 0;

/// Ordinal of a logged mint that was cancelled.
pub const CANCELLED: u8 = 1;

/// A tale: its author, the id that its address is derived from, and what a
/// reader sees of it.
#[derive(Clone, Debug, PartialEq, Eq)]
pub struct Tale {
    pub author: Address,
    pub tale_id: String,
    pub title: String,
    pub content_cid: String,
    pub genre: String,
    pub cover_image_cid: String,
    pub status: u8,
    pub timestamp: i64,
    pub bump: u8,
}

/// A tale over sequences.
pub struct TaleView {
    pub author: Seq<u8>,
    pub tale_id: Seq<char>,
    pub title: Seq<char>,
    pub content_cid: Seq<char>,
    pub genre: Seq<char>,
    pub cover_image_cid: Seq<char>,
    pub status: u8,
    pub timestamp: i64,
    pub bump: u8,
}

impl View for Tale {
    type V = TaleView;

    open spec fn view(&self) -> TaleView {
        TaleView {
            author: self.author@,
            tale_id: self.tale_id@,
            title: self.title@,
            content_cid: self.content_cid@,
            genre: self.genre@,
            cover_image_cid: self.cover_image_cid@,
            status: self.status,
            timestamp: self.timestamp,
            bump: self.bump,
        }
    }
}

impl TaleView {
    /// Every field is within its bound.
    pub open spec fn wf(self) -> bool {
        &&& fits(self.tale_id, MAX_TALE_ID_LENGTH)
        &&& fits(self.title, MAX_TITLE_LENGTH)
        &&& fits(self.content_cid, MAX_TALE_CONTENT_CID_LENGTH)
        &&& fits(self.genre, MAX_GENRE_LENGTH)
        &&& fits(self.cover_image_cid, MAX_COVER_IMAGE_CID_LENGTH)
        &&& self.status <= HIGHEST_TALE_STATUS
    }

    /// Bytes that the tale takes when written out: a tag of 8 bytes, each
    /// text behind a length of 4 bytes, each number at its width.
    pub open spec fn encoded_len(self) -> nat {
        8 + 32 + (4 + byte_len(self.tale_id)) + (4 + byte_len(self.title)) + (4 + byte_len(
            self.content_cid,
        )) + (4 + byte_len(self.genre)) + (4 + byte_len(self.cover_image_cid)) + 1 + 8 + 1
    }
}

/// Why the fields of a tale that may be rewritten are refused, or `None`
/// where they are accepted. The checks are made in this order.
pub open spec fn tale_fields_refusal(
    title: Seq<char>,
    content_cid: Seq<char>,
    genre: Seq<char>,
    cover_image_cid: Seq<char>,
    status: u8,
) -> Option<AppError> {
    if !fits(title, MAX_TITLE_LENGTH) {
        Some(AppError::TitleTooLong)
    } else if !fits(content_cid, MAX_TALE_CONTENT_CID_LENGTH) {
        Some(AppError::ContentCidTooLong)
    } else if !fits(genre, MAX_GENRE_LENGTH) {
        Some(AppError::GenreTooLong)
    } else if !fits(cover_image_cid, MAX_COVER_IMAGE_CID_LENGTH) {
        Some(AppError::CoverImageCidTooLong)
    } else if status > HIGHEST_TALE_STATUS {
        Some(AppError::InvalidStatus)
    } else {
        None
    }
}

/// Why a new tale is refused, or `None` where it is accepted: its id is
/// checked first, then the other fields.
pub open spec fn tale_refusal(
    tale_id: Seq<char>,
    title: Seq<char>,
    content_cid: Seq<char>,
    genre: Seq<char>,
    cover_image_cid: Seq<char>,
    status: u8,
) -> Option<AppError> {
    if !fits(tale_id, MAX_TALE_ID_LENGTH) {
        Some(AppError::EpisodeIdSeedTooLong)
    } else {
        tale_fields_refusal(title, content_cid, genre, cover_image_cid, status)
    }
}

fn check_tale_fields(
    title: &str,
    content_cid: &str,
    genre: &str,
    cover_image_cid: &str,
    status: u8,
) -> (r: Result<(), AppError>)
    ensures
        match r {
            Ok(()) => tale_fields_refusal(title@, content_cid@, genre@, cover_image_cid@, status)
                is None,
            Err(e) => tale_fields_refusal(title@, content_cid@, genre@, cover_image_cid@, status)
                == Some(e),
        },
{
    if too_long(title, MAX_TITLE_LENGTH) {
        return Err(AppError::TitleTooLong);
    }
    if too_long(content_cid, MAX_TALE_CONTENT_CID_LENGTH) {
        return Err(AppError::ContentCidTooLong);
    }
    if too_long(genre, MAX_GENRE_LENGTH) {
        return Err(AppError::GenreTooLong);
    }
    if too_long(cover_image_cid, MAX_COVER_IMAGE_CID_LENGTH) {
        return Err(AppError::CoverImageCidTooLong);
    }
    if validate_ordinal(status, HIGHEST_TALE_STATUS).is_err() {
        return Err(AppError::InvalidStatus);
    }
    Ok(())
}

impl Tale {
    pub open spec fn wf(&self) -> bool {
        self@.wf()
    }

    /// A new tale of `author`, stamped with the time `now` and with the
    /// nonce of its address.
    pub fn new(
        author: Address,
        bump: u8,
        now: i64,
        tale_id: String,
        title: String,
        content_cid: String,
        genre: String,
        cover_image_cid: String,
        initial_status: u8,
    ) -> (r: Result<Tale, AppError>)
        ensures
            match r {
                Ok(tale) => {
                    &&& tale_refusal(
                        tale_id@,
                        title@,
                        content_cid@,
                        genre@,
                        cover_image_cid@,
                        initial_status,
                    ) is None
                    &&& tale@ == (TaleView {
                        author: author@,
                        tale_id: tale_id@,
                        title: title@,
                        content_cid: content_cid@,
                        genre: genre@,
                        cover_image_cid: cover_image_cid@,
                        status: initial_status,
                        timestamp: now,
                        bump,
                    })
                    &&& tale.wf()
                },
                Err(e) => tale_refusal(
                    tale_id@,
                    title@,
                    content_cid@,
                    genre@,
                    cover_image_cid@,
                    initial_status,
                ) == Some(e),
            },
    {
        if too_long(tale_id.as_str(), MAX_TALE_ID_LENGTH) {
            return Err(AppError::EpisodeIdSeedTooLong);
        }
        match check_tale_fields(
            title.as_str(),
            content_cid.as_str(),
            genre.as_str(),
            cover_image_cid.as_str(),
            initial_status,
        ) {
            Ok(()) => {},
            Err(e) => {
                return Err(e);
            },
        }
        Ok(
            Tale {
                author,
                tale_id,
                title,
                content_cid,
                genre,
                cover_image_cid,
                status: initial_status,
                timestamp: now,
                bump,
            },
        )
    }

    /// Rewrites what a reader sees of the tale and stamps it with the time
    /// `now`. The author, the id and the nonce stay.
    pub fn update(
        &mut self,
        now: i64,
        new_title: String,
        new_content_cid: String,
        new_genre: String,
        new_cover_image_cid: String,
        new_status: u8,
    ) -> (r: Result<(), AppError>)
        ensures
            match r {
                Ok(()) => {
                    &&& tale_fields_refusal(
                        new_title@,
                        new_content_cid@,
                        new_genre@,
                        new_cover_image_cid@,
                        new_status,
                    ) is None
                    &&& final(self)@ == (TaleView {
                        title: new_title@,
                        content_cid: new_content_cid@,
                        genre: new_genre@,
                        cover_image_cid: new_cover_image_cid@,
                        status: new_status,
                        timestamp: now,
                        ..old(self)@
                    })
                },
                Err(e) => {
                    &&& tale_fields_refusal(
                        new_title@,
                        new_content_cid@,
                        new_genre@,
                        new_cover_image_cid@,
                        new_status,
                    ) == Some(e)
                    &&& *final(self) == *old(self)
                },
            },
            old(self).wf() ==> final(self).wf(),
    {
        match check_tale_fields(
            new_title.as_str(),
            new_content_cid.as_str(),
            new_genre.as_str(),
            new_cover_image_cid.as_str(),
            new_status,
        ) {
            Ok(()) => {},
            Err(e) => {
                return Err(e);
            },
        }
        self.title = new_title;
        self.content_cid = new_content_cid;
        self.genre = new_genre;
        self.cover_image_cid = new_cover_image_cid;
        self.status = new_status;
        self.timestamp = now;
        Ok(())
    }

    /// Whether the tale may be deleted: a published tale may not.
    pub fn check_delete(&self) -> (r: Result<(), AppError>)
        ensures
            r == (if self@.status == PUBLISHED {
                Err::<(), AppError>(AppError::CannotDeletePublished)
            } else {
                Ok(())
            }),
    {
        if self.status == PUBLISHED {
            Err(AppError::CannotDeletePublished)
        } else {
            Ok(())
        }
    }
}

/// A tale within its bounds fits the space set aside for it, with 32 bytes
/// to spare.
pub proof fn tale_fits_its_space(tale: TaleView)
    requires
        tale.wf(),
    ensures
        tale.encoded_len() + 32 <= TALE_ACCOUNT_SPACE,
{
}

/// An episode of a tale. It keeps its own copy of the author, taken when it
/// was made.
#[derive(Clone, Debug, PartialEq, Eq)]
pub struct Episode {
    pub author: Address,
    pub parent_tale: Address,
    pub episode_id_seed: String,
    pub episode_name: String,
    pub content_cid: String,
    pub image_set_id: String,
    pub order: u32,
    pub status: u8,
    pub is_nft: bool,
    pub candy_machine_id: String,
    pub timestamp: i64,
    pub bump: u8,
}

/// An episode over sequences.
pub struct EpisodeView {
    pub author: Seq<u8>,
    pub parent_tale: Seq<u8>,
    pub episode_id_seed: Seq<char>,
    pub episode_name: Seq<char>,
    pub content_cid: Seq<char>,
    pub image_set_id: Seq<char>,
    pub order: u32,
    pub status: u8,
    pub is_nft: bool,
    pub candy_machine_id: Seq<char>,
    pub timestamp: i64,
    pub bump: u8,
}

impl View for Episode {
    type V = EpisodeView;

    open spec fn view(&self) -> EpisodeView {
        EpisodeView {
            author: self.author@,
            parent_tale: self.parent_tale@,
            episode_id_seed: self.episode_id_seed@,
            episode_name: self.episode_name@,
            content_cid: self.content_cid@,
            image_set_id: self.image_set_id@,
            order: self.order,
            status: self.status,
            is_nft: self.is_nft,
            candy_machine_id: self.candy_machine_id@,
            timestamp: self.timestamp,
            bump: self.bump,
        }
    }
}

impl EpisodeView {
    /// Every field is within its bound, and an episode that is no token
    /// names no candy machine.
    pub open spec fn wf(self) -> bool {
        &&& fits(self.episode_id_seed, MAX_EPISODE_ID_SEED_LENGTH)
        &&& fits(self.episode_name, MAX_EPISODE_NAME_LENGTH)
        &&& fits(self.content_cid, MAX_EPISODE_CONTENT_CID_LENGTH)
        &&& fits(self.image_set_id, MAX_IMAGE_SET_ID_LENGTH)
        &&& fits(self.candy_machine_id, MAX_CANDY_MACHINE_ID_LENGTH)
        &&& self.status <= HIGHEST_EPISODE_STATUS
        &&& (!self.is_nft ==> self.candy_machine_id == Seq::<char>::empty())
    }

    /// Bytes that the episode takes when written out.
    pub open spec fn encoded_len(self) -> nat {
        8 + 32 + 32 + (4 + byte_len(self.episode_id_seed)) + (4 + byte_len(self.episode_name)) + (4
            + byte_len(self.content_cid)) + (4 + byte_len(self.image_set_id)) + 4 + 1 + 1 + (4
            + byte_len(self.candy_machine_id)) + 8 + 1
    }
}

/// Why the fields of an episode that may be rewritten are refused, or `None`
/// where they are accepted. The checks are made in this order.
pub open spec fn episode_fields_refusal(
    episode_name: Seq<char>,
    content_cid: Seq<char>,
    image_set_id: Seq<char>,
    candy_machine_id: Seq<char>,
    status: u8,
) -> Option<AppError> {
    if !fits(episode_name, MAX_EPISODE_NAME_LENGTH) {
        Some(AppError::EpisodeNameTooLong)
    } else if !fits(content_cid, MAX_EPISODE_CONTENT_CID_LENGTH) {
        Some(AppError::ContentCidTooLong)
    } else if !fits(image_set_id, MAX_IMAGE_SET_ID_LENGTH) {
        Some(AppError::ImageSetIdTooLong)
    } else if !fits(candy_machine_id, MAX_CANDY_MACHINE_ID_LENGTH) {
        Some(AppError::CandyMachineIdTooLong)
    } else if status > HIGHEST_EPISODE_STATUS {
        Some(AppError::InvalidStatus)
    } else {
        None
    }
}

/// Why a new episode is refused, or `None` where it is accepted: its seed is
/// checked first, then the other fields.
pub open spec fn episode_refusal(
    episode_id_seed: Seq<char>,
    episode_name: Seq<char>,
    content_cid: Seq<char>,
    image_set_id: Seq<char>,
    candy_machine_id: Seq<char>,
    status: u8,
) -> Option<AppError> {
    if !fits(episode_id_seed, MAX_EPISODE_ID_SEED_LENGTH) {
        Some(AppError::EpisodeIdSeedTooLong)
    } else {
        episode_fields_refusal(episode_name, content_cid, image_set_id, candy_machine_id, status)
    }
}

/// The candy machine that an episode keeps: the one given if the episode is
/// a token, none otherwise.
pub open spec fn kept_candy_machine(is_nft: bool, candy_machine_id: Seq<char>) -> Seq<char> {
    if is_nft {
        candy_machine_id
    } else {
        Seq::<char>::empty()
    }
}

fn check_episode_fields(
    episode_name: &str,
    content_cid: &str,
    image_set_id: &str,
    candy_machine_id: &str,
    status: u8,
) -> (r: Result<(), AppError>)
    ensures
        match r {
            Ok(()) => episode_fields_refusal(
                episode_name@,
                content_cid@,
                image_set_id@,
                candy_machine_id@,
                status,
            ) is None,
            Err(e) => episode_fields_refusal(
                episode_name@,
                content_cid@,
                image_set_id@,
                candy_machine_id@,
                status,
            ) == Some(e),
        },
{
    if too_long(episode_name, MAX_EPISODE_NAME_LENGTH) {
        return Err(AppError::EpisodeNameTooLong);
    }
    if too_long(content_cid, MAX_EPISODE_CONTENT_CID_LENGTH) {
        return Err(AppError::ContentCidTooLong);
    }
    if too_long(image_set_id, MAX_IMAGE_SET_ID_LENGTH) {
        return Err(AppError::ImageSetIdTooLong);
    }
    if too_long(candy_machine_id, MAX_CANDY_MACHINE_ID_LENGTH) {
        return Err(AppError::CandyMachineIdTooLong);
    }
    if validate_ordinal(status, HIGHEST_EPISODE_STATUS).is_err() {
        return Err(AppError::InvalidStatus);
    }
    Ok(())
}

fn keep_candy_machine(is_nft: bool, candy_machine_id: String) -> (r: String)
    ensures
        r@ == kept_candy_machine(is_nft, candy_machine_id@),
{
    if is_nft {
        candy_machine_id
    } else {
        String::new()
    }
}

impl Episode {
    pub open spec fn wf(&self) -> bool {
        self@.wf()
    }

    /// A new episode under a tale, with the author's address copied onto it.
    pub fn new(
        author: Address,
        parent_tale: Address,
        bump: u8,
        now: i64,
        episode_id_seed: String,
        episode_name: String,
        content_cid: String,
        image_set_id: String,
        order: u32,
        initial_status: u8,
        is_nft: bool,
        candy_machine_id: String,
    ) -> (r: Result<Episode, AppError>)
        ensures
            match r {
                Ok(episode) => {
                    &&& episode_refusal(
                        episode_id_seed@,
                        episode_name@,
                        content_cid@,
                        image_set_id@,
                        candy_machine_id@,
                        initial_status,
                    ) is None
                    &&& episode@ == (EpisodeView {
                        author: author@,
                        parent_tale: parent_tale@,
                        episode_id_seed: episode_id_seed@,
                        episode_name: episode_name@,
                        content_cid: content_cid@,
                        image_set_id: image_set_id@,
                        order,
                        status: initial_status,
                        is_nft,
                        candy_machine_id: kept_candy_machine(is_nft, candy_machine_id@),
                        timestamp: now,
                        bump,
                    })
                    &&& episode.wf()
                },
                Err(e) => episode_refusal(
                    episode_id_seed@,
                    episode_name@,
                    content_cid@,
                    image_set_id@,
                    candy_machine_id@,
                    initial_status,
                ) == Some(e),
            },
    {
        if too_long(episode_id_seed.as_str(), MAX_EPISODE_ID_SEED_LENGTH) {
            return Err(AppError::EpisodeIdSeedTooLong);
        }
        match check_episode_fields(
            episode_name.as_str(),
            content_cid.as_str(),
            image_set_id.as_str(),
            candy_machine_id.as_str(),
            initial_status,
        ) {
            Ok(()) => {},
            Err(e) => {
                return Err(e);
            },
        }
        proof {
            empty_text_fits(MAX_CANDY_MACHINE_ID_LENGTH);
        }
        Ok(
            Episode {
                author,
                parent_tale,
                episode_id_seed,
                episode_name,
                content_cid,
                image_set_id,
                order,
                status: initial_status,
                is_nft,
                candy_machine_id: keep_candy_machine(is_nft, candy_machine_id),
                timestamp: now,
                bump,
            },
        )
    }

    /// Rewrites the episode and stamps it with the time `now`. The author,
    /// the tale, the seed and the nonce stay.
    pub fn update(
        &mut self,
        now: i64,
        new_episode_name: String,
        new_content_cid: String,
        new_image_set_id: String,
        new_order: u32,
        new_status: u8,
        new_is_nft: bool,
        new_candy_machine_id: String,
    ) -> (r: Result<(), AppError>)
        ensures
            match r {
                Ok(()) => {
                    &&& episode_fields_refusal(
                        new_episode_name@,
                        new_content_cid@,
                        new_image_set_id@,
                        new_candy_machine_id@,
                        new_status,
                    ) is None
                    &&& final(self)@ == (EpisodeView {
                        episode_name: new_episode_name@,
                        content_cid: new_content_cid@,
                        image_set_id: new_image_set_id@,
                        order: new_order,
                        status: new_status,
                        is_nft: new_is_nft,
                        candy_machine_id: kept_candy_machine(new_is_nft, new_candy_machine_id@),
                        timestamp: now,
                        ..old(self)@
                    })
                },
                Err(e) => {
                    &&& episode_fields_refusal(
                        new_episode_name@,
                        new_content_cid@,
                        new_image_set_id@,
                        new_candy_machine_id@,
                        new_status,
                    ) == Some(e)
                    &&& *final(self) == *old(self)
                },
            },
            old(self).wf() ==> final(self).wf(),
    {
        match check_episode_fields(
            new_episode_name.as_str(),
            new_content_cid.as_str(),
            new_image_set_id.as_str(),
            new_candy_machine_id.as_str(),
            new_status,
        ) {
            Ok(()) => {},
            Err(e) => {
                return Err(e);
            },
        }
        proof {
            empty_text_fits(MAX_CANDY_MACHINE_ID_LENGTH);
        }
        self.episode_name = new_episode_name;
        self.content_cid = new_content_cid;
        self.image_set_id = new_image_set_id;
        self.order = new_order;
        self.status = new_status;
        self.is_nft = new_is_nft;
        self.candy_machine_id = keep_candy_machine(new_is_nft, new_candy_machine_id);
        self.timestamp = now;
        Ok(())
    }
}

/// An episode within its bounds fits the space set aside for it, with 32
/// bytes to spare.
pub proof fn episode_fits_its_space(episode: EpisodeView)
    requires
        episode.wf(),
    ensures
        episode.encoded_len() + 32 <= EPISODE_ACCOUNT_SPACE,
{
}

/// The log of one mint: who minted which token from which candy machine.
#[derive(Clone, Debug, PartialEq, Eq)]
pub struct MintActivity {
    pub user_wallet: Address,
    pub candy_machine_id: Address,
    pub nft_mint_address: Address,
    pub transaction_signature: String,
    pub episode_on_chain_pda: Option<Address>,
    pub timestamp: i64,
    pub status: u8,
    pub bump: u8,
}

/// The log of a mint over sequences.
pub struct MintActivityView {
    pub user_wallet: Seq<u8>,
    pub candy_machine_id: Seq<u8>,
    pub nft_mint_address: Seq<u8>,
    pub transaction_signature: Seq<char>,
    pub episode_on_chain_pda: Option<Seq<u8>>,
    pub timestamp: i64,
    pub status: u8,
    pub bump: u8,
}

impl View for MintActivity {
    type V = MintActivityView;

    open spec fn view(&self) -> MintActivityView {
        MintActivityView {
            user_wallet: self.user_wallet@,
            candy_machine_id: self.candy_machine_id@,
            nft_mint_address: self.nft_mint_address@,
            transaction_signature: self.transaction_signature@,
            episode_on_chain_pda: optional_view(self.episode_on_chain_pda),
            timestamp: self.timestamp,
            status: self.status,
            bump: self.bump,
        }
    }
}

impl MintActivityView {
    /// The signature is within its bound, and the status is one of the two.
    pub open spec fn wf(self) -> bool {
        &&& fits(self.transaction_signature, MAX_TX_SIGNATURE_LENGTH)
        &&& self.status <= CANCELLED
    }

    /// Bytes that the log takes when written out.
    pub open spec fn encoded_len(self) -> nat {
        8 + 32 + 32 + 32 + (4 + byte_len(self.transaction_signature)) + (1 + 32) + 8 + 1 + 1
    }
}

impl MintActivity {
    pub open spec fn wf(&self) -> bool {
        self@.wf()
    }

    /// Logs a mint of `user_wallet` at the time `now`, as one that stands.
    pub fn new(
        user_wallet: Address,
        candy_machine_id: Address,
        nft_mint_address: Address,
        bump: u8,
        now: i64,
        transaction_signature: String,
        episode_on_chain_pda: Option<Address>,
    ) -> (r: Result<MintActivity, AppError>)
        ensures
            match r {
                Ok(activity) => {
                    &&& fits(transaction_signature@, MAX_TX_SIGNATURE_LENGTH)
                    &&& activity@ == (MintActivityView {
                        user_wallet: user_wallet@,
                        candy_machine_id: candy_machine_id@,
                        nft_mint_address: nft_mint_address@,
                        transaction_signature: transaction_signature@,
                        episode_on_chain_pda: optional_view(episode_on_chain_pda),
                        timestamp: now,
                        status: ACTIVE,
                        bump,
                    })
                    &&& activity.wf()
                },
                Err(e) => {
                    &&& e == AppError::TxSignatureTooLong
                    &&& !fits(transaction_signature@, MAX_TX_SIGNATURE_LENGTH)
                },
            },
    {
        if too_long(transaction_signature.as_str(), MAX_TX_SIGNATURE_LENGTH) {
            return Err(AppError::TxSignatureTooLong);
        }
        Ok(
            MintActivity {
                user_wallet,
                candy_machine_id,
                nft_mint_address,
                transaction_signature,
                episode_on_chain_pda,
                timestamp: now,
                status: ACTIVE,
                bump,
            },
        )
    }

    /// Cancels the logged mint at the time `now`. A mint is cancelled once.
    pub fn cancel(&mut self, now: i64) -> (r: Result<(), AppError>)
        ensures
            match r {
                Ok(()) => {
                    &&& old(self)@.status != CANCELLED
                    &&& final(self)@ == (MintActivityView {
                        status: CANCELLED,
                        timestamp: now,
                        ..old(self)@
                    })
                },
                Err(e) => {
                    &&& e == AppError::MintActivityAlreadyCancelled
                    &&& old(self)@.status == CANCELLED
                    &&& *final(self) == *old(self)
                },
            },
            old(self).wf() ==> final(self).wf(),
    {
        if self.status == CANCELLED {
            return Err(AppError::MintActivityAlreadyCancelled);
        }
        self.status = CANCELLED;
        self.timestamp = now;
        Ok(())
    }
}

/// The log of a mint within its bounds fits the space set aside for it,
/// with 32 bytes to spare.
pub proof fn mint_activity_fits_its_space(activity: MintActivityView)
    requires
        activity.wf(),
    ensures
        activity.encoded_len() + 32 <= MINT_ACTIVITY_ACCOUNT_SPACE,
{
}

} // verus!
