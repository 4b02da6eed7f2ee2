//! The reading program: tales, episodes and the log of mints.

pub mod laws;
pub mod ledger;
pub mod records;

pub use ledger::{
    cancel_mint_activity, close_mint_activity_account, create_episode, create_tale,
    delete_episode, delete_tale, log_mint_activity, update_episode, update_tale,
    CancelMintActivity, CloseMintActivityAccount, CreateEpisode, CreateTale, DeleteEpisode,
    DeleteTale, LogMintActivity, ReadingLedger, UpdateEpisode, UpdateTale,
};
pub use records::{
    AppError, Episode, EpisodeStatus, MintActivity, MintActivityStatus, Tale, TaleStatus,
};
