//! The story program: tales with gates and likes, episodes with a schedule.

pub mod laws;
pub mod ledger;
pub mod records;

pub use ledger::{
    create_episode, create_tale, delete_episode, delete_tale, like_episode, like_tale,
    update_episode, update_tale, CreateEpisode, CreateTale, DeleteEpisode, DeleteTale,
    LikeEpisode, LikeTale, StoryLedger, UpdateEpisode, UpdateTale,
};
pub use records::{AppError, Episode, EpisodeStatus, Tale, TaleStatus};
