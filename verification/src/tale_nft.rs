//! The token program: the log of mints and the listing of tokens.

pub mod laws;
pub mod ledger;
pub mod records;

pub use ledger::{
    cancel_mint_activity, close_mint_activity_account, list_nft, log_mint_activity, unlist_nft,
    update_listed_nft, CancelMintActivity, CloseMintActivityAccount, ListNft, LogMintActivity,
    TokenLedger, UnlistNft, UpdateListedNft,
};
pub use records::{AppError, ListedNft, MintActivity, MintActivityStatus};
