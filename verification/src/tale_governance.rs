//! Weighted voting: proposals, ballots, the tally and its winner.

pub mod ballot;
pub mod laws;
pub mod ledger;
pub mod tally;
pub mod types;

pub use ballot::Ballot;
pub use ledger::{
    cast_vote, create_vote, finalize_vote, get_results, list_votes, CastVote, CreateVote,
    FinalizeVote, GetResults, ListVotes, VotingLedger,
};
pub use types::{GovernanceError, Vote, VoteCategory, VoteList, VoteRecord, VoteStatus};
