//! The records of the voting program and what holds of them at all times.

use super::tally::{tally_sum, winner};
use crate::address::{optional_view, Address};
use crate::fields::byte_len;
use vstd::prelude::*;

verus! {

/// Fewest choices a vote can offer.
pub const MIN_CHOICES: usize = 2;

/// Most choices a vote can offer.
pub const MAX_CHOICES: usize = 10;

/// Most tags a vote can carry.
pub const MAX_TAGS: usize = 5;

/// Longest voting id, in bytes.
pub const MAX_VOTING_ID_LENGTH: usize = 64;

/// Where a vote stands in its life. The order of the variants is the order
/// of the phases, and a vote never goes back.
#[derive(Clone, Copy, Debug, PartialEq, Eq, Structural)]
pub enum VoteStatus {
    Upcoming,
    Active,
    Completed,
}

#[derive(Clone, Copy, Debug, PartialEq, Eq, Structural)]
pub enum VoteCategory {
    Content,
    Feature,
    Community,
    Technical,
    Other,
}

/// Why the voting program refuses an operation.
#[derive(Clone, Copy, Debug, PartialEq, Eq, Structural)]
pub enum GovernanceError {
    InvalidTimeRange,
    InvalidChoices,
    InvalidVotePower,
    VoteNotActive,
    VoteNotStarted,
    VoteEnded,
    InvalidChoice,
    InvalidNFT,
    NotNFTOwner,
    VoteStillActive,
    AlreadyVoted,
    NotCreator,
    TooManyTags,
    InvalidVoteId,
    /// A counter of the vote would pass the largest 64-bit number.
    ArithmeticError,
}

impl GovernanceError {
    /// The message that goes with the error.
    pub fn message(&self) -> (r: &'static str)
        ensures
            r@ == error_message(*self),
    {
        match self {
            GovernanceError::InvalidTimeRange => "Invalid time range",
            GovernanceError::InvalidChoices => "Invalid number of choices",
            GovernanceError::InvalidVotePower => "Invalid vote power",
            GovernanceError::VoteNotActive => "Vote is not active",
            GovernanceError::VoteNotStarted => "Vote has not started yet",
            GovernanceError::VoteEnded => "Vote has ended",
            GovernanceError::InvalidChoice => "Invalid choice index",
            GovernanceError::InvalidNFT => "Invalid NFT",
            GovernanceError::NotNFTOwner => "Not the NFT owner",
            GovernanceError::VoteStillActive => "Vote is still active",
            GovernanceError::AlreadyVoted => "Already voted",
            GovernanceError::NotCreator => "Not the creator",
            GovernanceError::TooManyTags => "Too many tags",
            GovernanceError::InvalidVoteId => "Invalid vote ID",
            GovernanceError::ArithmeticError => "Arithmetic overflow",
        }
    }
}

/// The message of each error.
pub open spec fn error_message(e: GovernanceError) -> Seq<char> {
    match e {
        GovernanceError::InvalidTimeRange => "Invalid time range"@,
        GovernanceError::InvalidChoices => "Invalid number of choices"@,
        GovernanceError::InvalidVotePower => "Invalid vote power"@,
        GovernanceError::VoteNotActive => "Vote is not active"@,
        GovernanceError::VoteNotStarted => "Vote has not started yet"@,
        GovernanceError::VoteEnded => "Vote has ended"@,
        GovernanceError::InvalidChoice => "Invalid choice index"@,
        GovernanceError::InvalidNFT => "Invalid NFT"@,
        GovernanceError::NotNFTOwner => "Not the NFT owner"@,
        GovernanceError::VoteStillActive => "Vote is still active"@,
        GovernanceError::AlreadyVoted => "Already voted"@,
        GovernanceError::NotCreator => "Not the creator"@,
        GovernanceError::TooManyTags => "Too many tags"@,
        GovernanceError::InvalidVoteId => "Invalid vote ID"@,
        GovernanceError::ArithmeticError => "Arithmetic overflow"@,
    }
}

/// A proposal with its choices, its voting window, the weight of a ballot
/// and the tally so far.
#[derive(Clone, Debug, PartialEq, Eq)]
pub struct Vote {
    pub creator: Address,
    pub question: String,
    pub voting_id: String,
    pub description: String,
    pub choices: Vec<String>,
    pub start_time: i64,
    pub end_time: i64,
    pub nft_mint: Option<Address>,
    pub regular_vote_power: u64,
    pub nft_vote_power: u64,
    pub total_votes: Vec<u64>,
    pub is_active: bool,
    pub created_at: i64,
    pub total_participants: u64,
    pub regular_voters: u64,
    pub nft_voters: u64,
    pub category: VoteCategory,
    pub tags: Vec<String>,
    pub status: VoteStatus,
    pub winning_choice: Option<u8>,
    pub total_vote_power: u64,
}

/// A vote over sequences.
pub struct VoteView {
    pub creator: Seq<u8>,
    pub question: Seq<char>,
    pub voting_id: Seq<char>,
    pub description: Seq<char>,
    pub choices: Seq<Seq<char>>,
    pub start_time: i64,
    pub end_time: i64,
    pub nft_mint: Option<Seq<u8>>,
    pub regular_vote_power: u64,
    pub nft_vote_power: u64,
    pub total_votes: Seq<u64>,
    pub is_active: bool,
    pub created_at: i64,
    pub total_participants: u64,
    pub regular_voters: u64,
    pub nft_voters: u64,
    pub category: VoteCategory,
    pub tags: Seq<Seq<char>>,
    pub status: VoteStatus,
    pub winning_choice: Option<u8>,
    pub total_vote_power: u64,
}

/// A list of texts as a sequence of character sequences.
pub open spec fn texts_view(texts: Seq<String>) -> Seq<Seq<char>> {
    Seq::new(texts.len(), |i: int| texts[i]@)
}

impl View for Vote {
    type V = VoteView;

    open spec fn view(&self) -> VoteView {
        VoteView {
            creator: self.creator@,
            question: self.question@,
            voting_id: self.voting_id@,
            description: self.description@,
            choices: texts_view(self.choices@),
            start_time: self.start_time,
            end_time: self.end_time,
            nft_mint: optional_view(self.nft_mint),
            regular_vote_power: self.regular_vote_power,
            nft_vote_power: self.nft_vote_power,
            total_votes: self.total_votes@,
            is_active: self.is_active,
            created_at: self.created_at,
            total_participants: self.total_participants,
            regular_voters: self.regular_voters,
            nft_voters: self.nft_voters,
            category: self.category,
            tags: texts_view(self.tags@),
            status: self.status,
            winning_choice: self.winning_choice,
            total_vote_power: self.total_vote_power,
        }
    }
}

impl VoteView {
    /// What holds of a vote from its creation on.
    ///
    /// The window is not empty and the setup is within its bounds; the tally
    /// has one slot per choice; the slots sum to the total vote power and
    /// the two kinds of voters to the participants; every ballot weighed at
    /// least one; the vote is `Completed` exactly when it is no longer
    /// active, and from then on names the winner of its tally; and a vote
    /// still `Upcoming` has taken no ballot.
    pub open spec fn wf(self) -> bool {
        &&& self.start_time < self.end_time
        &&& MIN_CHOICES <= self.choices.len() <= MAX_CHOICES
        &&& self.total_votes.len() == self.choices.len()
        &&& self.regular_vote_power > 0
        &&& self.nft_vote_power > 0
        &&& self.tags.len() <= MAX_TAGS
        &&& 0 < byte_len(self.voting_id) <= MAX_VOTING_ID_LENGTH
        &&& tally_sum(self.total_votes) == self.total_vote_power
        &&& self.total_participants == self.regular_voters + self.nft_voters
        &&& self.total_participants <= self.total_vote_power
        &&& (self.status == VoteStatus::Completed <==> !self.is_active)
        &&& (self.status == VoteStatus::Upcoming ==> self.total_participants == 0)
        &&& self.winning_choice == (if self.is_active {
            None
        } else {
            winner(self.total_votes)
        })
    }
}

impl Vote {
    /// Bytes set aside for a vote.
    pub const LEN: usize = 8 + 32 + 64 + 100 + 500 + 4 + (50 * 10) + 8 + 8 + 1 + 32 + 8 + 8 + 4 + (8
        * 10) + 1 + 8 + 8 + 8 + 8 + 1 + 4 + (20 * 5) + 1 + 1 + 1 + 8;

    pub open spec fn wf(&self) -> bool {
        self@.wf()
    }
}

/// The receipt of one voter on one vote: blank until the voter casts, then
/// filled once and for all.
#[derive(Clone, Copy, Debug, PartialEq, Eq)]
pub struct VoteRecord {
    pub vote: Address,
    pub voter: Address,
    pub has_voted: bool,
    pub vote_power: u64,
    pub voted_choice: Option<u8>,
    pub voted_at: Option<i64>,
}

/// A receipt over sequences.
pub struct VoteRecordView {
    pub vote: Seq<u8>,
    pub voter: Seq<u8>,
    pub has_voted: bool,
    pub vote_power: u64,
    pub voted_choice: Option<u8>,
    pub voted_at: Option<i64>,
}

impl View for VoteRecord {
    type V = VoteRecordView;

    open spec fn view(&self) -> VoteRecordView {
        VoteRecordView {
            vote: self.vote@,
            voter: self.voter@,
            has_voted: self.has_voted,
            vote_power: self.vote_power,
            voted_choice: self.voted_choice,
            voted_at: self.voted_at,
        }
    }
}

/// The receipt of a voter who has not cast.
pub open spec fn blank_record(vote: Seq<u8>, voter: Seq<u8>) -> VoteRecordView {
    VoteRecordView {
        vote,
        voter,
        has_voted: false,
        vote_power: 0,
        voted_choice: None,
        voted_at: None,
    }
}

impl VoteRecord {
    /// Bytes set aside for a receipt.
    pub const LEN: usize = 8 + 32 + 32 + 1 + 8 + 1 + 1 + 1 + 8;

    /// The blank receipt of a voter on a vote.
    pub fn new(vote: Address, voter: Address) -> (r: VoteRecord)
        ensures
            r@ == blank_record(vote@, voter@),
    {
        VoteRecord {
            vote,
            voter,
            has_voted: false,
            vote_power: 0,
            voted_choice: None,
            voted_at: None,
        }
    }
}

/// The filter and the page that a reader of the votes asked for last.
#[derive(Clone, Copy, Debug, PartialEq, Eq)]
pub struct VoteList {
    pub status: VoteStatus,
    pub category: Option<VoteCategory>,
    pub page: u8,
    pub page_size: u8,
    pub last_updated: i64,
}

impl View for VoteList {
    type V = VoteList;

    open spec fn view(&self) -> VoteList {
        *self
    }
}

impl VoteList {
    /// Bytes set aside for a list cursor.
    pub const LEN: usize = 8 + 1 + 1 + 1 + 1 + 1 + 8;
}

} // verus!
