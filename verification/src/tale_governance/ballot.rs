//! The life of one vote: opened, cast on, finalized, read.
//!
//! Each operation checks everything before it writes anything: a refused
//! operation leaves the vote and the receipt as they were.

use super::tally::{
    lemma_slot_within_sum, lemma_sum_after_update, lemma_sum_of_zeros, sum_of, winner,
    winning_choice,
};
use super::types::{
    blank_record, texts_view, GovernanceError, Vote, VoteCategory, VoteList, VoteRecord,
    VoteRecordView, VoteStatus, VoteView, MAX_CHOICES, MAX_TAGS, MAX_VOTING_ID_LENGTH, MIN_CHOICES,
};
use crate::address::{optional_view, Address};
use crate::fields::{byte_len, validate_non_empty};
use crate::token::{holding_in, holding_view, HoldingView, TokenHolding};
use vstd::prelude::*;

verus! {

/// What one ballot adds to a tally, and on which side it is counted.
#[derive(Clone, Copy, Debug, PartialEq, Eq, Structural)]
pub struct Ballot {
    /// The vote power of the ballot.
    pub weight: u64,
    /// Whether the voter holds the gating token, and so counts among the
    /// token voters.
    pub by_holder: bool,
}

/// Why a proposal is refused, or `None` where it is accepted. The checks are
/// made in this order, and the first that fails names the error.
pub open spec fn setup_refusal(
    voting_id: Seq<char>,
    choices: nat,
    start_time: i64,
    end_time: i64,
    regular_vote_power: u64,
    nft_vote_power: u64,
    tags: nat,
) -> Option<GovernanceError> {
    if start_time >= end_time {
        Some(GovernanceError::InvalidTimeRange)
    } else if choices < MIN_CHOICES || choices > MAX_CHOICES {
        Some(GovernanceError::InvalidChoices)
    } else if regular_vote_power == 0 || nft_vote_power == 0 {
        Some(GovernanceError::InvalidVotePower)
    } else if tags > MAX_TAGS {
        Some(GovernanceError::TooManyTags)
    } else if byte_len(voting_id) == 0 || byte_len(voting_id) > MAX_VOTING_ID_LENGTH {
        Some(GovernanceError::InvalidVoteId)
    } else {
        None
    }
}

/// The vote as it is opened: active, upcoming, with an empty tally of one
/// slot per choice.
pub open spec fn opened(
    creator: Seq<u8>,
    now: i64,
    voting_id: Seq<char>,
    question: Seq<char>,
    description: Seq<char>,
    choices: Seq<Seq<char>>,
    start_time: i64,
    end_time: i64,
    nft_mint: Option<Seq<u8>>,
    regular_vote_power: u64,
    nft_vote_power: u64,
    category: VoteCategory,
    tags: Seq<Seq<char>>,
) -> VoteView {
    VoteView {
        creator,
        question,
        voting_id,
        description,
        choices,
        start_time,
        end_time,
        nft_mint,
        regular_vote_power,
        nft_vote_power,
        total_votes: Seq::new(choices.len(), |i: int| 0u64),
        is_active: true,
        created_at: now,
        total_participants: 0,
        regular_voters: 0,
        nft_voters: 0,
        category,
        tags,
        status: VoteStatus::Upcoming,
        winning_choice: None,
        total_vote_power: 0,
    }
}

/// The ballot of a voter on a vote. An ungated vote weighs every ballot at
/// the regular power. A gated vote asks for a token account of the gating
/// mint that the voter owns, and weighs the ballot at the token power where
/// the account holds any of the token, at the regular power where it holds
/// none.
pub open spec fn ballot(vote: VoteView, holding: Option<HoldingView>, voter: Seq<u8>) -> Result<
    Ballot,
    GovernanceError,
> {
    match vote.nft_mint {
        None => Ok(Ballot { weight: vote.regular_vote_power, by_holder: false }),
        Some(mint) => match holding {
            None => Err(GovernanceError::InvalidNFT),
            Some(h) => if h.mint != mint {
                Err(GovernanceError::InvalidNFT)
            } else if h.owner != voter {
                Err(GovernanceError::NotNFTOwner)
            } else if h.amount > 0 {
                Ok(Ballot { weight: vote.nft_vote_power, by_holder: true })
            } else {
                Ok(Ballot { weight: vote.regular_vote_power, by_holder: false })
            },
        },
    }
}

/// Why a cast is refused, or `None` where it is accepted. The checks are
/// made in this order, and the first that fails names the error.
pub open spec fn cast_refusal(
    vote: VoteView,
    record: VoteRecordView,
    voter: Seq<u8>,
    holding: Option<HoldingView>,
    now: i64,
    choice_index: u8,
) -> Option<GovernanceError> {
    if !vote.is_active {
        Some(GovernanceError::VoteNotActive)
    } else if now < vote.start_time {
        Some(GovernanceError::VoteNotStarted)
    } else if now > vote.end_time {
        Some(GovernanceError::VoteEnded)
    } else if choice_index >= vote.choices.len() {
        Some(GovernanceError::InvalidChoice)
    } else if record.has_voted {
        Some(GovernanceError::AlreadyVoted)
    } else {
        match ballot(vote, holding, voter) {
            Err(e) => Some(e),
            Ok(b) => if vote.total_vote_power + b.weight > u64::MAX {
                Some(GovernanceError::ArithmeticError)
            } else {
                None
            },
        }
    }
}

/// The vote after an accepted ballot for a choice.
pub open spec fn after_cast(vote: VoteView, b: Ballot, choice_index: u8) -> VoteView {
    VoteView {
        total_votes: vote.total_votes.update(
            choice_index as int,
            (vote.total_votes[choice_index as int] + b.weight) as u64,
        ),
        total_participants: (vote.total_participants + 1) as u64,
        total_vote_power: (vote.total_vote_power + b.weight) as u64,
        nft_voters: if b.by_holder {
            (vote.nft_voters + 1) as u64
        } else {
            vote.nft_voters
        },
        regular_voters: if b.by_holder {
            vote.regular_voters
        } else {
            (vote.regular_voters + 1) as u64
        },
        status: if vote.status == VoteStatus::Upcoming {
            VoteStatus::Active
        } else {
            vote.status
        },
        ..vote
    }
}

/// The receipt after an accepted ballot.
pub open spec fn filled(record: VoteRecordView, b: Ballot, choice_index: u8, now: i64) -> VoteRecordView {
    VoteRecordView {
        has_voted: true,
        vote_power: b.weight,
        voted_choice: Some(choice_index),
        voted_at: Some(now),
        ..record
    }
}

/// Why a finalization is refused, or `None` where it is accepted.
pub open spec fn finalize_refusal(vote: VoteView, caller: Seq<u8>, now: i64) -> Option<
    GovernanceError,
> {
    if !vote.is_active {
        Some(GovernanceError::VoteNotActive)
    } else if now <= vote.end_time {
        Some(GovernanceError::VoteStillActive)
    } else if vote.creator != caller {
        Some(GovernanceError::NotCreator)
    } else {
        None
    }
}

/// The vote after its finalization: closed, completed, with the winner of
/// its tally.
pub open spec fn finalized(vote: VoteView) -> VoteView {
    VoteView {
        is_active: false,
        status: VoteStatus::Completed,
        winning_choice: winner(vote.total_votes),
        ..vote
    }
}

/// Whether the results of a vote may be read: once it is closed, or once its
/// window has passed.
pub open spec fn results_open(vote: VoteView, now: i64) -> bool {
    !vote.is_active || now > vote.end_time
}

/// The rank of a phase: a vote only ever moves to a phase of higher rank.
pub open spec fn phase_rank(status: VoteStatus) -> nat {
    match status {
        VoteStatus::Upcoming => 0,
        VoteStatus::Active => 1,
        VoteStatus::Completed => 2,
    }
}

fn empty_tally(slots: usize) -> (r: Vec<u64>)
    ensures
        r@ == Seq::new(slots as nat, |i: int| 0u64),
{
    let mut tally: Vec<u64> = Vec::new();
    let mut i: usize = 0;
    while i < slots
        invariant
            i <= slots,
            tally@.len() == i,
            forall|j: int| 0 <= j < i ==> tally@[j] == 0u64,
        decreases slots - i,
    {
        tally.push(0);
        i += 1;
    }
    assert(tally@ =~= Seq::new(slots as nat, |i: int| 0u64));
    tally
}

impl Vote {
    /// Whether the vote is well formed: the test to make on a vote that
    /// comes from outside before it is cast on or finalized.
    pub fn is_well_formed(&self) -> (r: bool)
        ensures
            r == self.wf(),
    {
        if self.start_time >= self.end_time {
            return false;
        }
        if self.choices.len() < MIN_CHOICES || self.choices.len() > MAX_CHOICES {
            return false;
        }
        if self.total_votes.len() != self.choices.len() {
            return false;
        }
        if self.regular_vote_power == 0 || self.nft_vote_power == 0 {
            return false;
        }
        if self.tags.len() > MAX_TAGS {
            return false;
        }
        if validate_non_empty(self.voting_id.as_str(), MAX_VOTING_ID_LENGTH).is_err() {
            return false;
        }
        match sum_of(&self.total_votes) {
            Some(sum) => {
                if sum != self.total_vote_power {
                    return false;
                }
            },
            None => {
                return false;
            },
        }
        match self.regular_voters.checked_add(self.nft_voters) {
            Some(voters) => {
                if voters != self.total_participants {
                    return false;
                }
            },
            None => {
                return false;
            },
        }
        if self.total_participants > self.total_vote_power {
            return false;
        }
        let completed = match self.status {
            VoteStatus::Completed => true,
            _ => false,
        };
        if completed == self.is_active {
            return false;
        }
        let upcoming = match self.status {
            VoteStatus::Upcoming => true,
            _ => false,
        };
        if upcoming && self.total_participants != 0 {
            return false;
        }
        let expected = if self.is_active {
            None
        } else {
            winning_choice(&self.total_votes)
        };
        match (self.winning_choice, expected) {
            (None, None) => true,
            (Some(a), Some(b)) => a == b,
            _ => false,
        }
    }

    /// Opens a vote for its creator at time `now`.
    pub fn new(
        creator: Address,
        now: i64,
        voting_id: String,
        question: String,
        description: String,
        choices: Vec<String>,
        start_time: i64,
        end_time: i64,
        nft_mint: Option<Address>,
        regular_vote_power: u64,
        nft_vote_power: u64,
        category: VoteCategory,
        tags: Vec<String>,
    ) -> (r: Result<Vote, GovernanceError>)
        ensures
            match r {
                Ok(vote) => {
                    &&& setup_refusal(
                        voting_id@,
                        choices@.len(),
                        start_time,
                        end_time,
                        regular_vote_power,
                        nft_vote_power,
                        tags@.len(),
                    ) is None
                    &&& vote@ == opened(
                        creator@,
                        now,
                        voting_id@,
                        question@,
                        description@,
                        texts_view(choices@),
                        start_time,
                        end_time,
                        optional_view(nft_mint),
                        regular_vote_power,
                        nft_vote_power,
                        category,
                        texts_view(tags@),
                    )
                    &&& vote.wf()
                },
                Err(e) => setup_refusal(
                    voting_id@,
                    choices@.len(),
                    start_time,
                    end_time,
                    regular_vote_power,
                    nft_vote_power,
                    tags@.len(),
                ) == Some(e),
            },
    {
        if start_time >= end_time {
            return Err(GovernanceError::InvalidTimeRange);
        }
        if choices.len() < MIN_CHOICES || choices.len() > MAX_CHOICES {
            return Err(GovernanceError::InvalidChoices);
        }
        if regular_vote_power == 0 || nft_vote_power == 0 {
            return Err(GovernanceError::InvalidVotePower);
        }
        if tags.len() > MAX_TAGS {
            return Err(GovernanceError::TooManyTags);
        }
        if validate_non_empty(voting_id.as_str(), MAX_VOTING_ID_LENGTH).is_err() {
            return Err(GovernanceError::InvalidVoteId);
        }
        let total_votes = empty_tally(choices.len());
        proof {
            lemma_sum_of_zeros(total_votes@);
        }
        let vote = Vote {
            creator,
            question,
            voting_id,
            description,
            choices,
            start_time,
            end_time,
            nft_mint,
            regular_vote_power,
            nft_vote_power,
            total_votes,
            is_active: true,
            created_at: now,
            total_participants: 0,
            regular_voters: 0,
            nft_voters: 0,
            category,
            tags,
            status: VoteStatus::Upcoming,
            winning_choice: None,
            total_vote_power: 0,
        };
        Ok(vote)
    }

    /// Reads the holding that a voter presents with a ballot, from the data
    /// of the voter's token account. Only a gated vote looks at the account.
    pub fn read_holding(&self, token_account: &[u8]) -> (r: Option<TokenHolding>)
        ensures
            holding_view(r) == (if self@.nft_mint is Some {
                holding_in(token_account@)
            } else {
                None
            }),
    {
        if self.nft_mint.is_some() {
            TokenHolding::read(token_account)
        } else {
            None
        }
    }

    /// Weighs the ballot of a voter who presents `holding`, the holding read
    /// from the token account that came with the ballot, or `None` where
    /// that account could not be read.
    pub fn weigh(&self, holding: Option<TokenHolding>, voter: &Address) -> (r: Result<
        Ballot,
        GovernanceError,
    >)
        ensures
            r == ballot(self@, holding_view(holding), voter@),
    {
        match self.nft_mint {
            None => Ok(Ballot { weight: self.regular_vote_power, by_holder: false }),
            Some(mint) => match holding {
                None => Err(GovernanceError::InvalidNFT),
                Some(h) => {
                    if h.mint != mint {
                        Err(GovernanceError::InvalidNFT)
                    } else if h.owner != *voter {
                        Err(GovernanceError::NotNFTOwner)
                    } else if h.amount > 0 {
                        Ok(Ballot { weight: self.nft_vote_power, by_holder: true })
                    } else {
                        Ok(Ballot { weight: self.regular_vote_power, by_holder: false })
                    }
                },
            },
        }
    }

    /// Casts the ballot of `voter` for a choice at time `now`, against the
    /// voter's receipt on this vote.
    ///
    /// An accepted ballot adds its weight to the slot of the choice and to
    /// the total vote power, counts the voter, fills the receipt and moves a
    /// vote that was still upcoming to active. A refused ballot changes
    /// nothing.
    pub fn cast(
        &mut self,
        record: &mut VoteRecord,
        voter: &Address,
        holding: Option<TokenHolding>,
        now: i64,
        choice_index: u8,
    ) -> (r: Result<(), GovernanceError>)
        requires
            old(self).wf(),
        ensures
            final(self).wf(),
            match r {
                Ok(()) => {
                    &&& cast_refusal(
                        old(self)@,
                        old(record)@,
                        voter@,
                        holding_view(holding),
                        now,
                        choice_index,
                    ) is None
                    &&& ballot(old(self)@, holding_view(holding), voter@) matches Ok(b)
                    &&& final(self)@ == after_cast(old(self)@, b, choice_index)
                    &&& final(record)@ == filled(old(record)@, b, choice_index, now)
                },
                Err(e) => {
                    &&& cast_refusal(
                        old(self)@,
                        old(record)@,
                        voter@,
                        holding_view(holding),
                        now,
                        choice_index,
                    ) == Some(e)
                    &&& *final(self) == *old(self)
                    &&& *final(record) == *old(record)
                },
            },
    {
        if !self.is_active {
            return Err(GovernanceError::VoteNotActive);
        }
        if now < self.start_time {
            return Err(GovernanceError::VoteNotStarted);
        }
        if now > self.end_time {
            return Err(GovernanceError::VoteEnded);
        }
        let slot = choice_index as usize;
        if slot >= self.choices.len() {
            return Err(GovernanceError::InvalidChoice);
        }
        if record.has_voted {
            return Err(GovernanceError::AlreadyVoted);
        }
        let b = match self.weigh(holding, voter) {
            Ok(b) => b,
            Err(e) => {
                return Err(e);
            },
        };
        let total_vote_power = match self.total_vote_power.checked_add(b.weight) {
            Some(sum) => sum,
            None => {
                return Err(GovernanceError::ArithmeticError);
            },
        };
        proof {
            lemma_slot_within_sum(self.total_votes@, slot as int);
            lemma_sum_after_update(
                self.total_votes@,
                slot as int,
                (self.total_votes@[slot as int] + b.weight) as u64,
            );
        }
        let count = self.total_votes[slot] + b.weight;
        self.total_votes[slot] = count;
        self.total_participants = self.total_participants + 1;
        self.total_vote_power = total_vote_power;
        if b.by_holder {
            self.nft_voters = self.nft_voters + 1;
        } else {
            self.regular_voters = self.regular_voters + 1;
        }
        if self.status == VoteStatus::Upcoming {
            self.status = VoteStatus::Active;
        }
        record.has_voted = true;
        record.vote_power = b.weight;
        record.voted_choice = Some(choice_index);
        record.voted_at = Some(now);
        assert(self@ =~= after_cast(old(self)@, b, choice_index));
        Ok(())
    }

    /// Closes the vote for its creator once the window has passed, and names
    /// the winner.
    pub fn finalize(&mut self, caller: &Address, now: i64) -> (r: Result<(), GovernanceError>)
        requires
            old(self).wf(),
        ensures
            final(self).wf(),
            match r {
                Ok(()) => {
                    &&& finalize_refusal(old(self)@, caller@, now) is None
                    &&& final(self)@ == finalized(old(self)@)
                },
                Err(e) => {
                    &&& finalize_refusal(old(self)@, caller@, now) == Some(e)
                    &&& *final(self) == *old(self)
                },
            },
    {
        if !self.is_active {
            return Err(GovernanceError::VoteNotActive);
        }
        if now <= self.end_time {
            return Err(GovernanceError::VoteStillActive);
        }
        if self.creator != *caller {
            return Err(GovernanceError::NotCreator);
        }
        let winning = winning_choice(&self.total_votes);
        self.is_active = false;
        self.status = VoteStatus::Completed;
        self.winning_choice = winning;
        Ok(())
    }

    /// The tally as it stands, once the results may be read.
    pub fn results(&self, now: i64) -> (r: Result<Vec<u64>, GovernanceError>)
        ensures
            match r {
                Ok(tally) => results_open(self@, now) && tally@ == self@.total_votes,
                Err(e) => e == GovernanceError::VoteStillActive && !results_open(self@, now),
            },
    {
        if self.is_active && now <= self.end_time {
            return Err(GovernanceError::VoteStillActive);
        }
        let mut tally: Vec<u64> = Vec::new();
        let mut i: usize = 0;
        while i < self.total_votes.len()
            invariant
                i <= self.total_votes@.len(),
                tally@.len() == i,
                forall|j: int| 0 <= j < i ==> tally@[j] == self.total_votes@[j],
            decreases self.total_votes@.len() - i,
        {
            tally.push(self.total_votes[i]);
            i += 1;
        }
        assert(tally@ =~= self.total_votes@);
        Ok(tally)
    }
}

impl VoteRecord {
    /// The receipt that a cast works on, given what is stored for the voter:
    /// a stored receipt that says a ballot was cast, or else the blank
    /// receipt of the voter on the vote. A receipt that was made and never
    /// written to counts as blank.
    pub fn presented(stored: VoteRecord, vote: Address, voter: Address) -> (r: VoteRecord)
        ensures
            r@ == (if stored@.has_voted {
                stored@
            } else {
                blank_record(vote@, voter@)
            }),
    {
        if stored.has_voted {
            stored
        } else {
            VoteRecord::new(vote, voter)
        }
    }
}

impl VoteList {
    /// Records the filter and the page that a reader asked for at time
    /// `now`. Nothing is scanned here: the cursor is all that is kept.
    pub fn record(
        &mut self,
        status: VoteStatus,
        category: Option<VoteCategory>,
        page: u8,
        page_size: u8,
        now: i64,
    )
        ensures
            *final(self) == (VoteList { status, category, page, page_size, last_updated: now }),
    {
        self.status = status;
        self.category = category;
        self.page = page;
        self.page_size = page_size;
        self.last_updated = now;
    }
}

} // verus!
