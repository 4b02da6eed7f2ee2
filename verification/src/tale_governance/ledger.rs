//! The voting program over its stores: every operation names the addresses
//! it works on, and each address is checked before the vote behind it is
//! touched.
//!
//! A vote lives at the address derived from the tag `vote`, its creator and
//! its voting id; the receipt of a voter at the address derived from the tag
//! `vote_record`, the vote's address and the voter. An operation either
//! takes effect in full or leaves every store as it was.

use super::ballot::{
    after_cast, ballot, cast_refusal, filled, finalize_refusal, finalized, opened, results_open,
    setup_refusal,
};
use super::types::{
    blank_record, texts_view, GovernanceError, Vote, VoteCategory, VoteList,
    VoteRecord, VoteRecordView, VoteStatus, VoteView,
};
use crate::address::{
    derived, derives_to, optional_view, seeds_view, text_bytes, text_seed, Address,
};
use crate::store::{placement_refusal, Deposit, Entry, Failure, RecordStore, StoreError};
use crate::token::holding_in;
use vstd::prelude::*;

verus! {

/// Domain tag of the address of a vote.
pub const VOTE_TAG: &'static str = "vote";

/// Domain tag of the address of a receipt.
pub const VOTE_RECORD_TAG: &'static str = "vote_record";

/// The accounts of `create_vote`: the creator, who signs and pays, and the
/// addresses presented for the new vote and for the creator's receipt.
#[derive(Clone, Copy, Debug)]
pub struct CreateVote {
    pub creator: Address,
    pub vote: Address,
    pub vote_record: Address,
}

/// The accounts of `cast_vote`: the voter, who signs and pays, the vote, the
/// address presented for the voter's receipt, and the data of the token
/// account that the voter shows for a gated vote.
#[derive(Clone, Debug)]
pub struct CastVote {
    pub voter: Address,
    pub vote: Address,
    pub vote_record: Address,
    pub nft_token_account: Vec<u8>,
}

/// The accounts of `finalize_vote`: the signer, who must be the creator, and
/// the vote.
#[derive(Clone, Copy, Debug)]
pub struct FinalizeVote {
    pub creator: Address,
    pub vote: Address,
}

/// The account of `get_results`: the vote.
#[derive(Clone, Copy, Debug)]
pub struct GetResults {
    pub vote: Address,
}

/// The account of `list_votes`: where the cursor is kept.
#[derive(Clone, Copy, Debug)]
pub struct ListVotes {
    pub vote_list: Address,
}

/// The records of the voting program: votes, receipts and list cursors, each
/// kind in its store.
pub struct VotingLedger {
    pub program: Address,
    pub votes: RecordStore<Vote>,
    pub vote_records: RecordStore<VoteRecord>,
    pub vote_lists: RecordStore<VoteList>,
}

/// The ledger over maps from address to record.
pub struct LedgerView {
    pub program: Seq<u8>,
    pub votes: Map<Seq<u8>, Entry<VoteView>>,
    pub vote_records: Map<Seq<u8>, Entry<VoteRecordView>>,
    pub vote_lists: Map<Seq<u8>, Entry<VoteList>>,
}

impl View for VotingLedger {
    type V = LedgerView;

    open spec fn view(&self) -> LedgerView {
        LedgerView {
            program: self.program@,
            votes: self.votes@,
            vote_records: self.vote_records@,
            vote_lists: self.vote_lists@,
        }
    }
}

impl LedgerView {
    /// Every vote in the ledger is well formed.
    pub open spec fn wf(self) -> bool {
        forall|at: Seq<u8>| #[trigger] self.votes.contains_key(at) ==> self.votes[at].record.wf()
    }

    /// Every vote and every receipt lives at the address that its own seeds
    /// derive: a vote at the address of its creator and voting id, a
    /// receipt at the address of its vote and voter. The operations of the
    /// program put records nowhere else.
    pub open spec fn placed(self) -> bool {
        &&& forall|at: Seq<u8>| #[trigger]
            self.votes.contains_key(at) ==> vote_refusal(self, at) is None
        &&& forall|at: Seq<u8>| #[trigger]
            self.vote_records.contains_key(at) ==> derives_to(
                self.program,
                VOTE_RECORD_TAG@,
                record_seeds(self.vote_records[at].record.vote, self.vote_records[at].record.voter),
                at,
            )
    }
}

/// Why a vote is not handed out at an address, or `None` where it is: a
/// vote must be there, and the address must be the one that the vote's own
/// creator and voting id derive.
pub open spec fn vote_refusal(ledger: LedgerView, at: Seq<u8>) -> Option<StoreError> {
    if !ledger.votes.contains_key(at) {
        Some(StoreError::RecordNotFound)
    } else if !derives_to(
        ledger.program,
        VOTE_TAG@,
        vote_seeds(ledger.votes[at].record.creator, ledger.votes[at].record.voting_id),
        at,
    ) {
        Some(StoreError::AddressMismatch)
    } else {
        None
    }
}

/// The seeds of a vote after its tag: the creator and the voting id.
pub open spec fn vote_seeds(creator: Seq<u8>, voting_id: Seq<char>) -> Seq<Seq<u8>> {
    seq![creator, text_bytes(voting_id)]
}

/// The seeds of a receipt after its tag: the vote and the voter.
pub open spec fn record_seeds(vote: Seq<u8>, voter: Seq<u8>) -> Seq<Seq<u8>> {
    seq![vote, voter]
}

/// The receipt that a cast works on: the stored one, or a blank one where the
/// voter has none yet.
pub open spec fn presented_record(
    records: Map<Seq<u8>, Entry<VoteRecordView>>,
    vote: Seq<u8>,
    voter: Seq<u8>,
    at: Seq<u8>,
) -> VoteRecordView {
    if records.contains_key(at) {
        records[at].record
    } else {
        blank_record(vote, voter)
    }
}

/// Why `create_vote` fails, or `None` where it succeeds: first the
/// placement of the vote, then that of the creator's receipt, then the rules
/// of a proposal.
pub open spec fn create_vote_refusal(
    ledger: LedgerView,
    creator: Seq<u8>,
    vote: Seq<u8>,
    vote_record: Seq<u8>,
    voting_id: Seq<char>,
    choices: nat,
    start_time: i64,
    end_time: i64,
    regular_vote_power: u64,
    nft_vote_power: u64,
    tags: nat,
) -> Option<Failure<GovernanceError>> {
    match placement_refusal(
        ledger.votes,
        ledger.program,
        VOTE_TAG@,
        vote_seeds(creator, voting_id),
        vote,
    ) {
        Some(e) => Some(Failure::Store(e)),
        None => match placement_refusal(
            ledger.vote_records,
            ledger.program,
            VOTE_RECORD_TAG@,
            record_seeds(vote, creator),
            vote_record,
        ) {
            Some(e) => Some(Failure::Store(e)),
            None => match setup_refusal(
                voting_id,
                choices,
                start_time,
                end_time,
                regular_vote_power,
                nft_vote_power,
                tags,
            ) {
                Some(e) => Some(Failure::Rule(e)),
                None => None,
            },
        },
    }
}

/// The ledger after an accepted `create_vote`: with the vote and the blank
/// receipt of its creator at the addresses presented.
pub open spec fn after_create_vote(
    ledger: LedgerView,
    vote: Seq<u8>,
    vote_record: Seq<u8>,
    content: VoteView,
) -> LedgerView {
    LedgerView {
        votes: ledger.votes.insert(vote, Entry { space: Vote::LEN, record: content }),
        vote_records: ledger.vote_records.insert(
            vote_record,
            Entry { space: VoteRecord::LEN, record: blank_record(vote, content.creator) },
        ),
        ..ledger
    }
}

/// Why `cast_vote` fails, or `None` where it succeeds: the vote must be
/// there, at its own address; the receipt's address must be the one derived
/// for the vote and the voter; and the ballot must be accepted by the vote.
pub open spec fn cast_vote_refusal(
    ledger: LedgerView,
    voter: Seq<u8>,
    vote: Seq<u8>,
    vote_record: Seq<u8>,
    token_account: Seq<u8>,
    now: i64,
    choice_index: u8,
) -> Option<Failure<GovernanceError>> {
    match vote_refusal(ledger, vote) {
        Some(e) => Some(Failure::Store(e)),
        None => match derived(ledger.program, VOTE_RECORD_TAG@, record_seeds(vote, voter)) {
            None => Some(Failure::Store(StoreError::NoViableAddress)),
            Some((address, _)) => if address != vote_record {
                Some(Failure::Store(StoreError::AddressMismatch))
            } else {
                match cast_refusal(
                    ledger.votes[vote].record,
                    presented_record(ledger.vote_records, vote, voter, vote_record),
                    voter,
                    holding_in(token_account),
                    now,
                    choice_index,
                ) {
                    Some(e) => Some(Failure::Rule(e)),
                    None => None,
                }
            },
        },
    }
}

/// The ledger after `cast_vote`: with the ballot in the vote and the receipt
/// filled where the cast succeeds, unchanged where it fails.
pub open spec fn after_cast_vote(
    ledger: LedgerView,
    voter: Seq<u8>,
    vote: Seq<u8>,
    vote_record: Seq<u8>,
    token_account: Seq<u8>,
    now: i64,
    choice_index: u8,
) -> LedgerView {
    if cast_vote_refusal(ledger, voter, vote, vote_record, token_account, now, choice_index)
        is Some {
        ledger
    } else {
        let b = ballot(ledger.votes[vote].record, holding_in(token_account), voter)->Ok_0;
        let before = presented_record(ledger.vote_records, vote, voter, vote_record);
        LedgerView {
            votes: ledger.votes.insert(
                vote,
                Entry {
                    space: ledger.votes[vote].space,
                    record: after_cast(ledger.votes[vote].record, b, choice_index),
                },
            ),
            vote_records: ledger.vote_records.insert(
                vote_record,
                Entry {
                    space: if ledger.vote_records.contains_key(vote_record) {
                        ledger.vote_records[vote_record].space
                    } else {
                        VoteRecord::LEN
                    },
                    record: filled(before, b, choice_index, now),
                },
            ),
            ..ledger
        }
    }
}

/// Why `finalize_vote` fails, or `None` where it succeeds.
pub open spec fn finalize_vote_refusal(ledger: LedgerView, caller: Seq<u8>, vote: Seq<u8>, now: i64) -> Option<
    Failure<GovernanceError>,
> {
    match vote_refusal(ledger, vote) {
        Some(e) => Some(Failure::Store(e)),
        None => match finalize_refusal(ledger.votes[vote].record, caller, now) {
            Some(e) => Some(Failure::Rule(e)),
            None => None,
        },
    }
}

/// The ledger after `finalize_vote`.
pub open spec fn after_finalize_vote(ledger: LedgerView, caller: Seq<u8>, vote: Seq<u8>, now: i64) -> LedgerView {
    if finalize_vote_refusal(ledger, caller, vote, now) is Some {
        ledger
    } else {
        LedgerView {
            votes: ledger.votes.insert(
                vote,
                Entry {
                    space: ledger.votes[vote].space,
                    record: finalized(ledger.votes[vote].record),
                },
            ),
            ..ledger
        }
    }
}

impl VotingLedger {
    /// The stores hold no address twice, and every vote is well formed.
    pub open spec fn wf(&self) -> bool {
        &&& self.votes.wf()
        &&& self.vote_records.wf()
        &&& self.vote_lists.wf()
        &&& self@.wf()
    }

    /// The empty ledger of a program.
    pub fn new(program: Address) -> (r: VotingLedger)
        ensures
            r.wf(),
            r@.placed(),
            r@.program == program@,
            r@.votes == Map::<Seq<u8>, Entry<VoteView>>::empty(),
            r@.vote_records == Map::<Seq<u8>, Entry<VoteRecordView>>::empty(),
            r@.vote_lists == Map::<Seq<u8>, Entry<VoteList>>::empty(),
    {
        VotingLedger {
            program,
            votes: RecordStore::new(),
            vote_records: RecordStore::new(),
            vote_lists: RecordStore::new(),
        }
    }

    /// The address of the vote of a creator and a voting id, with its nonce.
    pub fn vote_address(&self, creator: &Address, voting_id: &str) -> (r: Option<(Address, u8)>)
        ensures
            crate::address::is_derivation(
                self.program@,
                VOTE_TAG@,
                vote_seeds(creator@, voting_id@),
                r,
            ),
    {
        crate::address::derive(&self.program, VOTE_TAG, seeds_of_vote(creator, voting_id))
    }

    /// The vote at an address. The address is derived again from the
    /// creator and the voting id that the vote itself holds, and a vote that
    /// is found elsewhere is not handed out.
    pub fn vote_at(&self, at: &Address) -> (r: Result<&Vote, StoreError>)
        requires
            self.wf(),
        ensures
            match r {
                Ok(vote) => vote_refusal(self@, at@) is None && vote@ == self@.votes[at@].record,
                Err(e) => vote_refusal(self@, at@) == Some(e),
            },
    {
        let vote = match self.votes.load(at) {
            Ok(vote) => vote,
            Err(e) => {
                return Err(e);
            },
        };
        match self.vote_address(&vote.creator, vote.voting_id.as_str()) {
            Some((address, _)) => {
                if address == *at {
                    Ok(vote)
                } else {
                    Err(StoreError::AddressMismatch)
                }
            },
            None => Err(StoreError::AddressMismatch),
        }
    }

    /// The address of the receipt of a voter on a vote, with its nonce.
    pub fn record_address(&self, vote: &Address, voter: &Address) -> (r: Option<(Address, u8)>)
        ensures
            crate::address::is_derivation(
                self.program@,
                VOTE_RECORD_TAG@,
                record_seeds(vote@, voter@),
                r,
            ),
    {
        crate::address::derive(&self.program, VOTE_RECORD_TAG, seeds_of_record(vote, voter))
    }
}

fn seeds_of_vote(creator: &Address, voting_id: &str) -> (r: Vec<Vec<u8>>)
    ensures
        seeds_view(r@) == vote_seeds(creator@, voting_id@),
{
    let mut seeds: Vec<Vec<u8>> = Vec::new();
    seeds.push(creator.as_seed());
    seeds.push(text_seed(voting_id));
    assert(seeds_view(seeds@) =~= vote_seeds(creator@, voting_id@));
    seeds
}

fn seeds_of_record(vote: &Address, voter: &Address) -> (r: Vec<Vec<u8>>)
    ensures
        seeds_view(r@) == record_seeds(vote@, voter@),
{
    let mut seeds: Vec<Vec<u8>> = Vec::new();
    seeds.push(vote.as_seed());
    seeds.push(voter.as_seed());
    assert(seeds_view(seeds@) =~= record_seeds(vote@, voter@));
    seeds
}

/// Opens a vote at the address derived for its creator and voting id, and a
/// blank receipt for the creator beside it. Hands out the reservation for
/// the two records, to be charged to the creator.
pub fn create_vote(
    ledger: &mut VotingLedger,
    ctx: &CreateVote,
    now: i64,
    voting_id: String,
    question: String,
    description: String,
    choices: Vec<String>,
    start_time: i64,
    end_time: i64,
    nft_mint: Option<Address>,
    regular_vote_power: u64,
    nft_vote_power: u64,
    category: VoteCategory,
    tags: Vec<String>,
) -> (r: Result<Deposit, Failure<GovernanceError>>)
    requires
        old(ledger).wf(),
    ensures
        final(ledger).wf(),
        old(ledger)@.placed() ==> final(ledger)@.placed(),
        match r {
            Ok(reserve) => {
                &&& create_vote_refusal(
                    old(ledger)@,
                    ctx.creator@,
                    ctx.vote@,
                    ctx.vote_record@,
                    voting_id@,
                    choices@.len(),
                    start_time,
                    end_time,
                    regular_vote_power,
                    nft_vote_power,
                    tags@.len(),
                ) is None
                &&& reserve.holder == ctx.creator
                &&& reserve.space == Vote::LEN + VoteRecord::LEN
                &&& final(ledger)@ == after_create_vote(
                    old(ledger)@,
                    ctx.vote@,
                    ctx.vote_record@,
                    opened(
                        ctx.creator@,
                        now,
                        voting_id@,
                        question@,
                        description@,
                        texts_view(choices@),
                        start_time,
                        end_time,
                        optional_view(nft_mint),
                        regular_vote_power,
                        nft_vote_power,
                        category,
                        texts_view(tags@),
                    ),
                )
            },
            Err(e) => {
                &&& create_vote_refusal(
                    old(ledger)@,
                    ctx.creator@,
                    ctx.vote@,
                    ctx.vote_record@,
                    voting_id@,
                    choices@.len(),
                    start_time,
                    end_time,
                    regular_vote_power,
                    nft_vote_power,
                    tags@.len(),
                ) == Some(e)
                &&& final(ledger)@ == old(ledger)@
            },
        },
{
    match ledger.votes.placement(
        &ledger.program,
        VOTE_TAG,
        seeds_of_vote(&ctx.creator, voting_id.as_str()),
        &ctx.vote,
    ) {
        Ok(_) => {},
        Err(e) => {
            return Err(Failure::Store(e));
        },
    }
    match ledger.vote_records.placement(
        &ledger.program,
        VOTE_RECORD_TAG,
        seeds_of_record(&ctx.vote, &ctx.creator),
        &ctx.vote_record,
    ) {
        Ok(_) => {},
        Err(e) => {
            return Err(Failure::Store(e));
        },
    }
    let vote = match Vote::new(
        ctx.creator,
        now,
        voting_id,
        question,
        description,
        choices,
        start_time,
        end_time,
        nft_mint,
        regular_vote_power,
        nft_vote_power,
        category,
        tags,
    ) {
        Ok(vote) => vote,
        Err(e) => {
            return Err(Failure::Rule(e));
        },
    };
    ledger.votes.put(ctx.vote, Vote::LEN, vote);
    ledger.vote_records.put(
        ctx.vote_record,
        VoteRecord::LEN,
        VoteRecord::new(ctx.vote, ctx.creator),
    );
    Ok(Deposit { holder: ctx.creator, space: Vote::LEN + VoteRecord::LEN })
}

/// Casts the ballot of the voter for a choice at time `now`.
///
/// The receipt is looked up at the address derived for the vote and the
/// voter, and made there if the voter has none; a voter whose receipt says
/// that a ballot was cast is refused. Hands out the reservation for a
/// receipt made by this call, to be charged to the voter.
pub fn cast_vote(ledger: &mut VotingLedger, ctx: &CastVote, now: i64, choice_index: u8) -> (r:
    Result<Option<Deposit>, Failure<GovernanceError>>)
    requires
        old(ledger).wf(),
    ensures
        final(ledger).wf(),
        old(ledger)@.placed() ==> final(ledger)@.placed(),
        final(ledger)@ == after_cast_vote(
            old(ledger)@,
            ctx.voter@,
            ctx.vote@,
            ctx.vote_record@,
            ctx.nft_token_account@,
            now,
            choice_index,
        ),
        match r {
            Ok(reserve) => {
                &&& cast_vote_refusal(
                    old(ledger)@,
                    ctx.voter@,
                    ctx.vote@,
                    ctx.vote_record@,
                    ctx.nft_token_account@,
                    now,
                    choice_index,
                ) is None
                &&& match reserve {
                    Some(d) => {
                        &&& !old(ledger)@.vote_records.contains_key(ctx.vote_record@)
                        &&& d.holder == ctx.voter
                        &&& d.space == VoteRecord::LEN
                    },
                    None => old(ledger)@.vote_records.contains_key(ctx.vote_record@),
                }
            },
            Err(e) => cast_vote_refusal(
                old(ledger)@,
                ctx.voter@,
                ctx.vote@,
                ctx.vote_record@,
                ctx.nft_token_account@,
                now,
                choice_index,
            ) == Some(e),
        },
{
    let holding = match ledger.vote_at(&ctx.vote) {
        Ok(vote) => vote.read_holding(ctx.nft_token_account.as_slice()),
        Err(e) => {
            return Err(Failure::Store(e));
        },
    };
    match crate::address::derive(
        &ledger.program,
        VOTE_RECORD_TAG,
        seeds_of_record(&ctx.vote, &ctx.voter),
    ) {
        None => {
            return Err(Failure::Store(StoreError::NoViableAddress));
        },
        Some((address, _)) => {
            if address != ctx.vote_record {
                return Err(Failure::Store(StoreError::AddressMismatch));
            }
        },
    }
    let stored = ledger.vote_records.contains(&ctx.vote_record);
    let mut record = match ledger.vote_records.load(&ctx.vote_record) {
        Ok(record) => *record,
        Err(_) => VoteRecord::new(ctx.vote, ctx.voter),
    };
    let (mut vote, space) = match ledger.votes.take(&ctx.vote) {
        Some(taken) => taken,
        None => {
            return Err(Failure::Store(StoreError::RecordNotFound));
        },
    };
    let outcome = vote.cast(&mut record, &ctx.voter, holding, now, choice_index);
    let ghost cast = vote@;
    ledger.votes.put(ctx.vote, space, vote);
    assert(ledger.votes@ =~= old(ledger).votes@.insert(
        ctx.vote@,
        Entry { space, record: cast },
    ));
    match outcome {
        Err(e) => {
            assert(ledger.votes@ =~= old(ledger).votes@);
            assert(ledger@ == old(ledger)@);
            Err(Failure::Rule(e))
        },
        Ok(()) => {
            if stored {
                let _ = ledger.vote_records.update(&ctx.vote_record, record);
                Ok(None)
            } else {
                ledger.vote_records.put(ctx.vote_record, VoteRecord::LEN, record);
                Ok(Some(Deposit { holder: ctx.voter, space: VoteRecord::LEN }))
            }
        },
    }
}

/// Closes a vote for its creator once its window has passed, and names the
/// winner of its tally.
pub fn finalize_vote(ledger: &mut VotingLedger, ctx: &FinalizeVote, now: i64) -> (r: Result<
    (),
    Failure<GovernanceError>,
>)
    requires
        old(ledger).wf(),
    ensures
        final(ledger).wf(),
        old(ledger)@.placed() ==> final(ledger)@.placed(),
        final(ledger)@ == after_finalize_vote(old(ledger)@, ctx.creator@, ctx.vote@, now),
        match r {
            Ok(()) => finalize_vote_refusal(old(ledger)@, ctx.creator@, ctx.vote@, now) is None,
            Err(e) => finalize_vote_refusal(old(ledger)@, ctx.creator@, ctx.vote@, now) == Some(e),
        },
{
    match ledger.vote_at(&ctx.vote) {
        Ok(_) => {},
        Err(e) => {
            return Err(Failure::Store(e));
        },
    }
    let (mut vote, space) = match ledger.votes.take(&ctx.vote) {
        Some(taken) => taken,
        None => {
            return Err(Failure::Store(StoreError::RecordNotFound));
        },
    };
    let outcome = vote.finalize(&ctx.creator, now);
    let ghost closed = vote@;
    ledger.votes.put(ctx.vote, space, vote);
    assert(ledger.votes@ =~= old(ledger).votes@.insert(
        ctx.vote@,
        Entry { space, record: closed },
    ));
    match outcome {
        Err(e) => {
            assert(ledger.votes@ =~= old(ledger).votes@);
            assert(ledger@ == old(ledger)@);
            Err(Failure::Rule(e))
        },
        Ok(()) => Ok(()),
    }
}

/// The tally of a vote, once the vote is closed or its window has passed.
pub fn get_results(ledger: &VotingLedger, ctx: &GetResults, now: i64) -> (r: Result<
    Vec<u64>,
    Failure<GovernanceError>,
>)
    requires
        ledger.wf(),
    ensures
        match r {
            Ok(tally) => {
                &&& vote_refusal(ledger@, ctx.vote@) is None
                &&& results_open(ledger@.votes[ctx.vote@].record, now)
                &&& tally@ == ledger@.votes[ctx.vote@].record.total_votes
            },
            Err(Failure::Store(e)) => vote_refusal(ledger@, ctx.vote@) == Some(e),
            Err(Failure::Rule(e)) => {
                &&& e == GovernanceError::VoteStillActive
                &&& vote_refusal(ledger@, ctx.vote@) is None
                &&& !results_open(ledger@.votes[ctx.vote@].record, now)
            },
        },
{
    match ledger.vote_at(&ctx.vote) {
        Err(e) => Err(Failure::Store(e)),
        Ok(vote) => match vote.results(now) {
            Ok(tally) => Ok(tally),
            Err(e) => Err(Failure::Rule(e)),
        },
    }
}

/// Records the filter and the page that a reader asked for, at the address
/// the reader names. The first call for an address makes the cursor there
/// and hands out its reservation; no call fails, and no vote is read.
pub fn list_votes(
    ledger: &mut VotingLedger,
    ctx: &ListVotes,
    now: i64,
    status: VoteStatus,
    category: Option<VoteCategory>,
    page: u8,
    page_size: u8,
) -> (r: Option<usize>)
    requires
        old(ledger).wf(),
    ensures
        final(ledger).wf(),
        old(ledger)@.placed() ==> final(ledger)@.placed(),
        final(ledger)@ == (LedgerView {
            vote_lists: old(ledger)@.vote_lists.insert(
                ctx.vote_list@,
                Entry {
                    space: if old(ledger)@.vote_lists.contains_key(ctx.vote_list@) {
                        old(ledger)@.vote_lists[ctx.vote_list@].space
                    } else {
                        VoteList::LEN
                    },
                    record: VoteList { status, category, page, page_size, last_updated: now },
                },
            ),
            ..old(ledger)@
        }),
        r == (if old(ledger)@.vote_lists.contains_key(ctx.vote_list@) {
            None::<usize>
        } else {
            Some(VoteList::LEN)
        }),
{
    let mut cursor = VoteList { status, category: None, page: 0, page_size: 0, last_updated: 0 };
    cursor.record(status, category, page, page_size, now);
    match ledger.vote_lists.take(&ctx.vote_list) {
        Some((_, space)) => {
            ledger.vote_lists.put(ctx.vote_list, space, cursor);
            assert(ledger.vote_lists@ =~= old(ledger).vote_lists@.insert(
                ctx.vote_list@,
                Entry { space, record: cursor },
            ));
            None
        },
        None => {
            ledger.vote_lists.put(ctx.vote_list, VoteList::LEN, cursor);
            Some(VoteList::LEN)
        },
    }
}

} // verus!
