//! What holds of every vote and of every ledger, whatever was done to it.

use super::ballot::{
    after_cast, ballot, cast_refusal, filled, finalize_refusal, finalized, opened, phase_rank,
    setup_refusal, Ballot,
};
use super::ledger::{
    after_cast_vote, after_create_vote, after_finalize_vote, cast_vote_refusal,
    create_vote_refusal, vote_refusal, LedgerView,
};
use super::tally::{lemma_slot_within_sum, lemma_sum_after_update, lemma_sum_of_zeros, tally_sum};
use super::types::{GovernanceError, VoteCategory, VoteRecordView, VoteStatus, VoteView};
use crate::store::{Failure, StoreError};
use crate::token::HoldingView;
use vstd::prelude::*;

verus! {

/// The tally is conserved: in a well-formed vote the slots of the tally sum
/// to the total vote power, and the regular and the token voters to the
/// participants.
pub proof fn tally_is_conserved(vote: VoteView)
    requires
        vote.wf(),
    ensures
        tally_sum(vote.total_votes) == vote.total_vote_power,
        vote.total_participants == vote.regular_voters + vote.nft_voters,
{
}

/// The tally of every vote of a well-formed ledger is conserved. Every
/// operation of the program leaves a well-formed ledger well formed, so this
/// holds of every vote at every point in time.
pub proof fn stored_tallies_are_conserved(ledger: LedgerView, at: Seq<u8>)
    requires
        ledger.wf(),
        ledger.votes.contains_key(at),
    ensures
        tally_sum(ledger.votes[at].record.total_votes)
            == ledger.votes[at].record.total_vote_power,
        ledger.votes[at].record.total_participants == ledger.votes[at].record.regular_voters
            + ledger.votes[at].record.nft_voters,
        ledger.votes[at].record.total_votes.len() == ledger.votes[at].record.choices.len(),
{
}

/// An accepted proposal opens a well-formed vote.
pub proof fn opened_vote_is_well_formed(
    creator: Seq<u8>,
    now: i64,
    voting_id: Seq<char>,
    question: Seq<char>,
    description: Seq<char>,
    choices: Seq<Seq<char>>,
    start_time: i64,
    end_time: i64,
    nft_mint: Option<Seq<u8>>,
    regular_vote_power: u64,
    nft_vote_power: u64,
    category: VoteCategory,
    tags: Seq<Seq<char>>,
)
    requires
        setup_refusal(
            voting_id,
            choices.len(),
            start_time,
            end_time,
            regular_vote_power,
            nft_vote_power,
            tags.len(),
        ) is None,
    ensures
        opened(
            creator,
            now,
            voting_id,
            question,
            description,
            choices,
            start_time,
            end_time,
            nft_mint,
            regular_vote_power,
            nft_vote_power,
            category,
            tags,
        ).wf(),
{
    lemma_sum_of_zeros(Seq::new(choices.len(), |i: int| 0u64));
}

/// An accepted ballot leaves the vote well formed, so the tally stays
/// conserved; it adds exactly its weight to the slot of the choice and to
/// the total vote power, and one participant.
pub proof fn cast_keeps_vote_well_formed(
    vote: VoteView,
    record: VoteRecordView,
    voter: Seq<u8>,
    holding: Option<HoldingView>,
    now: i64,
    choice_index: u8,
)
    requires
        vote.wf(),
        cast_refusal(vote, record, voter, holding, now, choice_index) is None,
    ensures
        ballot(vote, holding, voter) is Ok,
        after_cast(vote, ballot(vote, holding, voter)->Ok_0, choice_index).wf(),
        after_cast(vote, ballot(vote, holding, voter)->Ok_0, choice_index).total_vote_power
            == vote.total_vote_power + ballot(vote, holding, voter)->Ok_0.weight,
        after_cast(vote, ballot(vote, holding, voter)->Ok_0, choice_index).total_votes[choice_index as int]
            == vote.total_votes[choice_index as int] + ballot(vote, holding, voter)->Ok_0.weight,
        after_cast(vote, ballot(vote, holding, voter)->Ok_0, choice_index).total_participants
            == vote.total_participants + 1,
{
    let b = ballot(vote, holding, voter)->Ok_0;
    lemma_slot_within_sum(vote.total_votes, choice_index as int);
    lemma_sum_after_update(
        vote.total_votes,
        choice_index as int,
        (vote.total_votes[choice_index as int] + b.weight) as u64,
    );
}

/// An accepted finalization leaves the vote well formed, with its tally
/// untouched.
pub proof fn finalize_keeps_vote_well_formed(vote: VoteView, caller: Seq<u8>, now: i64)
    requires
        vote.wf(),
        finalize_refusal(vote, caller, now) is None,
    ensures
        finalized(vote).wf(),
        finalized(vote).total_votes == vote.total_votes,
        finalized(vote).total_vote_power == vote.total_vote_power,
{
}

/// A vote never goes back to an earlier phase: a ballot moves it from
/// upcoming to active or leaves its phase, and a finalization completes it.
pub proof fn phases_only_advance(vote: VoteView, b: Ballot, choice_index: u8)
    ensures
        phase_rank(after_cast(vote, b, choice_index).status) >= phase_rank(vote.status),
        phase_rank(finalized(vote).status) >= phase_rank(vote.status),
        after_cast(vote, b, choice_index).status != VoteStatus::Upcoming,
        finalized(vote).status == VoteStatus::Completed,
{
}

/// A cast is gated by the voting window of an active vote: before the start
/// it fails with `VoteNotStarted`, after the end with `VoteEnded`.
pub proof fn cast_is_gated_by_the_window(
    vote: VoteView,
    record: VoteRecordView,
    voter: Seq<u8>,
    holding: Option<HoldingView>,
    now: i64,
    choice_index: u8,
)
    requires
        vote.wf(),
        vote.is_active,
    ensures
        now < vote.start_time ==> cast_refusal(vote, record, voter, holding, now, choice_index)
            == Some(GovernanceError::VoteNotStarted),
        now > vote.end_time ==> cast_refusal(vote, record, voter, holding, now, choice_index)
            == Some(GovernanceError::VoteEnded),
{
}

/// A finalization is gated by the end of the window and by the creator: of
/// an active vote it fails with `VoteStillActive` up to the end of the
/// window, and after it with `NotCreator` for every caller but the creator.
pub proof fn finalize_is_gated(vote: VoteView, caller: Seq<u8>, now: i64)
    requires
        vote.is_active,
    ensures
        now <= vote.end_time ==> finalize_refusal(vote, caller, now) == Some(
            GovernanceError::VoteStillActive,
        ),
        now > vote.end_time && caller != vote.creator ==> finalize_refusal(vote, caller, now)
            == Some(GovernanceError::NotCreator),
{
}

/// A closed vote takes no ballot and no second finalization.
pub proof fn closed_vote_is_final(
    vote: VoteView,
    record: VoteRecordView,
    voter: Seq<u8>,
    holding: Option<HoldingView>,
    caller: Seq<u8>,
    now: i64,
    choice_index: u8,
)
    requires
        !vote.is_active,
    ensures
        cast_refusal(vote, record, voter, holding, now, choice_index) == Some(
            GovernanceError::VoteNotActive,
        ),
        finalize_refusal(vote, caller, now) == Some(GovernanceError::VoteNotActive),
{
}

/// A voter casts once: the receipt of an accepted ballot says so, and with
/// that receipt every later ballot on any state of the vote is refused, with
/// `AlreadyVoted` wherever the vote is active, the time within the window and
/// the choice one of the vote's.
pub proof fn receipt_refuses_second_ballot(
    vote: VoteView,
    record: VoteRecordView,
    voter: Seq<u8>,
    holding: Option<HoldingView>,
    now: i64,
    choice_index: u8,
    later: VoteView,
    later_holding: Option<HoldingView>,
    later_now: i64,
    later_choice: u8,
)
    requires
        cast_refusal(vote, record, voter, holding, now, choice_index) is None,
    ensures
        ballot(vote, holding, voter) is Ok,
        filled(record, ballot(vote, holding, voter)->Ok_0, choice_index, now).has_voted,
        cast_refusal(
            later,
            filled(record, ballot(vote, holding, voter)->Ok_0, choice_index, now),
            voter,
            later_holding,
            later_now,
            later_choice,
        ) is Some,
        later.is_active && later.start_time <= later_now <= later.end_time && later_choice
            < later.choices.len() ==> cast_refusal(
            later,
            filled(record, ballot(vote, holding, voter)->Ok_0, choice_index, now),
            voter,
            later_holding,
            later_now,
            later_choice,
        ) == Some(GovernanceError::AlreadyVoted),
{
}

/// Every receipt that says a ballot was cast is still in the later ledger,
/// unchanged.
pub open spec fn receipts_kept(before: LedgerView, after: LedgerView) -> bool {
    forall|at: Seq<u8>|
        #[trigger] before.vote_records.contains_key(at) && before.vote_records[at].record.has_voted
            ==> after.vote_records.contains_key(at) && after.vote_records[at].record
            == before.vote_records[at].record
}

/// A receipt that says a ballot was cast is never taken back: no operation
/// of the program removes or changes it.
pub proof fn cast_receipts_are_terminal(
    ledger: LedgerView,
    signer: Seq<u8>,
    vote: Seq<u8>,
    vote_record: Seq<u8>,
    token_account: Seq<u8>,
    now: i64,
    choice_index: u8,
    content: VoteView,
)
    ensures
        receipts_kept(
            ledger,
            after_cast_vote(ledger, signer, vote, vote_record, token_account, now, choice_index),
        ),
        receipts_kept(ledger, after_finalize_vote(ledger, signer, vote, now)),
        !ledger.vote_records.contains_key(vote_record) ==> receipts_kept(
            ledger,
            after_create_vote(ledger, vote, vote_record, content),
        ),
{
    let after = after_cast_vote(
        ledger,
        signer,
        vote,
        vote_record,
        token_account,
        now,
        choice_index,
    );
    assert forall|at: Seq<u8>|
        #[trigger] ledger.vote_records.contains_key(at)
            && ledger.vote_records[at].record.has_voted implies after.vote_records.contains_key(at)
        && after.vote_records[at].record == ledger.vote_records[at].record by {
        if cast_vote_refusal(ledger, signer, vote, vote_record, token_account, now, choice_index)
            is None {
            assert(at != vote_record);
        }
    }
}

/// Voting is idempotent: once a ballot of a voter on a vote is accepted,
/// every later `cast_vote` of that voter on that vote fails and leaves the
/// ledger as it is, whatever receipt address, token account, time or choice
/// comes with it, and whatever was done to the ledger in between, as long as
/// the receipts were kept. It fails with `AlreadyVoted` wherever the vote is
/// found, the receipt's address is the right one, the vote is active, the
/// time within the window and the choice one of the vote's.
pub proof fn second_cast_vote_is_refused(
    ledger: LedgerView,
    voter: Seq<u8>,
    vote: Seq<u8>,
    vote_record: Seq<u8>,
    token_account: Seq<u8>,
    now: i64,
    choice_index: u8,
    later: LedgerView,
    later_record: Seq<u8>,
    later_token_account: Seq<u8>,
    later_now: i64,
    later_choice: u8,
)
    requires
        cast_vote_refusal(ledger, voter, vote, vote_record, token_account, now, choice_index)
            is None,
        later.program == ledger.program,
        receipts_kept(
            after_cast_vote(ledger, voter, vote, vote_record, token_account, now, choice_index),
            later,
        ),
    ensures
        cast_vote_refusal(
            later,
            voter,
            vote,
            later_record,
            later_token_account,
            later_now,
            later_choice,
        ) is Some,
        after_cast_vote(
            later,
            voter,
            vote,
            later_record,
            later_token_account,
            later_now,
            later_choice,
        ) == later,
        ({
            &&& vote_refusal(later, vote) is None
            &&& later_record == vote_record
            &&& later.votes[vote].record.is_active
            &&& later.votes[vote].record.start_time <= later_now <= later.votes[vote].record.end_time
            &&& later_choice < later.votes[vote].record.choices.len()
        }) ==> cast_vote_refusal(
            later,
            voter,
            vote,
            later_record,
            later_token_account,
            later_now,
            later_choice,
        ) == Some(Failure::<GovernanceError>::Rule(GovernanceError::AlreadyVoted)),
{
    let after = after_cast_vote(
        ledger,
        voter,
        vote,
        vote_record,
        token_account,
        now,
        choice_index,
    );
    assert(after.vote_records.contains_key(vote_record));
    assert(after.vote_records[vote_record].record.has_voted);
    assert(later.vote_records.contains_key(vote_record));
}

/// No vote is opened twice: once `create_vote` is accepted for a creator and
/// a voting id, every later one for the same creator and voting id fails, as
/// long as the vote is still there, with `AddressAlreadyInUse` where the
/// same address is presented and `AddressMismatch` where another is.
pub proof fn second_create_vote_is_refused(
    ledger: LedgerView,
    creator: Seq<u8>,
    vote: Seq<u8>,
    vote_record: Seq<u8>,
    voting_id: Seq<char>,
    choices: nat,
    start_time: i64,
    end_time: i64,
    regular_vote_power: u64,
    nft_vote_power: u64,
    tags: nat,
    content: VoteView,
    later: LedgerView,
    later_vote: Seq<u8>,
    later_record: Seq<u8>,
    later_choices: nat,
    later_start_time: i64,
    later_end_time: i64,
    later_regular_vote_power: u64,
    later_nft_vote_power: u64,
    later_tags: nat,
)
    requires
        create_vote_refusal(
            ledger,
            creator,
            vote,
            vote_record,
            voting_id,
            choices,
            start_time,
            end_time,
            regular_vote_power,
            nft_vote_power,
            tags,
        ) is None,
        later.program == ledger.program,
        after_create_vote(ledger, vote, vote_record, content).votes.dom().subset_of(
            later.votes.dom(),
        ),
    ensures
        create_vote_refusal(
            later,
            creator,
            later_vote,
            later_record,
            voting_id,
            later_choices,
            later_start_time,
            later_end_time,
            later_regular_vote_power,
            later_nft_vote_power,
            later_tags,
        ) == Some(
            Failure::<GovernanceError>::Store(
                if later_vote == vote {
                    StoreError::AddressAlreadyInUse
                } else {
                    StoreError::AddressMismatch
                },
            ),
        ),
{
    assert(after_create_vote(ledger, vote, vote_record, content).votes.contains_key(vote));
    assert(later.votes.dom().contains(vote));
}

/// One live vote per creator and voting id: where every record is placed
/// at its own address, two votes of the same creator under the same voting
/// id are one vote at one address.
pub proof fn one_vote_per_creator_and_id(ledger: LedgerView, a: Seq<u8>, b: Seq<u8>)
    requires
        ledger.placed(),
        ledger.votes.contains_key(a),
        ledger.votes.contains_key(b),
        ledger.votes[a].record.creator == ledger.votes[b].record.creator,
        ledger.votes[a].record.voting_id == ledger.votes[b].record.voting_id,
    ensures
        a == b,
{
}

/// One receipt per vote and voter: where every record is placed at its own
/// address, two receipts of the same voter on the same vote are one receipt
/// at one address.
pub proof fn one_receipt_per_vote_and_voter(ledger: LedgerView, a: Seq<u8>, b: Seq<u8>)
    requires
        ledger.placed(),
        ledger.vote_records.contains_key(a),
        ledger.vote_records.contains_key(b),
        ledger.vote_records[a].record.vote == ledger.vote_records[b].record.vote,
        ledger.vote_records[a].record.voter == ledger.vote_records[b].record.voter,
    ensures
        a == b,
{
}

} // verus!
