use tale_ledger::address::Address;
use tale_ledger::store::{Deposit, Failure, StoreError};
use tale_ledger::tale_governance::ledger::{
    cast_vote, create_vote, finalize_vote, get_results, list_votes, CastVote, CreateVote,
    FinalizeVote, GetResults, ListVotes, VotingLedger,
};
use tale_ledger::tale_governance::types::{
    GovernanceError, Vote, VoteCategory, VoteList, VoteRecord, VoteStatus,
};

fn addr(tag: u8) -> Address {
    Address::new([tag; 32])
}

fn program() -> Address {
    addr(200)
}

fn creator() -> Address {
    addr(1)
}

fn texts(items: &[&str]) -> Vec<String> {
    items.iter().map(|s| s.to_string()).collect()
}

fn token_account(mint: Address, owner: Address, amount: u64) -> Vec<u8> {
    let mut data = Vec::new();
    data.extend_from_slice(&mint.to_bytes());
    data.extend_from_slice(&owner.to_bytes());
    data.extend_from_slice(&amount.to_le_bytes());
    data.extend_from_slice(&[0u8; 36]);
    data.push(1);
    data.extend_from_slice(&[0u8; 12]);
    data.extend_from_slice(&[0u8; 8]);
    data.extend_from_slice(&[0u8; 36]);
    data
}

fn create_ctx(ledger: &VotingLedger, id: &str) -> CreateVote {
    let vote = ledger.vote_address(&creator(), id).unwrap().0;
    let vote_record = ledger.record_address(&vote, &creator()).unwrap().0;
    CreateVote { creator: creator(), vote, vote_record }
}

fn create(
    ledger: &mut VotingLedger,
    ctx: &CreateVote,
    id: &str,
    mint: Option<Address>,
    regular: u64,
    nft: u64,
    choices: &[&str],
) -> Result<Deposit, Failure<GovernanceError>> {
    create_vote(
        ledger,
        ctx,
        50,
        id.to_string(),
        "Which tale next?".to_string(),
        "Pick one".to_string(),
        texts(choices),
        100,
        200,
        mint,
        regular,
        nft,
        VoteCategory::Community,
        texts(&["tales"]),
    )
}

fn ledger_with_vote(mint: Option<Address>, choices: &[&str]) -> (VotingLedger, Address) {
    let mut ledger = VotingLedger::new(program());
    let ctx = create_ctx(&ledger, "poll-1");
    create(&mut ledger, &ctx, "poll-1", mint, 1, 10, choices).unwrap();
    (ledger, ctx.vote)
}

fn cast_ctx(ledger: &VotingLedger, vote: Address, voter: Address, data: Vec<u8>) -> CastVote {
    let vote_record = ledger.record_address(&vote, &voter).unwrap().0;
    CastVote { voter, vote, vote_record, nft_token_account: data }
}

fn tally(ledger: &VotingLedger, vote: &Address) -> Vec<u64> {
    ledger.votes.load(vote).unwrap().total_votes.clone()
}

#[test]
fn create_vote_stores_the_vote_and_the_creators_blank_record() {
    let mut ledger = VotingLedger::new(program());
    let ctx = create_ctx(&ledger, "poll-1");
    let reserve = create(&mut ledger, &ctx, "poll-1", None, 1, 10, &["A", "B", "C"]).unwrap();
    assert_eq!(reserve.holder, creator());
    assert_eq!(reserve.space, Vote::LEN + VoteRecord::LEN);

    let vote = ledger.votes.load(&ctx.vote).unwrap();
    assert_eq!(vote.creator, creator());
    assert_eq!(vote.voting_id, "poll-1");
    assert_eq!(vote.total_votes, vec![0, 0, 0]);
    assert_eq!(vote.status, VoteStatus::Upcoming);
    assert_eq!(vote.created_at, 50);
    assert!(vote.is_active);
    assert_eq!(ledger.votes.space_of(&ctx.vote), Ok(Vote::LEN));

    let record = ledger.vote_records.load(&ctx.vote_record).unwrap();
    assert_eq!(*record, VoteRecord::new(ctx.vote, creator()));
    assert_eq!(ledger.vote_records.space_of(&ctx.vote_record), Ok(VoteRecord::LEN));
}

#[test]
fn create_vote_twice_fails_with_address_already_in_use() {
    let mut ledger = VotingLedger::new(program());
    let ctx = create_ctx(&ledger, "poll-1");
    create(&mut ledger, &ctx, "poll-1", None, 1, 10, &["A", "B"]).unwrap();
    let second = create(&mut ledger, &ctx, "poll-1", None, 5, 5, &["X", "Y", "Z"]);
    assert_eq!(second.err(), Some(Failure::Store(StoreError::AddressAlreadyInUse)));
    let vote = ledger.votes.load(&ctx.vote).unwrap();
    assert_eq!(vote.choices, texts(&["A", "B"]));
    assert_eq!(vote.regular_vote_power, 1);
}

#[test]
fn create_vote_at_another_address_fails_with_address_mismatch() {
    let mut ledger = VotingLedger::new(program());
    let good = create_ctx(&ledger, "poll-1");
    let wrong_vote = CreateVote { vote: addr(9), ..good };
    let outcome = create(&mut ledger, &wrong_vote, "poll-1", None, 1, 10, &["A", "B"]);
    assert_eq!(outcome.err(), Some(Failure::Store(StoreError::AddressMismatch)));
    let wrong_record = CreateVote { vote_record: addr(9), ..good };
    let outcome = create(&mut ledger, &wrong_record, "poll-1", None, 1, 10, &["A", "B"]);
    assert_eq!(outcome.err(), Some(Failure::Store(StoreError::AddressMismatch)));
    let other_id = create(&mut ledger, &good, "poll-2", None, 1, 10, &["A", "B"]);
    assert_eq!(other_id.err(), Some(Failure::Store(StoreError::AddressMismatch)));
    assert!(!ledger.votes.contains(&good.vote));
    assert!(!ledger.vote_records.contains(&good.vote_record));
}

#[test]
fn create_vote_with_a_broken_rule_stores_nothing() {
    let mut ledger = VotingLedger::new(program());
    let ctx = create_ctx(&ledger, "poll-1");
    let outcome = create(&mut ledger, &ctx, "poll-1", None, 0, 10, &["A", "B"]);
    assert_eq!(outcome.err(), Some(Failure::Rule(GovernanceError::InvalidVotePower)));
    let outcome = create(&mut ledger, &ctx, "poll-1", None, 1, 10, &["A"]);
    assert_eq!(outcome.err(), Some(Failure::Rule(GovernanceError::InvalidChoices)));
    assert!(!ledger.votes.contains(&ctx.vote));
    assert!(!ledger.vote_records.contains(&ctx.vote_record));
    assert!(create(&mut ledger, &ctx, "poll-1", None, 1, 10, &["A", "B"]).is_ok());
}

#[test]
fn create_vote_with_an_id_over_32_bytes_finds_no_address() {
    let mut ledger = VotingLedger::new(program());
    let id = "a".repeat(33);
    assert!(ledger.vote_address(&creator(), &id).is_none());
    let ctx = CreateVote { creator: creator(), vote: addr(8), vote_record: addr(9) };
    let outcome = create(&mut ledger, &ctx, &id, None, 1, 10, &["A", "B"]);
    assert_eq!(outcome.err(), Some(Failure::Store(StoreError::NoViableAddress)));
}

#[test]
fn cast_vote_makes_the_record_on_the_first_cast() {
    let (mut ledger, vote) = ledger_with_vote(None, &["A", "B", "C"]);
    let voter = addr(2);
    let ctx = cast_ctx(&ledger, vote, voter, vec![]);
    assert!(!ledger.vote_records.contains(&ctx.vote_record));
    let reserve = cast_vote(&mut ledger, &ctx, 150, 1).unwrap().unwrap();
    assert_eq!(reserve.holder, voter);
    assert_eq!(reserve.space, VoteRecord::LEN);
    assert_eq!(tally(&ledger, &vote), vec![0, 1, 0]);
    let record = ledger.vote_records.load(&ctx.vote_record).unwrap();
    assert_eq!(record.vote, vote);
    assert_eq!(record.voter, voter);
    assert!(record.has_voted);
    assert_eq!(record.vote_power, 1);
    assert_eq!(record.voted_choice, Some(1));
    assert_eq!(record.voted_at, Some(150));
    assert_eq!(ledger.votes.load(&vote).unwrap().status, VoteStatus::Active);
    assert_eq!(ledger.votes.space_of(&vote), Ok(Vote::LEN));
}

#[test]
fn cast_vote_by_the_creator_fills_the_record_made_with_the_vote() {
    let (mut ledger, vote) = ledger_with_vote(None, &["A", "B"]);
    let ctx = cast_ctx(&ledger, vote, creator(), vec![]);
    assert!(ledger.vote_records.contains(&ctx.vote_record));
    assert_eq!(cast_vote(&mut ledger, &ctx, 150, 0).unwrap().is_none(), true);
    assert!(ledger.vote_records.load(&ctx.vote_record).unwrap().has_voted);
    assert_eq!(tally(&ledger, &vote), vec![1, 0]);
}

#[test]
fn cast_vote_twice_fails_with_already_voted_and_keeps_the_tally() {
    let (mut ledger, vote) = ledger_with_vote(None, &["A", "B"]);
    let voter = addr(2);
    let ctx = cast_ctx(&ledger, vote, voter, vec![]);
    cast_vote(&mut ledger, &ctx, 150, 1).unwrap();
    let other = cast_ctx(&ledger, vote, addr(3), vec![]);
    cast_vote(&mut ledger, &other, 160, 0).unwrap();
    let before = ledger.votes.load(&vote).unwrap().clone();
    for choice in [0u8, 1u8] {
        let again = cast_vote(&mut ledger, &ctx, 170, choice);
        assert_eq!(again.err(), Some(Failure::Rule(GovernanceError::AlreadyVoted)));
    }
    let after = ledger.votes.load(&vote).unwrap();
    assert_eq!(*after, before);
    assert_eq!(after.total_votes, vec![1, 1]);
    assert_eq!(after.total_participants, 2);
    assert_eq!(after.total_vote_power, 2);
    let record = ledger.vote_records.load(&ctx.vote_record).unwrap();
    assert_eq!(record.voted_choice, Some(1));
    assert_eq!(record.voted_at, Some(150));
}

#[test]
fn cast_vote_with_another_voters_record_fails_with_address_mismatch() {
    let (mut ledger, vote) = ledger_with_vote(None, &["A", "B"]);
    let voter = addr(2);
    let fresh = cast_ctx(&ledger, vote, addr(3), vec![]);
    let ctx = CastVote { voter, vote, vote_record: fresh.vote_record, nft_token_account: vec![] };
    let outcome = cast_vote(&mut ledger, &ctx, 150, 1);
    assert_eq!(outcome.err(), Some(Failure::Store(StoreError::AddressMismatch)));
    assert_eq!(tally(&ledger, &vote), vec![0, 0]);
    assert!(!ledger.vote_records.contains(&fresh.vote_record));
}

#[test]
fn cast_vote_on_a_missing_vote_fails_with_record_not_found() {
    let mut ledger = VotingLedger::new(program());
    let ctx = cast_ctx(&ledger, addr(9), addr(2), vec![]);
    let outcome = cast_vote(&mut ledger, &ctx, 150, 1);
    assert_eq!(outcome.err(), Some(Failure::Store(StoreError::RecordNotFound)));
    assert!(!ledger.vote_records.contains(&ctx.vote_record));
}

#[test]
fn refused_cast_vote_makes_no_record() {
    let (mut ledger, vote) = ledger_with_vote(None, &["A", "B"]);
    let ctx = cast_ctx(&ledger, vote, addr(2), vec![]);
    let early = cast_vote(&mut ledger, &ctx, 99, 1);
    assert_eq!(early.err(), Some(Failure::Rule(GovernanceError::VoteNotStarted)));
    let late = cast_vote(&mut ledger, &ctx, 201, 1);
    assert_eq!(late.err(), Some(Failure::Rule(GovernanceError::VoteEnded)));
    let wrong = cast_vote(&mut ledger, &ctx, 150, 2);
    assert_eq!(wrong.err(), Some(Failure::Rule(GovernanceError::InvalidChoice)));
    assert!(!ledger.vote_records.contains(&ctx.vote_record));
    assert_eq!(tally(&ledger, &vote), vec![0, 0]);
    assert_eq!(ledger.votes.load(&vote).unwrap().status, VoteStatus::Upcoming);
}

#[test]
fn gated_cast_vote_reads_the_token_account() {
    let mint = addr(77);
    let (mut ledger, vote) = ledger_with_vote(Some(mint), &["A", "B", "C"]);
    let poor = addr(2);
    let rich = addr(3);

    let ctx = cast_ctx(&ledger, vote, poor, token_account(mint, poor, 0));
    cast_vote(&mut ledger, &ctx, 120, 1).unwrap();
    assert_eq!(tally(&ledger, &vote), vec![0, 1, 0]);
    assert_eq!(ledger.votes.load(&vote).unwrap().regular_voters, 1);

    let ctx = cast_ctx(&ledger, vote, rich, token_account(mint, rich, 3));
    cast_vote(&mut ledger, &ctx, 130, 0).unwrap();
    assert_eq!(tally(&ledger, &vote), vec![10, 1, 0]);
    assert_eq!(ledger.votes.load(&vote).unwrap().nft_voters, 1);
    assert_eq!(ledger.vote_records.load(&ctx.vote_record).unwrap().vote_power, 10);
}

#[test]
fn gated_cast_vote_refuses_wrong_token_accounts() {
    let mint = addr(77);
    let (mut ledger, vote) = ledger_with_vote(Some(mint), &["A", "B"]);
    let voter = addr(2);

    let ctx = cast_ctx(&ledger, vote, voter, token_account(addr(78), voter, 3));
    let outcome = cast_vote(&mut ledger, &ctx, 150, 0);
    assert_eq!(outcome.err(), Some(Failure::Rule(GovernanceError::InvalidNFT)));

    let ctx = cast_ctx(&ledger, vote, voter, token_account(mint, addr(3), 3));
    let outcome = cast_vote(&mut ledger, &ctx, 150, 0);
    assert_eq!(outcome.err(), Some(Failure::Rule(GovernanceError::NotNFTOwner)));

    let ctx = cast_ctx(&ledger, vote, voter, vec![1, 2, 3]);
    let outcome = cast_vote(&mut ledger, &ctx, 150, 0);
    assert_eq!(outcome.err(), Some(Failure::Rule(GovernanceError::InvalidNFT)));

    assert_eq!(tally(&ledger, &vote), vec![0, 0]);
    assert!(!ledger.vote_records.contains(&ctx.vote_record));
}

#[test]
fn ungated_cast_vote_ignores_the_token_account() {
    let (mut ledger, vote) = ledger_with_vote(None, &["A", "B"]);
    let ctx = cast_ctx(&ledger, vote, addr(2), vec![9, 9, 9]);
    cast_vote(&mut ledger, &ctx, 150, 0).unwrap();
    let ctx = cast_ctx(&ledger, vote, addr(3), token_account(addr(77), addr(3), 5));
    cast_vote(&mut ledger, &ctx, 150, 0).unwrap();
    assert_eq!(tally(&ledger, &vote), vec![2, 0]);
    assert_eq!(ledger.votes.load(&vote).unwrap().regular_voters, 2);
}

#[test]
fn finalize_vote_closes_the_vote_for_its_creator() {
    let (mut ledger, vote) = ledger_with_vote(None, &["A", "B", "C"]);
    for (voter, choice) in [(2u8, 2u8), (3, 1), (4, 2)] {
        let ctx = cast_ctx(&ledger, vote, addr(voter), vec![]);
        cast_vote(&mut ledger, &ctx, 150, choice).unwrap();
    }
    let early = finalize_vote(&mut ledger, &FinalizeVote { creator: creator(), vote }, 200);
    assert_eq!(early, Err(Failure::Rule(GovernanceError::VoteStillActive)));
    let stranger = finalize_vote(&mut ledger, &FinalizeVote { creator: addr(5), vote }, 201);
    assert_eq!(stranger, Err(Failure::Rule(GovernanceError::NotCreator)));
    assert!(ledger.votes.load(&vote).unwrap().is_active);

    assert_eq!(finalize_vote(&mut ledger, &FinalizeVote { creator: creator(), vote }, 201), Ok(()));
    let closed = ledger.votes.load(&vote).unwrap();
    assert!(!closed.is_active);
    assert_eq!(closed.status, VoteStatus::Completed);
    assert_eq!(closed.winning_choice, Some(2));
    assert_eq!(closed.total_votes, vec![0, 1, 2]);

    let again = finalize_vote(&mut ledger, &FinalizeVote { creator: creator(), vote }, 300);
    assert_eq!(again, Err(Failure::Rule(GovernanceError::VoteNotActive)));
    let missing = finalize_vote(&mut ledger, &FinalizeVote { creator: creator(), vote: addr(9) }, 300);
    assert_eq!(missing, Err(Failure::Store(StoreError::RecordNotFound)));
}

#[test]
fn get_results_waits_for_the_end() {
    let (mut ledger, vote) = ledger_with_vote(None, &["A", "B"]);
    let ctx = cast_ctx(&ledger, vote, addr(2), vec![]);
    cast_vote(&mut ledger, &ctx, 150, 1).unwrap();
    let early = get_results(&ledger, &GetResults { vote }, 200);
    assert_eq!(early, Err(Failure::Rule(GovernanceError::VoteStillActive)));
    assert_eq!(get_results(&ledger, &GetResults { vote }, 201), Ok(vec![0, 1]));
    let missing = get_results(&ledger, &GetResults { vote: addr(9) }, 201);
    assert_eq!(missing, Err(Failure::Store(StoreError::RecordNotFound)));
    finalize_vote(&mut ledger, &FinalizeVote { creator: creator(), vote }, 300).unwrap();
    assert_eq!(get_results(&ledger, &GetResults { vote }, 0), Ok(vec![0, 1]));
}

#[test]
fn list_votes_keeps_the_last_cursor() {
    let mut ledger = VotingLedger::new(program());
    let ctx = ListVotes { vote_list: addr(40) };
    let first = list_votes(&mut ledger, &ctx, 10, VoteStatus::Active, None, 1, 20);
    assert_eq!(first, Some(VoteList::LEN));
    assert_eq!(
        *ledger.vote_lists.load(&addr(40)).unwrap(),
        VoteList {
            status: VoteStatus::Active,
            category: None,
            page: 1,
            page_size: 20,
            last_updated: 10
        }
    );
    let second =
        list_votes(&mut ledger, &ctx, 11, VoteStatus::Completed, Some(VoteCategory::Other), 2, 5);
    assert_eq!(second, None);
    assert_eq!(
        *ledger.vote_lists.load(&addr(40)).unwrap(),
        VoteList {
            status: VoteStatus::Completed,
            category: Some(VoteCategory::Other),
            page: 2,
            page_size: 5,
            last_updated: 11
        }
    );
    assert_eq!(ledger.vote_lists.space_of(&addr(40)), Ok(VoteList::LEN));
}

#[test]
fn votes_of_two_creators_do_not_meet() {
    let mut ledger = VotingLedger::new(program());
    let first = create_ctx(&ledger, "poll-1");
    create(&mut ledger, &first, "poll-1", None, 1, 10, &["A", "B"]).unwrap();
    let other = addr(6);
    let vote = ledger.vote_address(&other, "poll-1").unwrap().0;
    let vote_record = ledger.record_address(&vote, &other).unwrap().0;
    assert_ne!(vote, first.vote);
    let second = CreateVote { creator: other, vote, vote_record };
    create(&mut ledger, &second, "poll-1", None, 2, 10, &["X", "Y", "Z"]).unwrap();
    let ctx = cast_ctx(&ledger, vote, addr(2), vec![]);
    cast_vote(&mut ledger, &ctx, 150, 2).unwrap();
    assert_eq!(tally(&ledger, &vote), vec![0, 0, 2]);
    assert_eq!(tally(&ledger, &first.vote), vec![0, 0]);
    let ctx = cast_ctx(&ledger, first.vote, addr(2), vec![]);
    cast_vote(&mut ledger, &ctx, 150, 0).unwrap();
    assert_eq!(tally(&ledger, &first.vote), vec![1, 0]);
}

#[test]
fn vote_found_at_another_address_is_not_handed_out() {
    let (mut ledger, vote) = ledger_with_vote(None, &["A", "B"]);
    assert!(ledger.vote_at(&vote).is_ok());
    assert_eq!(ledger.vote_at(&addr(9)).err(), Some(StoreError::RecordNotFound));
    let (moved, space) = (ledger.votes.load(&vote).unwrap().clone(), Vote::LEN);
    ledger.votes.create_at(addr(9), space, moved).unwrap();
    assert_eq!(ledger.vote_at(&addr(9)).err(), Some(StoreError::AddressMismatch));

    let ctx = cast_ctx(&ledger, addr(9), addr(2), vec![]);
    let outcome = cast_vote(&mut ledger, &ctx, 150, 0);
    assert_eq!(outcome.err(), Some(Failure::Store(StoreError::AddressMismatch)));
    let outcome = finalize_vote(&mut ledger, &FinalizeVote { creator: creator(), vote: addr(9) }, 300);
    assert_eq!(outcome, Err(Failure::Store(StoreError::AddressMismatch)));
    let outcome = get_results(&ledger, &GetResults { vote: addr(9) }, 300);
    assert_eq!(outcome, Err(Failure::Store(StoreError::AddressMismatch)));
    assert_eq!(tally(&ledger, &addr(9)), vec![0, 0]);
    assert!(ledger.votes.load(&addr(9)).unwrap().is_active);
}
