use tale_ledger::address::Address;
use tale_ledger::tale_governance::ballot::Ballot;
use tale_ledger::tale_governance::tally::{sum_of, winning_choice};
use tale_ledger::tale_governance::types::{
    GovernanceError, Vote, VoteCategory, VoteList, VoteRecord, VoteStatus,
};
use tale_ledger::token::TokenHolding;

fn addr(tag: u8) -> Address {
    Address::new([tag; 32])
}

fn texts(items: &[&str]) -> Vec<String> {
    items.iter().map(|s| s.to_string()).collect()
}

fn open_vote(mint: Option<Address>, regular: u64, nft: u64, choices: &[&str]) -> Vote {
    Vote::new(
        addr(1),
        50,
        "poll-1".to_string(),
        "Which tale next?".to_string(),
        "Pick one".to_string(),
        texts(choices),
        100,
        200,
        mint,
        regular,
        nft,
        VoteCategory::Content,
        texts(&["tales", "spring"]),
    )
    .unwrap()
}

fn setup_error(
    id: &str,
    choices: usize,
    start: i64,
    end: i64,
    regular: u64,
    nft: u64,
    tags: usize,
) -> Option<GovernanceError> {
    Vote::new(
        addr(1),
        0,
        id.to_string(),
        String::new(),
        String::new(),
        vec!["c".to_string(); choices],
        start,
        end,
        None,
        regular,
        nft,
        VoteCategory::Other,
        vec!["t".to_string(); tags],
    )
    .err()
}

#[test]
fn new_vote_is_upcoming_with_an_empty_tally() {
    let vote = open_vote(None, 1, 10, &["A", "B", "C"]);
    assert_eq!(vote.creator, addr(1));
    assert_eq!(vote.voting_id, "poll-1");
    assert_eq!(vote.question, "Which tale next?");
    assert_eq!(vote.description, "Pick one");
    assert_eq!(vote.choices, texts(&["A", "B", "C"]));
    assert_eq!(vote.start_time, 100);
    assert_eq!(vote.end_time, 200);
    assert_eq!(vote.nft_mint, None);
    assert_eq!(vote.regular_vote_power, 1);
    assert_eq!(vote.nft_vote_power, 10);
    assert_eq!(vote.total_votes, vec![0, 0, 0]);
    assert!(vote.is_active);
    assert_eq!(vote.created_at, 50);
    assert_eq!(vote.total_participants, 0);
    assert_eq!(vote.regular_voters, 0);
    assert_eq!(vote.nft_voters, 0);
    assert_eq!(vote.category, VoteCategory::Content);
    assert_eq!(vote.tags, texts(&["tales", "spring"]));
    assert_eq!(vote.status, VoteStatus::Upcoming);
    assert_eq!(vote.winning_choice, None);
    assert_eq!(vote.total_vote_power, 0);
}

#[test]
fn new_vote_checks_the_time_range_first() {
    assert_eq!(setup_error("", 0, 5, 5, 0, 0, 9), Some(GovernanceError::InvalidTimeRange));
    assert_eq!(setup_error("id", 2, 6, 5, 1, 1, 0), Some(GovernanceError::InvalidTimeRange));
    assert_eq!(setup_error("id", 2, i64::MIN, i64::MAX, 1, 1, 0), None);
}

#[test]
fn new_vote_takes_two_to_ten_choices() {
    assert_eq!(setup_error("", 1, 1, 2, 0, 0, 9), Some(GovernanceError::InvalidChoices));
    assert_eq!(setup_error("id", 0, 1, 2, 1, 1, 0), Some(GovernanceError::InvalidChoices));
    assert_eq!(setup_error("id", 11, 1, 2, 1, 1, 0), Some(GovernanceError::InvalidChoices));
    assert_eq!(setup_error("id", 2, 1, 2, 1, 1, 0), None);
    assert_eq!(setup_error("id", 10, 1, 2, 1, 1, 0), None);
}

#[test]
fn new_vote_wants_both_powers_above_zero() {
    assert_eq!(setup_error("", 2, 1, 2, 0, 1, 9), Some(GovernanceError::InvalidVotePower));
    assert_eq!(setup_error("id", 2, 1, 2, 1, 0, 0), Some(GovernanceError::InvalidVotePower));
    assert_eq!(setup_error("id", 2, 1, 2, u64::MAX, u64::MAX, 0), None);
}

#[test]
fn new_vote_takes_at_most_five_tags() {
    assert_eq!(setup_error("", 2, 1, 2, 1, 1, 6), Some(GovernanceError::TooManyTags));
    assert_eq!(setup_error("id", 2, 1, 2, 1, 1, 5), None);
}

#[test]
fn new_vote_wants_an_id_of_1_to_64_bytes() {
    assert_eq!(setup_error("", 2, 1, 2, 1, 1, 0), Some(GovernanceError::InvalidVoteId));
    let id64 = "a".repeat(64);
    let id65 = "a".repeat(65);
    assert_eq!(setup_error(&id64, 2, 1, 2, 1, 1, 0), None);
    assert_eq!(setup_error(&id65, 2, 1, 2, 1, 1, 0), Some(GovernanceError::InvalidVoteId));
    // 22 letters of three bytes each: 66 bytes, though only 22 characters
    let wide = "\u{20ac}".repeat(22);
    assert_eq!(setup_error(&wide, 2, 1, 2, 1, 1, 0), Some(GovernanceError::InvalidVoteId));
}

#[test]
fn blank_record_has_not_voted() {
    let record = VoteRecord::new(addr(9), addr(2));
    assert_eq!(record.vote, addr(9));
    assert_eq!(record.voter, addr(2));
    assert!(!record.has_voted);
    assert_eq!(record.vote_power, 0);
    assert_eq!(record.voted_choice, None);
    assert_eq!(record.voted_at, None);
}

#[test]
fn cast_adds_the_weight_and_fills_the_record() {
    let mut vote = open_vote(None, 3, 10, &["A", "B", "C"]);
    let mut record = VoteRecord::new(addr(9), addr(2));
    assert_eq!(vote.cast(&mut record, &addr(2), None, 100, 2), Ok(()));
    assert_eq!(vote.total_votes, vec![0, 0, 3]);
    assert_eq!(vote.total_participants, 1);
    assert_eq!(vote.total_vote_power, 3);
    assert_eq!(vote.regular_voters, 1);
    assert_eq!(vote.nft_voters, 0);
    assert_eq!(vote.status, VoteStatus::Active);
    assert!(vote.is_active);
    assert_eq!(vote.winning_choice, None);
    assert!(record.has_voted);
    assert_eq!(record.vote_power, 3);
    assert_eq!(record.voted_choice, Some(2));
    assert_eq!(record.voted_at, Some(100));
    assert_eq!(record.vote, addr(9));
    assert_eq!(record.voter, addr(2));
}

#[test]
fn cast_before_start_fails_with_vote_not_started() {
    let mut vote = open_vote(None, 1, 10, &["A", "B"]);
    let before = vote.clone();
    let mut record = VoteRecord::new(addr(9), addr(2));
    assert_eq!(
        vote.cast(&mut record, &addr(2), None, 99, 0),
        Err(GovernanceError::VoteNotStarted)
    );
    assert_eq!(vote, before);
    assert_eq!(record, VoteRecord::new(addr(9), addr(2)));
    assert_eq!(vote.status, VoteStatus::Upcoming);
}

#[test]
fn cast_after_end_fails_with_vote_ended() {
    let mut vote = open_vote(None, 1, 10, &["A", "B"]);
    let before = vote.clone();
    let mut record = VoteRecord::new(addr(9), addr(2));
    assert_eq!(vote.cast(&mut record, &addr(2), None, 201, 0), Err(GovernanceError::VoteEnded));
    assert_eq!(vote, before);
    assert!(!record.has_voted);
}

#[test]
fn cast_at_both_ends_of_the_window_is_accepted() {
    let mut vote = open_vote(None, 1, 10, &["A", "B"]);
    let mut first = VoteRecord::new(addr(9), addr(2));
    let mut second = VoteRecord::new(addr(9), addr(3));
    assert_eq!(vote.cast(&mut first, &addr(2), None, 100, 0), Ok(()));
    assert_eq!(vote.cast(&mut second, &addr(3), None, 200, 0), Ok(()));
    assert_eq!(vote.total_votes, vec![2, 0]);
}

#[test]
fn cast_for_a_choice_out_of_range_fails_with_invalid_choice() {
    let mut vote = open_vote(None, 1, 10, &["A", "B"]);
    let before = vote.clone();
    let mut record = VoteRecord::new(addr(9), addr(2));
    assert_eq!(
        vote.cast(&mut record, &addr(2), None, 150, 2),
        Err(GovernanceError::InvalidChoice)
    );
    assert_eq!(
        vote.cast(&mut record, &addr(2), None, 150, 255),
        Err(GovernanceError::InvalidChoice)
    );
    assert_eq!(vote, before);
}

#[test]
fn second_cast_fails_with_already_voted_and_changes_nothing() {
    let mut vote = open_vote(None, 4, 10, &["A", "B"]);
    let mut record = VoteRecord::new(addr(9), addr(2));
    assert_eq!(vote.cast(&mut record, &addr(2), None, 150, 1), Ok(()));
    let vote_after = vote.clone();
    let record_after = record;
    for (now, choice) in [(150, 1u8), (151, 0u8), (200, 1u8)] {
        assert_eq!(
            vote.cast(&mut record, &addr(2), None, now, choice),
            Err(GovernanceError::AlreadyVoted)
        );
        assert_eq!(vote, vote_after);
        assert_eq!(record, record_after);
    }
    assert_eq!(vote.total_votes, vec![0, 4]);
    assert_eq!(vote.total_participants, 1);
    assert_eq!(vote.total_vote_power, 4);
}

#[test]
fn second_cast_outside_the_window_names_the_window_not_the_receipt() {
    let mut vote = open_vote(None, 4, 10, &["A", "B"]);
    let mut record = VoteRecord::new(addr(9), addr(2));
    assert_eq!(vote.cast(&mut record, &addr(2), None, 150, 1), Ok(()));
    let vote_after = vote.clone();
    assert_eq!(vote.cast(&mut record, &addr(2), None, 201, 1), Err(GovernanceError::VoteEnded));
    assert_eq!(
        vote.cast(&mut record, &addr(2), None, 150, 7),
        Err(GovernanceError::InvalidChoice)
    );
    assert_eq!(vote, vote_after);
}

#[test]
fn weighted_casting_scenario() {
    let mint = addr(77);
    let mut vote = open_vote(Some(mint), 1, 10, &["A", "B", "C"]);
    let poor = addr(2);
    let rich = addr(3);
    let mut poor_record = VoteRecord::new(addr(9), poor);
    let mut rich_record = VoteRecord::new(addr(9), rich);

    let none_held = TokenHolding { mint, owner: poor, amount: 0 };
    assert_eq!(vote.cast(&mut poor_record, &poor, Some(none_held), 120, 1), Ok(()));
    assert_eq!(vote.total_votes, vec![0, 1, 0]);
    assert_eq!(vote.regular_voters, 1);
    assert_eq!(vote.nft_voters, 0);
    assert_eq!(poor_record.vote_power, 1);

    let three_held = TokenHolding { mint, owner: rich, amount: 3 };
    assert_eq!(vote.cast(&mut rich_record, &rich, Some(three_held), 130, 0), Ok(()));
    assert_eq!(vote.total_votes, vec![10, 1, 0]);
    assert_eq!(vote.regular_voters, 1);
    assert_eq!(vote.nft_voters, 1);
    assert_eq!(rich_record.vote_power, 10);
    assert_eq!(vote.total_participants, 2);
    assert_eq!(vote.total_vote_power, 11);
}

#[test]
fn weigh_follows_the_gate() {
    let mint = addr(77);
    let voter = addr(2);
    let open = open_vote(None, 2, 9, &["A", "B"]);
    let gated = open_vote(Some(mint), 2, 9, &["A", "B"]);
    let held = TokenHolding { mint, owner: voter, amount: 1 };
    let empty = TokenHolding { mint, owner: voter, amount: 0 };
    let other_mint = TokenHolding { mint: addr(78), owner: voter, amount: 1 };
    let other_owner = TokenHolding { mint, owner: addr(3), amount: 1 };
    let neither = TokenHolding { mint: addr(78), owner: addr(3), amount: 1 };

    assert_eq!(open.weigh(None, &voter), Ok(Ballot { weight: 2, by_holder: false }));
    assert_eq!(open.weigh(Some(held), &voter), Ok(Ballot { weight: 2, by_holder: false }));
    assert_eq!(open.weigh(Some(neither), &voter), Ok(Ballot { weight: 2, by_holder: false }));
    assert_eq!(gated.weigh(Some(held), &voter), Ok(Ballot { weight: 9, by_holder: true }));
    assert_eq!(gated.weigh(Some(empty), &voter), Ok(Ballot { weight: 2, by_holder: false }));
    assert_eq!(gated.weigh(None, &voter), Err(GovernanceError::InvalidNFT));
    assert_eq!(gated.weigh(Some(other_mint), &voter), Err(GovernanceError::InvalidNFT));
    assert_eq!(gated.weigh(Some(other_owner), &voter), Err(GovernanceError::NotNFTOwner));
    assert_eq!(gated.weigh(Some(neither), &voter), Err(GovernanceError::InvalidNFT));
}

#[test]
fn gated_cast_with_a_wrong_token_account_changes_nothing() {
    let mint = addr(77);
    let voter = addr(2);
    let mut vote = open_vote(Some(mint), 1, 10, &["A", "B"]);
    let before = vote.clone();
    let mut record = VoteRecord::new(addr(9), voter);
    let other_owner = TokenHolding { mint, owner: addr(3), amount: 1 };
    assert_eq!(
        vote.cast(&mut record, &voter, Some(other_owner), 150, 0),
        Err(GovernanceError::NotNFTOwner)
    );
    assert_eq!(vote.cast(&mut record, &voter, None, 150, 0), Err(GovernanceError::InvalidNFT));
    assert_eq!(vote, before);
    assert!(!record.has_voted);
}

#[test]
fn cast_that_would_overflow_fails_with_arithmetic_error() {
    let mut vote = open_vote(None, u64::MAX, 1, &["A", "B"]);
    let mut first = VoteRecord::new(addr(9), addr(2));
    let mut second = VoteRecord::new(addr(9), addr(3));
    assert_eq!(vote.cast(&mut first, &addr(2), None, 150, 0), Ok(()));
    assert_eq!(vote.total_votes, vec![u64::MAX, 0]);
    let before = vote.clone();
    assert_eq!(
        vote.cast(&mut second, &addr(3), None, 150, 1),
        Err(GovernanceError::ArithmeticError)
    );
    assert_eq!(vote, before);
    assert!(!second.has_voted);
}

#[test]
fn finalize_before_end_fails_with_vote_still_active() {
    let mut vote = open_vote(None, 1, 10, &["A", "B"]);
    let before = vote.clone();
    assert_eq!(vote.finalize(&addr(1), 200), Err(GovernanceError::VoteStillActive));
    assert_eq!(vote.finalize(&addr(1), 0), Err(GovernanceError::VoteStillActive));
    assert_eq!(vote.finalize(&addr(5), 200), Err(GovernanceError::VoteStillActive));
    assert_eq!(vote, before);
}

#[test]
fn finalize_by_a_non_creator_fails_with_not_creator() {
    let mut vote = open_vote(None, 1, 10, &["A", "B"]);
    let before = vote.clone();
    assert_eq!(vote.finalize(&addr(5), 201), Err(GovernanceError::NotCreator));
    assert_eq!(vote, before);
}

#[test]
fn finalize_twice_fails_with_vote_not_active() {
    let mut vote = open_vote(None, 1, 10, &["A", "B"]);
    assert_eq!(vote.finalize(&addr(1), 201), Ok(()));
    let closed = vote.clone();
    assert_eq!(vote.finalize(&addr(1), 202), Err(GovernanceError::VoteNotActive));
    assert_eq!(vote.finalize(&addr(5), 100), Err(GovernanceError::VoteNotActive));
    assert_eq!(vote, closed);
}

#[test]
fn cast_on_a_finalized_vote_fails_with_vote_not_active() {
    let mut vote = open_vote(None, 1, 10, &["A", "B"]);
    assert_eq!(vote.finalize(&addr(1), 201), Ok(()));
    let closed = vote.clone();
    let mut record = VoteRecord::new(addr(9), addr(2));
    assert_eq!(
        vote.cast(&mut record, &addr(2), None, 150, 0),
        Err(GovernanceError::VoteNotActive)
    );
    assert_eq!(vote.cast(&mut record, &addr(2), None, 50, 0), Err(GovernanceError::VoteNotActive));
    assert_eq!(vote, closed);
}

#[test]
fn winner_tie_break_favors_the_lower_index() {
    assert_eq!(winning_choice(&vec![5, 5, 2]), Some(0));
    let mut vote = open_vote(None, 1, 5, &["A", "B", "C"]);
    let plan: [(u8, u8); 12] = [
        (10, 1),
        (11, 0),
        (12, 2),
        (13, 1),
        (14, 0),
        (15, 1),
        (16, 2),
        (17, 0),
        (18, 1),
        (19, 0),
        (20, 1),
        (21, 0),
    ];
    for (voter, choice) in plan {
        let mut record = VoteRecord::new(addr(9), addr(voter));
        assert_eq!(vote.cast(&mut record, &addr(voter), None, 150, choice), Ok(()));
    }
    assert_eq!(vote.total_votes, vec![5, 5, 2]);
    assert_eq!(vote.finalize(&addr(1), 201), Ok(()));
    assert_eq!(vote.winning_choice, Some(0));
    assert_eq!(vote.status, VoteStatus::Completed);
    assert!(!vote.is_active);
    assert_eq!(vote.total_votes, vec![5, 5, 2]);
    assert_eq!(vote.total_vote_power, 12);
    assert_eq!(vote.total_participants, 12);
}

#[test]
fn all_zero_tally_has_no_winner() {
    assert_eq!(winning_choice(&vec![0, 0]), None);
    let mut vote = open_vote(None, 1, 10, &["A", "B"]);
    assert_eq!(vote.finalize(&addr(1), 201), Ok(()));
    assert_eq!(vote.total_votes, vec![0, 0]);
    assert_eq!(vote.winning_choice, None);
    assert_eq!(vote.status, VoteStatus::Completed);
    assert!(!vote.is_active);
}

#[test]
fn winning_choice_picks_the_first_of_the_largest() {
    assert_eq!(winning_choice(&vec![]), None);
    assert_eq!(winning_choice(&vec![0]), None);
    assert_eq!(winning_choice(&vec![1]), Some(0));
    assert_eq!(winning_choice(&vec![0, 0, 1]), Some(2));
    assert_eq!(winning_choice(&vec![1, 2, 3, 2, 1]), Some(2));
    assert_eq!(winning_choice(&vec![3, 1, 3]), Some(0));
    assert_eq!(winning_choice(&vec![0, 7, 7, 9, 9]), Some(3));
    assert_eq!(winning_choice(&vec![u64::MAX, u64::MAX]), Some(0));
    assert_eq!(winning_choice(&vec![2, 0, 0, 0, 0, 0, 0, 0, 0, 3]), Some(9));
}

#[test]
fn results_open_once_closed_or_after_the_window() {
    let mut vote = open_vote(None, 2, 10, &["A", "B"]);
    let mut record = VoteRecord::new(addr(9), addr(2));
    assert_eq!(vote.cast(&mut record, &addr(2), None, 150, 1), Ok(()));
    assert_eq!(vote.results(150), Err(GovernanceError::VoteStillActive));
    assert_eq!(vote.results(200), Err(GovernanceError::VoteStillActive));
    assert_eq!(vote.results(201), Ok(vec![0, 2]));
    assert_eq!(vote.finalize(&addr(1), 201), Ok(()));
    assert_eq!(vote.results(0), Ok(vec![0, 2]));
}

#[test]
fn tally_is_conserved_through_a_vote() {
    let mint = addr(77);
    let mut vote = open_vote(Some(mint), 2, 7, &["A", "B", "C", "D"]);
    let check = |vote: &Vote| {
        assert_eq!(vote.total_votes.iter().sum::<u64>(), vote.total_vote_power);
        assert_eq!(vote.total_participants, vote.regular_voters + vote.nft_voters);
        assert_eq!(vote.total_votes.len(), vote.choices.len());
    };
    check(&vote);
    for i in 0..20u8 {
        let voter = addr(100 + i);
        let holding = TokenHolding { mint, owner: voter, amount: (i % 3) as u64 };
        let mut record = VoteRecord::new(addr(9), voter);
        let outcome = vote.cast(&mut record, &voter, Some(holding), 100 + i as i64 * 6, i % 5);
        assert_eq!(outcome.is_ok(), i % 5 < 4 && 100 + i as i64 * 6 <= 200);
        check(&vote);
    }
    assert_eq!(vote.finalize(&addr(1), 300), Ok(()));
    check(&vote);
}

#[test]
fn vote_list_records_the_cursor() {
    let mut list = VoteList {
        status: VoteStatus::Upcoming,
        category: None,
        page: 0,
        page_size: 0,
        last_updated: 0,
    };
    list.record(VoteStatus::Active, Some(VoteCategory::Feature), 3, 25, 777);
    assert_eq!(
        list,
        VoteList {
            status: VoteStatus::Active,
            category: Some(VoteCategory::Feature),
            page: 3,
            page_size: 25,
            last_updated: 777,
        }
    );
}

#[test]
fn space_constants_are_the_sums_of_their_fields() {
    assert_eq!(Vote::LEN, 1506);
    assert_eq!(VoteRecord::LEN, 92);
    assert_eq!(VoteList::LEN, 21);
}

#[test]
fn governance_errors_have_their_messages() {
    assert_eq!(GovernanceError::InvalidTimeRange.message(), "Invalid time range");
    assert_eq!(GovernanceError::InvalidChoices.message(), "Invalid number of choices");
    assert_eq!(GovernanceError::InvalidVotePower.message(), "Invalid vote power");
    assert_eq!(GovernanceError::VoteNotActive.message(), "Vote is not active");
    assert_eq!(GovernanceError::VoteNotStarted.message(), "Vote has not started yet");
    assert_eq!(GovernanceError::VoteEnded.message(), "Vote has ended");
    assert_eq!(GovernanceError::InvalidChoice.message(), "Invalid choice index");
    assert_eq!(GovernanceError::InvalidNFT.message(), "Invalid NFT");
    assert_eq!(GovernanceError::NotNFTOwner.message(), "Not the NFT owner");
    assert_eq!(GovernanceError::VoteStillActive.message(), "Vote is still active");
    assert_eq!(GovernanceError::AlreadyVoted.message(), "Already voted");
    assert_eq!(GovernanceError::NotCreator.message(), "Not the creator");
    assert_eq!(GovernanceError::TooManyTags.message(), "Too many tags");
    assert_eq!(GovernanceError::InvalidVoteId.message(), "Invalid vote ID");
    assert_eq!(GovernanceError::ArithmeticError.message(), "Arithmetic overflow");
}

#[test]
fn sum_of_adds_the_slots_or_gives_up() {
    assert_eq!(sum_of(&vec![]), Some(0));
    assert_eq!(sum_of(&vec![5, 5, 2]), Some(12));
    assert_eq!(sum_of(&vec![u64::MAX, 0, 0]), Some(u64::MAX));
    assert_eq!(sum_of(&vec![u64::MAX - 1, 1]), Some(u64::MAX));
    assert_eq!(sum_of(&vec![u64::MAX, 1]), None);
    assert_eq!(sum_of(&vec![1, u64::MAX, 0]), None);
}

#[test]
fn well_formed_votes_are_told_from_others() {
    let mut vote = open_vote(None, 2, 10, &["A", "B", "C"]);
    assert!(vote.is_well_formed());
    let mut record = VoteRecord::new(addr(9), addr(2));
    vote.cast(&mut record, &addr(2), None, 150, 1).unwrap();
    assert!(vote.is_well_formed());
    vote.finalize(&addr(1), 201).unwrap();
    assert!(vote.is_well_formed());

    let good = vote.clone();
    let broken = |change: &dyn Fn(&mut Vote)| {
        let mut vote = good.clone();
        change(&mut vote);
        vote.is_well_formed()
    };
    assert!(!broken(&|v| v.total_votes[0] = 1));
    assert!(!broken(&|v| v.total_vote_power = 3));
    assert!(!broken(&|v| v.total_votes.push(0)));
    assert!(!broken(&|v| v.choices.truncate(1)));
    assert!(!broken(&|v| v.regular_voters = 0));
    assert!(!broken(&|v| v.nft_voters = u64::MAX));
    assert!(!broken(&|v| v.total_participants = 3));
    assert!(!broken(&|v| v.winning_choice = None));
    assert!(!broken(&|v| v.winning_choice = Some(0)));
    assert!(!broken(&|v| v.is_active = true));
    assert!(!broken(&|v| v.status = VoteStatus::Active));
    assert!(!broken(&|v| v.end_time = v.start_time));
    assert!(!broken(&|v| v.regular_vote_power = 0));
    assert!(!broken(&|v| v.nft_vote_power = 0));
    assert!(!broken(&|v| v.voting_id = String::new()));
    assert!(!broken(&|v| v.voting_id = "a".repeat(65)));
    assert!(!broken(&|v| v.tags = vec![String::new(); 6]));
    assert!(broken(&|v| v.question = "x".repeat(1000)));
    assert!(broken(&|v| v.created_at = -1));

    let mut upcoming = open_vote(None, 2, 10, &["A", "B"]);
    upcoming.total_participants = 1;
    upcoming.regular_voters = 1;
    upcoming.total_vote_power = 2;
    upcoming.total_votes = vec![2, 0];
    assert!(!upcoming.is_well_formed());
    upcoming.status = VoteStatus::Active;
    assert!(upcoming.is_well_formed());
}

#[test]
fn presented_record_is_the_stored_one_once_it_has_voted() {
    let mut cast = VoteRecord::new(addr(9), addr(2));
    cast.has_voted = true;
    cast.vote_power = 4;
    cast.voted_choice = Some(1);
    cast.voted_at = Some(150);
    assert_eq!(VoteRecord::presented(cast, addr(9), addr(2)), cast);
    assert_eq!(VoteRecord::presented(cast, addr(7), addr(8)), cast);
    let unwritten = VoteRecord::new(Address::default(), Address::default());
    assert_eq!(
        VoteRecord::presented(unwritten, addr(9), addr(2)),
        VoteRecord::new(addr(9), addr(2))
    );
    let placeholder = VoteRecord::new(addr(9), addr(1));
    assert_eq!(VoteRecord::presented(placeholder, addr(9), addr(1)), placeholder);
}

#[test]
fn read_holding_looks_at_the_account_of_a_gated_vote_only() {
    let mint = addr(77);
    let mut data = Vec::new();
    data.extend_from_slice(&mint.to_bytes());
    data.extend_from_slice(&addr(2).to_bytes());
    data.extend_from_slice(&7u64.to_le_bytes());
    data.extend_from_slice(&[0u8; 36]);
    data.push(1);
    data.extend_from_slice(&[0u8; 56]);
    assert_eq!(data.len(), 165);
    let gated = open_vote(Some(mint), 1, 10, &["A", "B"]);
    let open = open_vote(None, 1, 10, &["A", "B"]);
    let holding = gated.read_holding(&data).unwrap();
    assert_eq!(holding.mint, mint);
    assert_eq!(holding.owner, addr(2));
    assert_eq!(holding.amount, 7);
    assert!(gated.read_holding(&data[..164]).is_none());
    assert!(open.read_holding(&data).is_none());
}
