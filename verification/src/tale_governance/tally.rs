//! The tally of a vote: its sum and its winner.

use vstd::prelude::*;

verus! {

/// The sum of all slots of a tally.
pub open spec fn tally_sum(tally: Seq<u64>) -> nat
    decreases tally.len(),
{
    if tally.len() == 0 {
        0
    } else {
        tally_sum(tally.drop_last()) + tally.last() as nat
    }
}

/// Slot `w` wins the tally: it holds at least one vote, more than every slot
/// before it and no fewer than every slot after it. Of equal counts the
/// earliest slot wins.
pub open spec fn leads(tally: Seq<u64>, w: int) -> bool {
    &&& 0 <= w < tally.len()
    &&& tally[w] > 0
    &&& forall|j: int| 0 <= j < w ==> tally[j] < tally[w]
    &&& forall|j: int| w < j < tally.len() ==> tally[j] <= tally[w]
}

/// The winning slot of a tally, or `None` where no slot holds a vote.
pub open spec fn winner(tally: Seq<u64>) -> Option<u8> {
    if exists|w: int| leads(tally, w) {
        Some((choose|w: int| leads(tally, w)) as u8)
    } else {
        None
    }
}

/// At most one slot wins a tally.
pub proof fn winner_is_unique(tally: Seq<u64>, a: int, b: int)
    requires
        leads(tally, a),
        leads(tally, b),
    ensures
        a == b,
{
    if a < b {
        assert(tally[a] < tally[b]);
        assert(tally[b] <= tally[a]);
    } else if b < a {
        assert(tally[b] < tally[a]);
        assert(tally[a] <= tally[b]);
    }
}

/// A tally without votes has no winner, and only such a tally has none.
pub proof fn no_winner_means_no_votes(tally: Seq<u64>)
    ensures
        winner(tally) is None <==> forall|j: int| 0 <= j < tally.len() ==> tally[j] == 0,
    decreases tally.len(),
{
    if forall|j: int| 0 <= j < tally.len() ==> tally[j] == 0 {
        assert forall|w: int| !leads(tally, w) by {}
    } else {
        let w = first_maximum(tally);
        lemma_first_maximum(tally);
        assert(leads(tally, w));
    }
}

/// The earliest slot that holds the largest count.
spec fn first_maximum(tally: Seq<u64>) -> int
    decreases tally.len(),
{
    if tally.len() <= 1 {
        0
    } else {
        let before = first_maximum(tally.drop_last());
        if tally.last() > tally[before] {
            tally.len() - 1
        } else {
            before
        }
    }
}

proof fn lemma_first_maximum(tally: Seq<u64>)
    requires
        tally.len() > 0,
    ensures
        0 <= first_maximum(tally) < tally.len(),
        forall|j: int|
            0 <= j < first_maximum(tally) ==> #[trigger] tally[j] < tally[first_maximum(tally)],
        forall|j: int|
            first_maximum(tally) < j < tally.len() ==> #[trigger] tally[j] <= tally[first_maximum(
                tally,
            )],
    decreases tally.len(),
{
    if tally.len() > 1 {
        lemma_first_maximum(tally.drop_last());
        let before = first_maximum(tally.drop_last());
        assert forall|j: int| 0 <= j < tally.len() - 1 implies tally.drop_last()[j] == tally[j] by {}
    }
}

/// Adding to one slot adds as much to the sum.
pub proof fn lemma_sum_after_update(tally: Seq<u64>, at: int, count: u64)
    requires
        0 <= at < tally.len(),
    ensures
        tally_sum(tally.update(at, count)) == tally_sum(tally) - tally[at] + count,
    decreases tally.len(),
{
    let after = tally.update(at, count);
    if at == tally.len() - 1 {
        assert(after.drop_last() =~= tally.drop_last());
    } else {
        lemma_sum_after_update(tally.drop_last(), at, count);
        assert(after.drop_last() =~= tally.drop_last().update(at, count));
    }
}

/// No slot holds more than the sum.
pub proof fn lemma_slot_within_sum(tally: Seq<u64>, at: int)
    requires
        0 <= at < tally.len(),
    ensures
        tally[at] <= tally_sum(tally),
    decreases tally.len(),
{
    if at < tally.len() - 1 {
        lemma_slot_within_sum(tally.drop_last(), at);
    }
}

/// A tally of zeros sums to zero.
pub proof fn lemma_sum_of_zeros(tally: Seq<u64>)
    requires
        forall|j: int| 0 <= j < tally.len() ==> tally[j] == 0,
    ensures
        tally_sum(tally) == 0,
    decreases tally.len(),
{
    if tally.len() > 0 {
        lemma_sum_of_zeros(tally.drop_last());
    }
}

/// The sum of the first slots of a tally is no more than the sum of all.
pub proof fn lemma_sum_of_prefix(tally: Seq<u64>, upto: int)
    requires
        0 <= upto <= tally.len(),
    ensures
        tally_sum(tally.subrange(0, upto)) <= tally_sum(tally),
    decreases tally.len() - upto,
{
    if upto == tally.len() {
        assert(tally.subrange(0, upto) =~= tally);
    } else {
        lemma_sum_of_prefix(tally, upto + 1);
        assert(tally.subrange(0, upto + 1).drop_last() =~= tally.subrange(0, upto));
    }
}

/// The sum of a tally, or `None` where it is no 64-bit number.
pub fn sum_of(tally: &Vec<u64>) -> (r: Option<u64>)
    ensures
        match r {
            Some(sum) => sum == tally_sum(tally@),
            None => tally_sum(tally@) > u64::MAX,
        },
{
    let mut sum: u64 = 0;
    let mut i: usize = 0;
    while i < tally.len()
        invariant
            i <= tally@.len(),
            sum == tally_sum(tally@.subrange(0, i as int)),
        decreases tally@.len() - i,
    {
        proof {
            assert(tally@.subrange(0, i + 1).drop_last() =~= tally@.subrange(0, i as int));
            lemma_sum_of_prefix(tally@, i + 1);
        }
        sum = match sum.checked_add(tally[i]) {
            Some(next) => next,
            None => {
                return None;
            },
        };
        i += 1;
    }
    assert(tally@.subrange(0, i as int) =~= tally@);
    Some(sum)
}

/// Scans the tally in the order of the choices and picks the first slot
/// whose count is above every count seen before it, starting from zero.
pub fn winning_choice(tally: &Vec<u64>) -> (r: Option<u8>)
    requires
        tally@.len() <= 256,
    ensures
        r == winner(tally@),
        match r {
            Some(w) => leads(tally@, w as int),
            None => forall|j: int| 0 <= j < tally@.len() ==> tally@[j] == 0,
        },
{
    let mut best: u64 = 0;
    let mut found: Option<u8> = None;
    let mut i: usize = 0;
    while i < tally.len()
        invariant
            i <= tally@.len() <= 256,
            match found {
                Some(w) => {
                    &&& w < i
                    &&& tally@[w as int] == best
                    &&& best > 0
                    &&& forall|j: int| 0 <= j < w ==> tally@[j] < best
                    &&& forall|j: int| w < j < i ==> tally@[j] <= best
                },
                None => best == 0 && forall|j: int| 0 <= j < i ==> tally@[j] == 0,
            },
        decreases tally@.len() - i,
    {
        if tally[i] > best {
            best = tally[i];
            found = Some(i as u8);
        }
        i += 1;
    }
    proof {
        match found {
            Some(w) => {
                assert(leads(tally@, w as int));
                let c = choose|c: int| leads(tally@, c);
                winner_is_unique(tally@, w as int, c);
            },
            None => {
                no_winner_means_no_votes(tally@);
            },
        }
    }
    found
}

} // verus!
