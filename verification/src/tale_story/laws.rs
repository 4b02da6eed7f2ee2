//! What holds of every well-formed ledger of the story program.

use super::ledger::{episode_access_refusal, tale_access_refusal, StoryView};
use super::records::AppError;
use crate::store::Failure;
use vstd::prelude::*;

verus! {

/// One live tale per id: two tales with the same id are one tale at one
/// address.
pub proof fn one_tale_per_id(ledger: StoryView, a: Seq<u8>, b: Seq<u8>)
    requires
        ledger.placed(),
        ledger.tales.contains_key(a),
        ledger.tales.contains_key(b),
        ledger.tales[a].record.tale_id == ledger.tales[b].record.tale_id,
    ensures
        a == b,
{
}

/// One live episode per tale and seed.
pub proof fn one_episode_per_tale_and_seed(ledger: StoryView, a: Seq<u8>, b: Seq<u8>)
    requires
        ledger.placed(),
        ledger.episodes.contains_key(a),
        ledger.episodes.contains_key(b),
        ledger.episodes[a].record.parent_tale == ledger.episodes[b].record.parent_tale,
        ledger.episodes[a].record.episode_id_seed == ledger.episodes[b].record.episode_id_seed,
    ensures
        a == b,
{
}

/// A tale is its author's: access to a tale of a ledger whose records are placed is
/// granted to the author that the tale stores, and refused to every other
/// signer as unauthorized.
pub proof fn tale_access_is_the_authors(ledger: StoryView, at: Seq<u8>, signer: Seq<u8>)
    requires
        ledger.placed(),
        ledger.tales.contains_key(at),
    ensures
        tale_access_refusal(ledger, at, signer) == (if signer == ledger.tales[at].record.author {
            None
        } else {
            Some(Failure::<AppError>::Rule(AppError::Unauthorized))
        }),
{
}

/// An episode is its author's: access to an episode of a ledger whose records are placed
/// is granted to the author that the episode itself stores, and refused to
/// every other signer as unauthorized.
pub proof fn episode_access_is_the_authors(ledger: StoryView, at: Seq<u8>, signer: Seq<u8>)
    requires
        ledger.placed(),
        ledger.episodes.contains_key(at),
    ensures
        episode_access_refusal(ledger, at, signer) == (if signer
            == ledger.episodes[at].record.author {
            None
        } else {
            Some(Failure::<AppError>::Rule(AppError::Unauthorized))
        }),
{
}

/// Who controls an episode is settled by the episode alone: whatever
/// becomes of the tales, access to the episodes stays as it is.
pub proof fn episode_access_ignores_the_tales(
    before: StoryView,
    after: StoryView,
    at: Seq<u8>,
    signer: Seq<u8>,
)
    requires
        before.program == after.program,
        before.episodes == after.episodes,
    ensures
        episode_access_refusal(before, at, signer) == episode_access_refusal(after, at, signer),
{
}

/// No record outgrows the space taken for it: every record of a well-formed
/// ledger, written out, fits the space set aside at its creation.
pub proof fn stored_records_fit_their_space(ledger: StoryView, at: Seq<u8>)
    requires
        ledger.wf(),
    ensures
        ledger.tales.contains_key(at) ==> ledger.tales[at].record.encoded_len()
            <= ledger.tales[at].space,
        ledger.episodes.contains_key(at) ==> ledger.episodes[at].record.encoded_len()
            <= ledger.episodes[at].space,
{
}

} // verus!
