//! What holds of every well-formed ledger of the token program.

use super::ledger::{listed_nft_access_refusal, mint_activity_access_refusal, TokenView};
use vstd::prelude::*;

verus! {

/// One live listing per creator and token.
pub proof fn one_listing_per_creator_and_token(ledger: TokenView, a: Seq<u8>, b: Seq<u8>)
    requires
        ledger.placed(),
        ledger.listed_nfts.contains_key(a),
        ledger.listed_nfts.contains_key(b),
        ledger.listed_nfts[a].record.creator_wallet == ledger.listed_nfts[b].record.creator_wallet,
        ledger.listed_nfts[a].record.nft_mint_address
            == ledger.listed_nfts[b].record.nft_mint_address,
    ensures
        a == b,
{
}

/// One live log per minter and candy machine.
pub proof fn one_log_per_minter_and_candy_machine(ledger: TokenView, a: Seq<u8>, b: Seq<u8>)
    requires
        ledger.placed(),
        ledger.mint_activities.contains_key(a),
        ledger.mint_activities.contains_key(b),
        ledger.mint_activities[a].record.user_wallet
            == ledger.mint_activities[b].record.user_wallet,
        ledger.mint_activities[a].record.candy_machine_id
            == ledger.mint_activities[b].record.candy_machine_id,
    ensures
        a == b,
{
}

/// A listing is its creator's: access to a listing of a ledger whose records are placed
/// is granted to the creator that the listing stores, and refused to every
/// other signer.
pub proof fn listing_access_is_the_creators(ledger: TokenView, at: Seq<u8>, signer: Seq<u8>)
    requires
        ledger.placed(),
        ledger.listed_nfts.contains_key(at),
    ensures
        signer == ledger.listed_nfts[at].record.creator_wallet ==> listed_nft_access_refusal(
            ledger,
            at,
            signer,
        ) is None,
        signer != ledger.listed_nfts[at].record.creator_wallet ==> listed_nft_access_refusal(
            ledger,
            at,
            signer,
        ) is Some,
{
}

/// The log of a mint is found by its minter where the minted token is the
/// candy machine it was logged under, and by no other signer.
pub proof fn mint_activity_access_is_the_minters(ledger: TokenView, at: Seq<u8>, signer: Seq<u8>)
    requires
        ledger.placed(),
        ledger.mint_activities.contains_key(at),
    ensures
        signer == ledger.mint_activities[at].record.user_wallet
            && ledger.mint_activities[at].record.nft_mint_address
            == ledger.mint_activities[at].record.candy_machine_id ==> mint_activity_access_refusal(
            ledger,
            at,
            signer,
        ) is None,
        signer != ledger.mint_activities[at].record.user_wallet ==> mint_activity_access_refusal(
            ledger,
            at,
            signer,
        ) is Some,
{
}

/// No record outgrows the space taken for it: every record of a well-formed
/// ledger, written out, fits the space set aside at its creation.
pub proof fn stored_records_fit_their_space(ledger: TokenView, at: Seq<u8>)
    requires
        ledger.wf(),
    ensures
        ledger.mint_activities.contains_key(at) ==> ledger.mint_activities[at].record.encoded_len()
            <= ledger.mint_activities[at].space,
        ledger.listed_nfts.contains_key(at) ==> ledger.listed_nfts[at].record.encoded_len()
            <= ledger.listed_nfts[at].space,
{
}

} // verus!
