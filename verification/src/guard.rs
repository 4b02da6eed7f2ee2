//! The checks made on every access to a record that is changed or closed:
//! that the address presented is the record's own, and that the signer is
//! the authority stored on the record.

use crate::address::{is_address_of, rederived, seeds_view, Address};
use vstd::prelude::*;

verus! {

/// The signer is not the record's authority.
#[derive(Clone, Copy, Debug, PartialEq, Eq, Structural)]
pub struct Unauthorized;

/// Why access to a record is refused.
#[derive(Clone, Copy, Debug, PartialEq, Eq, Structural)]
pub enum AccessError {
    /// The address presented is not the one that the record's own seeds and
    /// nonce derive.
    AddressMismatch,
    /// The signer is not the record's authority.
    Unauthorized,
}

/// Whether `signer` may change or close a record whose authority is
/// `authority`.
pub open spec fn is_authorized(authority: Seq<u8>, signer: Seq<u8>) -> bool {
    authority == signer
}

/// Admits the signer of an operation if it is the authority that the record
/// itself stores. A record made under a parent keeps its own copy of the
/// authority, and that copy is what is handed in here.
pub fn authorize(authority: &Address, signer: &Address) -> (r: Result<(), Unauthorized>)
    ensures
        r is Ok <==> is_authorized(authority@, signer@),
{
    if *authority == *signer {
        Ok(())
    } else {
        Err(Unauthorized)
    }
}

/// Why access to a record is refused, or `None` where it is granted: first
/// the address is derived again from the seeds and the nonce that the record
/// holds, then the signer is held against the record's authority.
pub open spec fn access_refusal(
    claimed: Seq<u8>,
    program: Seq<u8>,
    domain_tag: Seq<char>,
    seeds: Seq<Seq<u8>>,
    nonce: u8,
    authority: Seq<u8>,
    signer: Seq<u8>,
) -> Option<AccessError> {
    if rederived(program, domain_tag, seeds, nonce) != Some(claimed) {
        Some(AccessError::AddressMismatch)
    } else if !is_authorized(authority, signer) {
        Some(AccessError::Unauthorized)
    } else {
        None
    }
}

/// Checks an access to the record at `claimed`, given the seeds, the nonce
/// and the authority that the record itself holds.
pub fn check_access(
    claimed: &Address,
    program: &Address,
    domain_tag: &str,
    seeds: Vec<Vec<u8>>,
    nonce: u8,
    authority: &Address,
    signer: &Address,
) -> (r: Result<(), AccessError>)
    ensures
        match r {
            Ok(()) => access_refusal(
                claimed@,
                program@,
                domain_tag@,
                seeds_view(seeds@),
                nonce,
                authority@,
                signer@,
            ) is None,
            Err(e) => access_refusal(
                claimed@,
                program@,
                domain_tag@,
                seeds_view(seeds@),
                nonce,
                authority@,
                signer@,
            ) == Some(e),
        },
{
    if !is_address_of(claimed, program, domain_tag, seeds, nonce) {
        return Err(AccessError::AddressMismatch);
    }
    match authorize(authority, signer) {
        Ok(()) => Ok(()),
        Err(_) => Err(AccessError::Unauthorized),
    }
}

} // verus!
