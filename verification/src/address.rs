//! Addresses and their deterministic derivation.
//!
//! Every record lives at an address computed from the owning program's
//! address, a domain tag and a tuple of seeds. The hash and the search for a
//! nonce are the work of `anchor_lang`'s `Pubkey`; this module gives them a
//! contract and builds the seed lists.

use anchor_lang::prelude::Pubkey;
use vstd::prelude::*;
use vstd::slice::slice_to_vec;
use vstd::std_specs::cmp::PartialEqSpecImpl;

verus! {

/// Number of bytes in an address.
pub const ADDRESS_BYTES: usize = 32;

/// A 32-byte address: of a record, of a signer, of a program or of a mint.
#[derive(Clone, Copy, Debug)]
pub struct Address {
    pub bytes: [u8; 32],
}

impl View for Address {
    type V = Seq<u8>;

    open spec fn view(&self) -> Seq<u8> {
        self.bytes@
    }
}

impl PartialEq for Address {
    fn eq(&self, other: &Address) -> (r: bool) {
        let mut i: usize = 0;
        while i < 32
            invariant
                i <= 32,
                forall|j: int| 0 <= j < i ==> self.bytes@[j] == other.bytes@[j],
            decreases 32 - i,
        {
            if self.bytes[i] != other.bytes[i] {
                return false;
            }
            i += 1;
        }
        assert(self.bytes@ =~= other.bytes@);
        true
    }
}

impl PartialEqSpecImpl for Address {
    open spec fn obeys_eq_spec() -> bool {
        true
    }

    open spec fn eq_spec(&self, other: &Address) -> bool {
        self@ == other@
    }
}

impl Eq for Address {

}

impl Default for Address {
    /// The all-zero address, which stands for "no address given".
    fn default() -> (r: Address)
        ensures
            r@ == zero_address(),
    {
        let r = Address { bytes: [0u8; 32] };
        assert(r@ =~= zero_address());
        r
    }
}

/// The all-zero address as a sequence of bytes.
pub open spec fn zero_address() -> Seq<u8> {
    Seq::new(32, |i: int| 0u8)
}

impl Address {
    pub fn new(bytes: [u8; 32]) -> (r: Address)
        ensures
            r@ == bytes@,
            r.bytes == bytes,
    {
        Address { bytes }
    }

    pub fn to_bytes(&self) -> (r: [u8; 32])
        ensures
            r@ == self@,
    {
        self.bytes
    }

    /// Whether this is the all-zero address.
    pub fn is_default(&self) -> (r: bool)
        ensures
            r == (self@ == zero_address()),
    {
        let mut i: usize = 0;
        while i < 32
            invariant
                i <= 32,
                forall|j: int| 0 <= j < i ==> self.bytes@[j] == 0u8,
            decreases 32 - i,
        {
            if self.bytes[i] != 0 {
                assert(zero_address()[i as int] == 0u8);
                return false;
            }
            i += 1;
        }
        assert(self@ =~= zero_address());
        true
    }

    /// Whether the address lies on the curve of the signing keys. No derived
    /// address does. For use off the chain.
    pub fn is_on_curve(&self) -> (r: bool)
        ensures
            r == on_curve(self@),
    {
        lies_on_curve(self)
    }

    /// The address as a seed for a derivation.
    pub fn as_seed(&self) -> (r: Vec<u8>)
        ensures
            r@ == self@,
    {
        let mut out: Vec<u8> = Vec::new();
        let mut i: usize = 0;
        while i < 32
            invariant
                i <= 32,
                out@.len() == i,
                forall|j: int| 0 <= j < i ==> out@[j] == self.bytes@[j],
            decreases 32 - i,
        {
            out.push(self.bytes[i]);
            i += 1;
        }
        assert(out@ =~= self@);
        out
    }
}

/// An optional address as an optional sequence of bytes.
pub open spec fn optional_view(address: Option<Address>) -> Option<Seq<u8>> {
    match address {
        Some(a) => Some(a@),
        None => None,
    }
}

/// The bytes of a text, as they enter a derivation and as lengths are counted.
pub open spec fn text_bytes(text: Seq<char>) -> Seq<u8> {
    vstd::utf8::encode_utf8(text)
}

/// The bytes of a text as a seed.
pub fn text_seed(text: &str) -> (r: Vec<u8>)
    ensures
        r@ == text_bytes(text@),
{
    slice_to_vec(text.as_bytes())
}

/// A list of seeds as a sequence of byte sequences.
pub open spec fn seeds_view(seeds: Seq<Vec<u8>>) -> Seq<Seq<u8>> {
    Seq::new(seeds.len(), |i: int| seeds[i]@)
}

/// What `Pubkey::try_find_program_address` returns for a list of seeds and a
/// program address: the address and the nonce found for it, or `None`.
pub uninterp spec fn found_program_address(seeds: Seq<Seq<u8>>, program: Seq<u8>) -> Option<
    (Seq<u8>, u8),
>;

/// What `Pubkey::create_program_address` returns for a list of seeds, the
/// nonce last, and a program address; `None` stands for its error.
pub uninterp spec fn created_program_address(seeds: Seq<Seq<u8>>, program: Seq<u8>) -> Option<
    Seq<u8>,
>;

/// Whether 32 bytes are a point of the curve on which signing keys lie, as
/// `Pubkey::is_on_curve` tells it. An address on the curve may have a
/// signing key; one off the curve has none.
pub uninterp spec fn on_curve(address: Seq<u8>) -> bool;

/// Calls `Pubkey::is_on_curve`, which tries to read the 32 bytes as a point
/// of the curve. The result is the function's own, under the name
/// `on_curve`. The test is made off the chain; built for the chain itself,
/// the outside function has no body to make it with.
#[verifier::external_body]
fn lies_on_curve(address: &Address) -> (r: bool)
    ensures
        r == on_curve(address@),
{
    Pubkey::new_from_array(address.bytes).is_on_curve()
}

/// Calls `Pubkey::try_find_program_address`.
///
/// The result is the function's own, under the name
/// `found_program_address`. Two more claims are made, read off its source:
/// it tries nonces by handing the seeds with the nonce appended to
/// `create_program_address` and returns the first address that comes back, so
/// that call on the same seeds and the returned nonce gives the same
/// address; and `create_program_address` hands out no address that lies on
/// the curve.
#[verifier::external_body]
fn find_program_address(seeds: &Vec<Vec<u8>>, program: &Address) -> (r: Option<(Address, u8)>)
    ensures
        match r {
            Some((address, nonce)) => {
                &&& found_program_address(seeds_view(seeds@), program@) == Some(
                    (address@, nonce),
                )
                &&& created_program_address(seeds_view(seeds@).push(seq![nonce]), program@)
                    == Some(address@)
                &&& !on_curve(address@)
            },
            None => found_program_address(seeds_view(seeds@), program@) is None,
        },
{
    let parts: Vec<&[u8]> = seeds.iter().map(|s| s.as_slice()).collect();
    match Pubkey::try_find_program_address(&parts, &Pubkey::new_from_array(program.bytes)) {
        Some((key, nonce)) => Some((Address { bytes: key.to_bytes() }, nonce)),
        None => None,
    }
}

/// Calls `Pubkey::create_program_address`, which hashes the seeds as given
/// (the nonce is the caller's last seed) and refuses a hash that lies on the
/// curve. The result is the function's own, under the name
/// `created_program_address`; its error becomes `None`. That an address
/// handed out is off the curve is read off the source.
#[verifier::external_body]
fn create_program_address(seeds: &Vec<Vec<u8>>, program: &Address) -> (r: Option<Address>)
    ensures
        match r {
            Some(address) => {
                &&& created_program_address(seeds_view(seeds@), program@) == Some(address@)
                &&& !on_curve(address@)
            },
            None => created_program_address(seeds_view(seeds@), program@) is None,
        },
{
    let parts: Vec<&[u8]> = seeds.iter().map(|s| s.as_slice()).collect();
    match Pubkey::create_program_address(&parts, &Pubkey::new_from_array(program.bytes)) {
        Ok(key) => Some(Address { bytes: key.to_bytes() }),
        Err(_) => None,
    }
}

/// The address and nonce derived for a program, a domain tag and seeds.
pub open spec fn derived(program: Seq<u8>, domain_tag: Seq<char>, seeds: Seq<Seq<u8>>) -> Option<
    (Seq<u8>, u8),
> {
    found_program_address(seq![text_bytes(domain_tag)] + seeds, program)
}

/// Whether `address` is the address derived for a program, a domain tag and
/// seeds.
pub open spec fn derives_to(
    program: Seq<u8>,
    domain_tag: Seq<char>,
    seeds: Seq<Seq<u8>>,
    address: Seq<u8>,
) -> bool {
    match derived(program, domain_tag, seeds) {
        Some((found, _)) => found == address,
        None => false,
    }
}

/// The address that a program, a domain tag, seeds and a stored nonce give
/// again, if they give one.
pub open spec fn rederived(
    program: Seq<u8>,
    domain_tag: Seq<char>,
    seeds: Seq<Seq<u8>>,
    nonce: u8,
) -> Option<Seq<u8>> {
    created_program_address((seq![text_bytes(domain_tag)] + seeds).push(seq![nonce]), program)
}

/// Whether a record with the given seeds and stored nonce is placed at
/// `address`: the seeds derive the address with that nonce, and the seeds and
/// the nonce give the address again.
pub open spec fn placed(
    program: Seq<u8>,
    domain_tag: Seq<char>,
    seeds: Seq<Seq<u8>>,
    nonce: u8,
    address: Seq<u8>,
) -> bool {
    &&& derived(program, domain_tag, seeds) == Some((address, nonce))
    &&& rederived(program, domain_tag, seeds, nonce) == Some(address)
}

/// What `derive` returns, as a relation between its inputs and its result.
pub open spec fn is_derivation(
    program: Seq<u8>,
    domain_tag: Seq<char>,
    seeds: Seq<Seq<u8>>,
    r: Option<(Address, u8)>,
) -> bool {
    match r {
        Some((address, nonce)) => derived(program, domain_tag, seeds) == Some((address@, nonce)),
        None => derived(program, domain_tag, seeds) is None,
    }
}

/// Derives the address of a record from the program's address, the domain
/// tag of the record's kind and its seeds, together with the nonce that makes
/// the address one that no signing key can have: the address lies off the
/// curve.
///
/// Returns `None` where no nonce gives such an address or the seeds are not
/// acceptable (16 or more with the tag, or one longer than 32 bytes).
pub fn derive(program: &Address, domain_tag: &str, seeds: Vec<Vec<u8>>) -> (r: Option<
    (Address, u8),
>)
    ensures
        is_derivation(program@, domain_tag@, seeds_view(seeds@), r),
        r matches Some((address, nonce)) ==> rederived(
            program@,
            domain_tag@,
            seeds_view(seeds@),
            nonce,
        ) == Some(address@),
        r matches Some((address, _)) ==> !on_curve(address@),
{
    let mut seeds = seeds;
    let ghost given = seeds@;
    let mut all: Vec<Vec<u8>> = Vec::new();
    all.push(text_seed(domain_tag));
    all.append(&mut seeds);
    assert(seeds_view(all@) =~= seq![text_bytes(domain_tag@)] + seeds_view(given));
    find_program_address(&all, program)
}

/// Derives the address again from the seeds and the nonce that a record
/// holds, without a search.
pub fn rederive(program: &Address, domain_tag: &str, seeds: Vec<Vec<u8>>, nonce: u8) -> (r:
    Option<Address>)
    ensures
        match r {
            Some(address) => rederived(program@, domain_tag@, seeds_view(seeds@), nonce) == Some(
                address@,
            ),
            None => rederived(program@, domain_tag@, seeds_view(seeds@), nonce) is None,
        },
        r matches Some(address) ==> !on_curve(address@),
{
    let mut seeds = seeds;
    let ghost given = seeds@;
    let mut all: Vec<Vec<u8>> = Vec::new();
    all.push(text_seed(domain_tag));
    all.append(&mut seeds);
    let mut last: Vec<u8> = Vec::new();
    last.push(nonce);
    all.push(last);
    assert(seeds_view(all@) =~= (seq![text_bytes(domain_tag@)] + seeds_view(given)).push(
        seq![nonce],
    ));
    create_program_address(&all, program)
}

/// Whether `claimed` is the address that the seeds and the stored nonce
/// derive: the check made on every access to a record.
pub fn is_address_of(
    claimed: &Address,
    program: &Address,
    domain_tag: &str,
    seeds: Vec<Vec<u8>>,
    nonce: u8,
) -> (r: bool)
    ensures
        r == (rederived(program@, domain_tag@, seeds_view(seeds@), nonce) == Some(claimed@)),
{
    match rederive(program, domain_tag, seeds, nonce) {
        Some(address) => address == *claimed,
        None => false,
    }
}

/// Derivation is a function of the program, the tag and the seeds: two
/// results for the same inputs are the same address and the same nonce, or
/// both are `None`.
pub proof fn derive_is_deterministic(
    program: Seq<u8>,
    domain_tag: Seq<char>,
    seeds: Seq<Seq<u8>>,
    first: Option<(Address, u8)>,
    second: Option<(Address, u8)>,
)
    requires
        is_derivation(program, domain_tag, seeds, first),
        is_derivation(program, domain_tag, seeds, second),
    ensures
        first is Some <==> second is Some,
        match (first, second) {
            (Some((a1, n1)), Some((a2, n2))) => a1@ == a2@ && n1 == n2,
            _ => true,
        },
{
}

} // verus!
