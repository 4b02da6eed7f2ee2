//! A store of records, one per derived address.
//!
//! A record is created at the address that its seeds derive, once; it is
//! loaded and rewritten under that address, within the space taken at
//! creation; and it is destroyed once, which gives that space back. What is
//! owed for the space is settled outside: creation and destruction say for
//! whom, and for how many bytes.

use crate::address::{derived, rederived, seeds_view, Address};
use vstd::prelude::*;

verus! {

/// Why the store refuses an operation.
#[derive(Clone, Copy, Debug, PartialEq, Eq, Structural)]
pub enum StoreError {
    /// A live record already occupies the address.
    AddressAlreadyInUse,
    /// No record lives at the address: never created, or destroyed.
    RecordNotFound,
    /// The address presented is not the one that the seeds derive.
    AddressMismatch,
    /// The seeds derive no address.
    NoViableAddress,
}

/// Why an operation on stored records fails: the store refuses it, or a
/// rule of the program does.
#[derive(Debug, PartialEq, Eq)]
pub enum Failure<E> {
    Store(StoreError),
    Rule(E),
}

/// What the store holds at an address: the bytes set aside at creation and
/// the record, by its view.
pub struct Entry<V> {
    pub space: usize,
    pub record: V,
}

/// A reservation of storage taken from `holder` at creation, or given back to
/// `holder` at destruction. The price of a byte is not the store's business.
#[derive(Clone, Copy, Debug)]
pub struct Deposit {
    pub holder: Address,
    pub space: usize,
}

/// What a creation hands back: where the record lives, the nonce of that
/// address and the reservation to charge.
#[derive(Clone, Copy, Debug)]
pub struct Receipt {
    pub address: Address,
    pub nonce: u8,
    pub reserve: Deposit,
}

struct Slot<T> {
    address: Address,
    space: usize,
    record: T,
}

/// The live records of one kind, by address.
pub struct RecordStore<T> {
    slots: Vec<Slot<T>>,
}

spec fn holds<T>(slots: Seq<Slot<T>>, key: Seq<u8>, i: int) -> bool {
    0 <= i < slots.len() && slots[i].address@ == key
}

spec fn distinct<T>(slots: Seq<Slot<T>>) -> bool {
    forall|i: int, j: int|
        0 <= i < slots.len() && 0 <= j < slots.len() && i != j ==> #[trigger] slots[i].address@
            != #[trigger] slots[j].address@
}

spec fn index_of<T>(slots: Seq<Slot<T>>, key: Seq<u8>) -> int {
    choose|i: int| holds(slots, key, i)
}

spec fn entries<T: View>(slots: Seq<Slot<T>>) -> Map<Seq<u8>, Entry<T::V>> {
    Map::new(
        |key: Seq<u8>| exists|i: int| holds(slots, key, i),
        |key: Seq<u8>|
            Entry {
                space: slots[index_of(slots, key)].space,
                record: slots[index_of(slots, key)].record@,
            },
    )
}

proof fn lemma_slot_is_entry<T: View>(slots: Seq<Slot<T>>, i: int)
    requires
        distinct(slots),
        0 <= i < slots.len(),
    ensures
        entries(slots).contains_key(slots[i].address@),
        entries(slots)[slots[i].address@] == (Entry {
            space: slots[i].space,
            record: slots[i].record@,
        }),
{
    let key = slots[i].address@;
    assert(holds(slots, key, i));
    let j = index_of(slots, key);
    assert(holds(slots, key, j));
    assert(j == i);
}

proof fn lemma_absent<T: View>(slots: Seq<Slot<T>>, key: Seq<u8>)
    requires
        forall|i: int| 0 <= i < slots.len() ==> slots[i].address@ != key,
    ensures
        !entries(slots).contains_key(key),
{
    assert forall|i: int| !holds(slots, key, i) by {}
}

proof fn lemma_push<T: View>(slots: Seq<Slot<T>>, slot: Slot<T>)
    requires
        distinct(slots),
        !entries(slots).contains_key(slot.address@),
    ensures
        distinct(slots.push(slot)),
        entries(slots.push(slot)) == entries(slots).insert(
            slot.address@,
            Entry { space: slot.space, record: slot.record@ },
        ),
{
    let after = slots.push(slot);
    assert forall|i: int| 0 <= i < slots.len() implies slots[i].address@ != slot.address@ by {
        assert(holds(slots, slots[i].address@, i));
    }
    assert(distinct(after));
    let want = entries(slots).insert(
        slot.address@,
        Entry { space: slot.space, record: slot.record@ },
    );
    assert forall|key: Seq<u8>| entries(after).contains_key(key) <==> want.contains_key(key) by {
        if entries(after).contains_key(key) {
            let i = choose|i: int| holds(after, key, i);
            if i < slots.len() {
                assert(holds(slots, key, i));
            }
        }
        if want.contains_key(key) {
            if key == slot.address@ {
                assert(holds(after, key, slots.len() as int));
            } else {
                let i = choose|i: int| holds(slots, key, i);
                assert(holds(after, key, i));
            }
        }
    }
    assert forall|key: Seq<u8>| entries(after).contains_key(key) implies entries(after)[key]
        == want[key] by {
        let i = choose|i: int| holds(after, key, i);
        lemma_slot_is_entry(after, i);
        if i < slots.len() {
            lemma_slot_is_entry(slots, i);
        }
    }
    assert(entries(after) =~= want);
}

proof fn lemma_remove<T: View>(slots: Seq<Slot<T>>, at: int)
    requires
        distinct(slots),
        0 <= at < slots.len(),
    ensures
        distinct(slots.remove(at)),
        entries(slots.remove(at)) == entries(slots).remove(slots[at].address@),
{
    let after = slots.remove(at);
    let gone = slots[at].address@;
    assert forall|i: int, j: int|
        0 <= i < after.len() && 0 <= j < after.len() && i != j implies #[trigger] after[i].address@
        != #[trigger] after[j].address@ by {
        let oi = if i < at { i } else { i + 1 };
        let oj = if j < at { j } else { j + 1 };
        assert(after[i] == slots[oi]);
        assert(after[j] == slots[oj]);
    }
    let want = entries(slots).remove(gone);
    assert forall|key: Seq<u8>| entries(after).contains_key(key) <==> want.contains_key(key) by {
        if entries(after).contains_key(key) {
            let i = choose|i: int| holds(after, key, i);
            let oi = if i < at { i } else { i + 1 };
            assert(after[i] == slots[oi]);
            assert(holds(slots, key, oi));
        }
        if want.contains_key(key) {
            let oi = choose|i: int| holds(slots, key, i);
            let i = if oi < at { oi } else { oi - 1 };
            assert(after[i] == slots[oi]);
            assert(holds(after, key, i));
        }
    }
    assert forall|key: Seq<u8>| entries(after).contains_key(key) implies entries(after)[key]
        == want[key] by {
        let i = choose|i: int| holds(after, key, i);
        let oi = if i < at { i } else { i + 1 };
        assert(after[i] == slots[oi]);
        lemma_slot_is_entry(after, i);
        lemma_slot_is_entry(slots, oi);
    }
    assert(entries(after) =~= want);
}

impl<T: View> View for RecordStore<T> {
    type V = Map<Seq<u8>, Entry<T::V>>;

    /// The live records by address.
    closed spec fn view(&self) -> Map<Seq<u8>, Entry<T::V>> {
        entries(self.slots@)
    }
}

impl<T: View> RecordStore<T> {
    /// No address holds two records.
    pub closed spec fn wf(&self) -> bool {
        distinct(self.slots@)
    }

    /// A store without records.
    pub fn new() -> (r: RecordStore<T>)
        ensures
            r.wf(),
            r@ == Map::<Seq<u8>, Entry<T::V>>::empty(),
    {
        let r = RecordStore { slots: Vec::new() };
        proof {
            assert(r@ =~= Map::<Seq<u8>, Entry<T::V>>::empty()) by {
                assert forall|key: Seq<u8>| !r@.contains_key(key) by {
                    lemma_absent(r.slots@, key);
                }
            }
        }
        r
    }

    fn find(&self, address: &Address) -> (r: Option<usize>)
        requires
            self.wf(),
        ensures
            match r {
                Some(i) => {
                    &&& i < self.slots@.len()
                    &&& self.slots@[i as int].address@ == address@
                    &&& self@.contains_key(address@)
                    &&& self@[address@] == (Entry {
                        space: self.slots@[i as int].space,
                        record: self.slots@[i as int].record@,
                    })
                },
                None => !self@.contains_key(address@),
            },
    {
        let mut i: usize = 0;
        while i < self.slots.len()
            invariant
                self.wf(),
                i <= self.slots@.len(),
                forall|j: int| 0 <= j < i ==> self.slots@[j].address@ != address@,
            decreases self.slots@.len() - i,
        {
            if self.slots[i].address == *address {
                proof {
                    lemma_slot_is_entry(self.slots@, i as int);
                }
                return Some(i);
            }
            i += 1;
        }
        proof {
            lemma_absent(self.slots@, address@);
        }
        None
    }

    /// Whether a live record occupies the address.
    pub fn contains(&self, address: &Address) -> (r: bool)
        requires
            self.wf(),
        ensures
            r == self@.contains_key(address@),
    {
        self.find(address).is_some()
    }

    /// The record at an address.
    pub fn load(&self, address: &Address) -> (r: Result<&T, StoreError>)
        requires
            self.wf(),
        ensures
            match r {
                Ok(record) => self@.contains_key(address@) && record@ == self@[address@].record,
                Err(e) => e == StoreError::RecordNotFound && !self@.contains_key(address@),
            },
    {
        match self.find(address) {
            Some(i) => Ok(&self.slots[i].record),
            None => Err(StoreError::RecordNotFound),
        }
    }

    /// The bytes set aside for the record at an address.
    pub fn space_of(&self, address: &Address) -> (r: Result<usize, StoreError>)
        requires
            self.wf(),
        ensures
            match r {
                Ok(space) => self@.contains_key(address@) && space == self@[address@].space,
                Err(e) => e == StoreError::RecordNotFound && !self@.contains_key(address@),
            },
    {
        match self.find(address) {
            Some(i) => Ok(self.slots[i].space),
            None => Err(StoreError::RecordNotFound),
        }
    }

    /// Checks the address that a caller presents for a record to be created:
    /// it must be the one that the seeds derive, and free. Hands out the
    /// nonce of the address. Nothing is written.
    pub fn placement(
        &self,
        program: &Address,
        domain_tag: &str,
        seeds: Vec<Vec<u8>>,
        claimed: &Address,
    ) -> (r: Result<u8, StoreError>)
        requires
            self.wf(),
        ensures
            match r {
                Ok(nonce) => {
                    &&& placement_refusal(
                        self@,
                        program@,
                        domain_tag@,
                        seeds_view(seeds@),
                        claimed@,
                    ) is None
                    &&& derived(program@, domain_tag@, seeds_view(seeds@)) == Some(
                        (claimed@, nonce),
                    )
                    &&& rederived(program@, domain_tag@, seeds_view(seeds@), nonce) == Some(
                        claimed@,
                    )
                },
                Err(e) => placement_refusal(
                    self@,
                    program@,
                    domain_tag@,
                    seeds_view(seeds@),
                    claimed@,
                ) == Some(e),
            },
    {
        match crate::address::derive(program, domain_tag, seeds) {
            None => Err(StoreError::NoViableAddress),
            Some((address, nonce)) => {
                if address != *claimed {
                    Err(StoreError::AddressMismatch)
                } else if self.contains(claimed) {
                    Err(StoreError::AddressAlreadyInUse)
                } else {
                    Ok(nonce)
                }
            },
        }
    }

    /// Takes the record at an address out of the store, with its space, to
    /// be put back by `put`.
    pub(crate) fn take(&mut self, address: &Address) -> (r: Option<(T, usize)>)
        requires
            old(self).wf(),
        ensures
            final(self).wf(),
            match r {
                Some((record, space)) => {
                    &&& old(self)@.contains_key(address@)
                    &&& old(self)@[address@] == (Entry { space, record: record@ })
                    &&& final(self)@ == old(self)@.remove(address@)
                },
                None => !old(self)@.contains_key(address@) && final(self)@ == old(self)@,
            },
    {
        match self.find(address) {
            None => None,
            Some(i) => {
                proof {
                    lemma_remove(self.slots@, i as int);
                }
                let slot = self.slots.remove(i);
                Some((slot.record, slot.space))
            },
        }
    }

    /// Puts a record at an address that is known to be free.
    pub(crate) fn put(&mut self, address: Address, space: usize, record: T)
        requires
            old(self).wf(),
            !old(self)@.contains_key(address@),
        ensures
            final(self).wf(),
            final(self)@ == old(self)@.insert(address@, Entry { space, record: record@ }),
    {
        let slot = Slot { address, space, record };
        proof {
            lemma_push(self.slots@, slot);
        }
        self.slots.push(slot);
    }

    /// Puts a record at an address that holds none, with `space` bytes set
    /// aside for it.
    pub fn create_at(&mut self, address: Address, space: usize, record: T) -> (r: Result<
        (),
        StoreError,
    >)
        requires
            old(self).wf(),
        ensures
            final(self).wf(),
            match r {
                Ok(()) => {
                    &&& !old(self)@.contains_key(address@)
                    &&& final(self)@ == old(self)@.insert(
                        address@,
                        Entry { space, record: record@ },
                    )
                },
                Err(e) => {
                    &&& e == StoreError::AddressAlreadyInUse
                    &&& old(self)@.contains_key(address@)
                    &&& final(self)@ == old(self)@
                },
            },
    {
        if self.find(&address).is_some() {
            return Err(StoreError::AddressAlreadyInUse);
        }
        let slot = Slot { address, space, record };
        proof {
            lemma_push(self.slots@, slot);
        }
        self.slots.push(slot);
        Ok(())
    }

    /// Creates the record of the given seeds: derives its address under the
    /// program and the domain tag, refuses if a live record is there, and
    /// otherwise stores the content with `space` bytes reserved from `payer`.
    pub fn create(
        &mut self,
        program: &Address,
        domain_tag: &str,
        seeds: Vec<Vec<u8>>,
        payer: Address,
        space: usize,
        content: T,
    ) -> (r: Result<Receipt, StoreError>)
        requires
            old(self).wf(),
        ensures
            final(self).wf(),
            match r {
                Ok(receipt) => {
                    &&& creation_refusal(old(self)@, program@, domain_tag@, seeds_view(seeds@)) is None
                    &&& derived(program@, domain_tag@, seeds_view(seeds@)) == Some(
                        (receipt.address@, receipt.nonce),
                    )
                    &&& rederived(
                        program@,
                        domain_tag@,
                        seeds_view(seeds@),
                        receipt.nonce,
                    ) == Some(receipt.address@)
                    &&& receipt.reserve.holder == payer
                    &&& receipt.reserve.space == space
                },
                Err(e) => creation_refusal(old(self)@, program@, domain_tag@, seeds_view(seeds@)) == Some(e),
            },
            final(self)@ == created(
                old(self)@,
                program@,
                domain_tag@,
                seeds_view(seeds@),
                space,
                content@,
            ),
    {
        match crate::address::derive(program, domain_tag, seeds) {
            None => Err(StoreError::NoViableAddress),
            Some((address, nonce)) => {
                match self.create_at(address, space, content) {
                    Ok(()) => Ok(Receipt { address, nonce, reserve: Deposit { holder: payer, space } }),
                    Err(e) => Err(e),
                }
            },
        }
    }

    /// Writes a new content over the record at an address, within the space
    /// set aside at creation, and hands back the old content.
    pub fn update(&mut self, address: &Address, content: T) -> (r: Result<T, StoreError>)
        requires
            old(self).wf(),
        ensures
            final(self).wf(),
            match r {
                Ok(before) => {
                    &&& old(self)@.contains_key(address@)
                    &&& before@ == old(self)@[address@].record
                    &&& final(self)@ == old(self)@.insert(
                        address@,
                        Entry { space: old(self)@[address@].space, record: content@ },
                    )
                },
                Err(e) => {
                    &&& e == StoreError::RecordNotFound
                    &&& !old(self)@.contains_key(address@)
                    &&& final(self)@ == old(self)@
                },
            },
    {
        match self.find(address) {
            None => Err(StoreError::RecordNotFound),
            Some(i) => {
                proof {
                    lemma_remove(self.slots@, i as int);
                }
                let slot = self.slots.remove(i);
                let fresh = Slot { address: slot.address, space: slot.space, record: content };
                proof {
                    lemma_push(self.slots@, fresh);
                }
                self.slots.push(fresh);
                proof {
                    assert(self@ =~= old(self)@.insert(
                        address@,
                        Entry { space: old(self)@[address@].space, record: content@ },
                    ));
                }
                Ok(slot.record)
            },
        }
    }

    /// Erases the record at an address and gives its space back to
    /// `beneficiary`. Hands out the record and the release to pay.
    pub fn destroy(&mut self, address: &Address, beneficiary: Address) -> (r: Result<
        (T, Deposit),
        StoreError,
    >)
        requires
            old(self).wf(),
        ensures
            final(self).wf(),
            match r {
                Ok((record, release)) => {
                    &&& old(self)@.contains_key(address@)
                    &&& record@ == old(self)@[address@].record
                    &&& release.space == old(self)@[address@].space
                    &&& release.holder == beneficiary
                    &&& final(self)@ == old(self)@.remove(address@)
                },
                Err(e) => {
                    &&& e == StoreError::RecordNotFound
                    &&& !old(self)@.contains_key(address@)
                    &&& final(self)@ == old(self)@
                },
            },
    {
        match self.find(address) {
            None => Err(StoreError::RecordNotFound),
            Some(i) => {
                proof {
                    lemma_remove(self.slots@, i as int);
                }
                let slot = self.slots.remove(i);
                Ok((slot.record, Deposit { holder: beneficiary, space: slot.space }))
            },
        }
    }
}

/// The address that the seeds derive, where they derive one.
pub open spec fn address_of(program: Seq<u8>, domain_tag: Seq<char>, seeds: Seq<Seq<u8>>) -> Seq<u8> {
    match derived(program, domain_tag, seeds) {
        Some((address, _)) => address,
        None => Seq::empty(),
    }
}

/// The nonce of the address that the seeds derive, where they derive one.
pub open spec fn nonce_of(program: Seq<u8>, domain_tag: Seq<char>, seeds: Seq<Seq<u8>>) -> u8 {
    match derived(program, domain_tag, seeds) {
        Some((_, nonce)) => nonce,
        None => 0,
    }
}

/// Why a record cannot be created at the address that a caller presents, or
/// `None` where it can: the seeds must derive an address, the address
/// presented must be that one, and no live record may be there.
pub open spec fn placement_refusal<V>(
    store: Map<Seq<u8>, Entry<V>>,
    program: Seq<u8>,
    domain_tag: Seq<char>,
    seeds: Seq<Seq<u8>>,
    claimed: Seq<u8>,
) -> Option<StoreError> {
    match derived(program, domain_tag, seeds) {
        None => Some(StoreError::NoViableAddress),
        Some((address, _)) => if address != claimed {
            Some(StoreError::AddressMismatch)
        } else if store.contains_key(address) {
            Some(StoreError::AddressAlreadyInUse)
        } else {
            None
        },
    }
}

/// Why `create` refuses the seeds on a store, or `None` where it accepts
/// them.
pub open spec fn creation_refusal<V>(
    store: Map<Seq<u8>, Entry<V>>,
    program: Seq<u8>,
    domain_tag: Seq<char>,
    seeds: Seq<Seq<u8>>,
) -> Option<StoreError> {
    match derived(program, domain_tag, seeds) {
        None => Some(StoreError::NoViableAddress),
        Some((address, _)) => if store.contains_key(address) {
            Some(StoreError::AddressAlreadyInUse)
        } else {
            None
        },
    }
}

/// The store after `create`: with the content at the derived address where
/// the creation is accepted, unchanged where it is refused.
pub open spec fn created<V>(
    store: Map<Seq<u8>, Entry<V>>,
    program: Seq<u8>,
    domain_tag: Seq<char>,
    seeds: Seq<Seq<u8>>,
    space: usize,
    content: V,
) -> Map<Seq<u8>, Entry<V>> {
    match derived(program, domain_tag, seeds) {
        Some((address, _)) => if store.contains_key(address) {
            store
        } else {
            store.insert(address, Entry { space, record: content })
        },
        None => store,
    }
}

/// No address is occupied twice: once a creation is accepted, creating with
/// the same seeds again is refused with `AddressAlreadyInUse`, on the store
/// as the creation left it and on every later store in which the record has
/// not been destroyed.
pub proof fn second_creation_is_refused<V>(
    store: Map<Seq<u8>, Entry<V>>,
    later: Map<Seq<u8>, Entry<V>>,
    program: Seq<u8>,
    domain_tag: Seq<char>,
    seeds: Seq<Seq<u8>>,
    space: usize,
    content: V,
)
    requires
        creation_refusal(store, program, domain_tag, seeds) is None,
        created(store, program, domain_tag, seeds, space, content).dom().subset_of(later.dom()),
    ensures
        creation_refusal(created(store, program, domain_tag, seeds, space, content), program, domain_tag, seeds)
            == Some(StoreError::AddressAlreadyInUse),
        creation_refusal(later, program, domain_tag, seeds) == Some(StoreError::AddressAlreadyInUse),
        created(later, program, domain_tag, seeds, space, content) == later,
{
    let after = created(store, program, domain_tag, seeds, space, content);
    let address = address_of(program, domain_tag, seeds);
    assert(after.contains_key(address));
    assert(later.dom().contains(address));
}

/// The same holds where the caller presents the address: once a record is
/// placed for its seeds, every later placement for the same seeds is
/// refused while the record lives, with `AddressAlreadyInUse` where the same
/// address is presented and `AddressMismatch` where another is.
pub proof fn second_placement_is_refused<V>(
    store: Map<Seq<u8>, Entry<V>>,
    later: Map<Seq<u8>, Entry<V>>,
    program: Seq<u8>,
    domain_tag: Seq<char>,
    seeds: Seq<Seq<u8>>,
    claimed: Seq<u8>,
    later_claimed: Seq<u8>,
)
    requires
        placement_refusal(store, program, domain_tag, seeds, claimed) is None,
        later.contains_key(claimed),
    ensures
        placement_refusal(later, program, domain_tag, seeds, later_claimed) == Some(
            if later_claimed == claimed {
                StoreError::AddressAlreadyInUse
            } else {
                StoreError::AddressMismatch
            },
        ),
{
}

/// Once a record is destroyed its address is free again: a creation with
/// the same seeds is accepted.
pub proof fn destroyed_is_gone<V>(
    store: Map<Seq<u8>, Entry<V>>,
    program: Seq<u8>,
    domain_tag: Seq<char>,
    seeds: Seq<Seq<u8>>,
)
    requires
        derived(program, domain_tag, seeds) is Some,
    ensures
        creation_refusal(store.remove(address_of(program, domain_tag, seeds)), program, domain_tag, seeds)
            is None,
{
}

} // verus!
