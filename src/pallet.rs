//! The entity store: kitties by id, their owners and parents, the id
//! allocator and the storage version that the stored bytes are encoded under.

use vstd::prelude::*;
use std::collections::HashMap;
use crate::breeding::{breed_dna, mix_dna};
use crate::kitty::{layout_width, AccountId, Kitty, KittyId};
use crate::migrations::{upgrade_value, Upgrade};
use crate::randomness::{random_bytes, random_value};

verus! {

/// The storage version that the operations of this store read and write.
pub const STORAGE_VERSION: u16 = 2;

/// Why an operation was rejected. Every rejection leaves the store as it was.
#[derive(Clone, Copy, Debug, PartialEq, Eq, Structural)]
pub enum Error {
    /// The identifier space is exhausted.
    Overflow,
    /// A kitty cannot be bred with itself.
    SameParent,
    /// A referenced kitty does not exist.
    NotFound,
    /// The caller does not own the kitty.
    NotOwner,
}

/// What an operation that succeeded records in the store's event log.
#[derive(Clone, Copy, Debug, PartialEq, Eq)]
pub enum Event {
    KittyCreated { who: AccountId, kitty_id: KittyId, kitty: Kitty },
    KittyBreed { who: AccountId, kitty_id: KittyId, kitty: Kitty },
    KittyTransferred { who: AccountId, recipient: AccountId, kitty_id: KittyId },
}

/// The abstract state of a store.
pub struct PalletView {
    /// The id that the next kitty will get.
    pub next_kitty_id: KittyId,
    /// The encoded kitty under each existing id.
    pub kitties: Map<KittyId, Seq<u8>>,
    pub owners: Map<KittyId, AccountId>,
    pub parents: Map<KittyId, (KittyId, KittyId)>,
    /// The layout that the stored kitties are encoded in.
    pub storage_version: u16,
    /// The randomness context supplied by the host.
    pub random_seed: Seq<u8>,
    pub extrinsic_index: u32,
    pub events: Seq<Event>,
}

/// The name that a newly created or bred kitty carries.
pub open spec fn blank_name() -> Seq<u8> {
    Seq::new(8, |_i: int| 0u8)
}

/// The kitty with dna `dna` and a blank name.
pub open spec fn newborn(dna: Seq<u8>) -> Kitty {
    choose|k: Kitty| k.dna@ == dna && k.name@ == blank_name()
}

/// The dna held in the first 16 bytes of an encoded kitty.
pub open spec fn dna_of(bytes: Seq<u8>) -> Seq<u8> {
    bytes.subrange(0, 16)
}

impl PalletView {
    /// `id` holds a kitty readable in the current layout.
    pub open spec fn has_kitty(self, id: KittyId) -> bool {
        self.kitties.contains_key(id) && self.kitties[id].len() == 24
    }

    /// The 16 random bytes that `who` draws in this context.
    pub open spec fn random_for(self, who: AccountId) -> Seq<u8> {
        random_bytes(self.random_seed, who, self.extrinsic_index)
    }

    /// Every stored kitty has the width of the layout of `version`.
    pub open spec fn encoded_under(self, version: u16) -> bool {
        forall|k: KittyId| #[trigger]
            self.kitties.contains_key(k) ==> self.kitties[k].len() == layout_width(version)
    }

    /// The state after `step`: every stored kitty re-encoded and the
    /// version advanced, if the store is at the step's source version;
    /// otherwise the state unchanged.
    pub open spec fn upgraded(self, step: Upgrade) -> PalletView {
        if self.storage_version == step.from_version() {
            PalletView {
                kitties: self.kitties.map_values(|b: Seq<u8>| step.apply(b)),
                storage_version: step.to_version(),
                ..self
            }
        } else {
            self
        }
    }

    /// The state after a migration to `target`: the step from version
    /// `target - 1`, where one exists and the store is at that version.
    pub open spec fn migrated(self, target: u16) -> PalletView {
        if target == 1 {
            self.upgraded(Upgrade::V0ToV1)
        } else if target == 2 {
            self.upgraded(Upgrade::V1ToV2)
        } else {
            self
        }
    }

    /// The state after `kitty` is stored under `id`, owned by `who`, with
    /// `parents` as its parent record, and `event` is logged.
    pub open spec fn stored(
        self,
        id: KittyId,
        who: AccountId,
        kitty: Kitty,
        parents: Option<(KittyId, KittyId)>,
        event: Event,
    ) -> PalletView {
        PalletView {
            next_kitty_id: (id + 1) as KittyId,
            kitties: self.kitties.insert(id, kitty.layout()),
            owners: self.owners.insert(id, who),
            parents: match parents {
                Some(p) => self.parents.insert(id, p),
                None => self.parents.remove(id),
            },
            events: self.events.push(event),
            ..self
        }
    }
}

/// A kitty store with its allocator, ownership and parent records.
pub struct Pallet {
    next_kitty_id: KittyId,
    kitties: HashMap<KittyId, Vec<u8>>,
    /// Every key of `kitties`, once each, in the order of first insertion.
    kitty_ids: Vec<KittyId>,
    kitty_owner: HashMap<KittyId, AccountId>,
    kitty_parents: HashMap<KittyId, (KittyId, KittyId)>,
    storage_version: u16,
    random_seed: [u8; 32],
    extrinsic_index: u32,
    events: Vec<Event>,
}

impl View for Pallet {
    type V = PalletView;

    closed spec fn view(&self) -> PalletView {
        PalletView {
            next_kitty_id: self.next_kitty_id,
            kitties: self.kitties@.map_values(|v: Vec<u8>| v@),
            owners: self.kitty_owner@,
            parents: self.kitty_parents@,
            storage_version: self.storage_version,
            random_seed: self.random_seed@,
            extrinsic_index: self.extrinsic_index,
            events: self.events@,
        }
    }
}

impl Pallet {
    /// The index of kitty keys covers exactly the stored kitties.
    pub closed spec fn wf(&self) -> bool {
        &&& self.kitty_ids@.no_duplicates()
        &&& forall|k: KittyId|
            #![trigger self.kitties@.contains_key(k)]
            #![trigger self.kitty_ids@.contains(k)]
            self.kitties@.contains_key(k) <==> self.kitty_ids@.contains(k)
    }

    /// An empty store in the current layout, with a zero random seed.
    pub fn new() -> (r: Pallet)
        ensures
            r.wf(),
            r@.next_kitty_id == 0,
            r@.kitties.is_empty(),
            r@.owners.is_empty(),
            r@.parents.is_empty(),
            r@.storage_version == STORAGE_VERSION,
            r@.random_seed == Seq::new(32, |_i: int| 0u8),
            r@.extrinsic_index == 0,
            r@.events.len() == 0,
    {
        Pallet::with_storage_version(STORAGE_VERSION)
    }

    /// An empty store whose stored kitties are declared to be encoded under
    /// `version`.
    pub fn with_storage_version(version: u16) -> (r: Pallet)
        ensures
            r.wf(),
            r@.next_kitty_id == 0,
            r@.kitties.is_empty(),
            r@.owners.is_empty(),
            r@.parents.is_empty(),
            r@.storage_version == version,
            r@.random_seed == Seq::new(32, |_i: int| 0u8),
            r@.extrinsic_index == 0,
            r@.events.len() == 0,
    {
        let r = Pallet {
            next_kitty_id: 0,
            kitties: HashMap::new(),
            kitty_ids: Vec::new(),
            kitty_owner: HashMap::new(),
            kitty_parents: HashMap::new(),
            storage_version: version,
            random_seed: [0u8; 32],
            extrinsic_index: 0,
            events: Vec::new(),
        };
        assert(r@.kitties =~= Map::empty());
        assert(r@.random_seed =~= Seq::new(32, |_i: int| 0u8));
        r
    }

    pub fn next_kitty_id(&self) -> (r: KittyId)
        ensures
            r == self@.next_kitty_id,
    {
        self.next_kitty_id
    }

    pub fn storage_version(&self) -> (r: u16)
        ensures
            r == self@.storage_version,
    {
        self.storage_version
    }

    /// The kitty under `id`, if one is stored there in the current layout.
    pub fn kitties(&self, id: KittyId) -> (r: Option<Kitty>)
        ensures
            r is Some <==> self@.has_kitty(id),
            r matches Some(k) ==> k.layout() == self@.kitties[id],
    {
        match self.kitties.get(&id) {
            Some(bytes) => Kitty::decode(bytes.as_slice()),
            None => None,
        }
    }

    /// The bytes stored under `id`, in whatever layout they were written.
    pub fn encoded_kitty(&self, id: KittyId) -> (r: Option<&Vec<u8>>)
        ensures
            r is Some <==> self@.kitties.contains_key(id),
            r matches Some(b) ==> b@ == self@.kitties[id],
    {
        self.kitties.get(&id)
    }

    pub fn kitty_owner(&self, id: KittyId) -> (r: Option<AccountId>)
        ensures
            r is Some <==> self@.owners.contains_key(id),
            r matches Some(o) ==> o == self@.owners[id],
    {
        match self.kitty_owner.get(&id) {
            Some(o) => Some(*o),
            None => None,
        }
    }

    pub fn kitty_parents(&self, id: KittyId) -> (r: Option<(KittyId, KittyId)>)
        ensures
            r is Some <==> self@.parents.contains_key(id),
            r matches Some(p) ==> p == self@.parents[id],
    {
        match self.kitty_parents.get(&id) {
            Some(p) => Some(*p),
            None => None,
        }
    }

    /// Every event logged so far, oldest first.
    pub fn events(&self) -> (r: &Vec<Event>)
        ensures
            r@ == self@.events,
    {
        &self.events
    }

    /// Stores `bytes` under `id` as they are, whatever their layout.
    pub fn insert_encoded(&mut self, id: KittyId, bytes: Vec<u8>)
        requires
            old(self).wf(),
        ensures
            final(self).wf(),
            final(self)@ == (PalletView { kitties: old(self)@.kitties.insert(id, bytes@), ..old(self)@ }),
    {
        if !self.kitties.contains_key(&id) {
            proof {
                let ids = self.kitty_ids@;
                assert forall|i: int, j: int|
                    0 <= i < ids.push(id).len() && 0 <= j < ids.push(id).len() && i != j implies
                    ids.push(id)[i] != ids.push(id)[j] by {
                    if i < ids.len() && j < ids.len() {
                    } else if i < ids.len() {
                        assert(ids.contains(ids[i]));
                    } else {
                        assert(ids.contains(ids[j]));
                    }
                }
            }
            self.kitty_ids.push(id);
        }
        self.kitties.insert(id, bytes);
        proof {
            assert forall|k: KittyId| #![trigger self.kitties@.contains_key(k)]
                #![trigger self.kitty_ids@.contains(k)]
                self.kitties@.contains_key(k) <==> self.kitty_ids@.contains(k) by {
                if k != id {
                    if old(self).kitty_ids@.contains(k) {
                        let i = choose|i: int| 0 <= i < old(self).kitty_ids@.len() && old(self).kitty_ids@[i] == k;
                        assert(self.kitty_ids@[i] == k);
                    }
                    if self.kitty_ids@.contains(k) {
                        let i = choose|i: int| 0 <= i < self.kitty_ids@.len() && self.kitty_ids@[i] == k;
                        assert(old(self).kitty_ids@[i] == k);
                    }
                } else {
                    if old(self).kitty_ids@.contains(k) {
                        let i = choose|i: int| 0 <= i < old(self).kitty_ids@.len() && old(self).kitty_ids@[i] == k;
                        assert(self.kitty_ids@[i] == k);
                    } else {
                        assert(self.kitty_ids@[self.kitty_ids@.len() - 1] == k);
                    }
                }
            }
        }
        assert(self@.kitties =~= old(self)@.kitties.insert(id, bytes@));
    }

    /// Forces the id counter to `id`.
    pub fn set_next_kitty_id(&mut self, id: KittyId)
        requires
            old(self).wf(),
        ensures
            final(self).wf(),
            final(self)@ == (PalletView { next_kitty_id: id, ..old(self)@ }),
    {
        self.next_kitty_id = id;
    }

    /// Sets the random seed of the current context.
    pub fn set_random_seed(&mut self, seed: [u8; 32])
        requires
            old(self).wf(),
        ensures
            final(self).wf(),
            final(self)@ == (PalletView { random_seed: seed@, ..old(self)@ }),
    {
        self.random_seed = seed;
    }

    /// Sets the index that tells the current operation apart from the
    /// others under the same seed.
    pub fn set_extrinsic_index(&mut self, index: u32)
        requires
            old(self).wf(),
        ensures
            final(self).wf(),
            final(self)@ == (PalletView { extrinsic_index: index, ..old(self)@ }),
    {
        self.extrinsic_index = index;
    }

    /// Allocates the next id: returns the counter and increments it, or
    /// fails with `Overflow`, leaving it unchanged, when it is at its maximum.
    fn get_next_id(&mut self) -> (r: Result<KittyId, Error>)
        requires
            old(self).wf(),
        ensures
            final(self).wf(),
            old(self)@.next_kitty_id == KittyId::MAX ==> r == Err::<KittyId, Error>(Error::Overflow)
                && final(self)@ == old(self)@,
            old(self)@.next_kitty_id < KittyId::MAX ==> r == Ok::<KittyId, Error>(
                old(self)@.next_kitty_id,
            ) && final(self)@ == (PalletView {
                next_kitty_id: (old(self)@.next_kitty_id + 1) as KittyId,
                ..old(self)@
            }),
    {
        let current_id = self.next_kitty_id;
        match current_id.checked_add(1) {
            Some(next) => {
                self.next_kitty_id = next;
                Ok(current_id)
            },
            None => Err(Error::Overflow),
        }
    }

    /// The 16 random bytes that `who` draws in the current context.
    fn random_value(&self, who: AccountId) -> (r: [u8; 16])
        ensures
            r@ == self@.random_for(who),
    {
        random_value(&self.random_seed, who, self.extrinsic_index)
    }

    /// Records `kitty` under `id`, owned by `who`, with its parent record.
    fn store_kitty(
        &mut self,
        id: KittyId,
        who: AccountId,
        kitty: Kitty,
        parents: Option<(KittyId, KittyId)>,
        event: Event,
    )
        requires
            old(self).wf(),
            old(self)@.next_kitty_id == id + 1,
        ensures
            final(self).wf(),
            final(self)@ == old(self)@.stored(id, who, kitty, parents, event),
    {
        let bytes = kitty.encode();
        self.insert_encoded(id, bytes);
        self.kitty_owner.insert(id, who);
        match parents {
            Some(p) => {
                self.kitty_parents.insert(id, p);
            },
            None => {
                self.kitty_parents.remove(&id);
            },
        }
        self.events.push(event);
    }

    /// Creates a kitty owned by `who` from fresh random dna, with no parents.
    pub fn create(&mut self, who: AccountId) -> (r: Result<KittyId, Error>)
        requires
            old(self).wf(),
        ensures
            final(self).wf(),
            r is Err <==> old(self)@.next_kitty_id == KittyId::MAX,
            r matches Err(e) ==> e == Error::Overflow && final(self)@ == old(self)@,
            r matches Ok(id) ==> {
                let kitty = newborn(old(self)@.random_for(who));
                &&& id == old(self)@.next_kitty_id
                &&& final(self)@.next_kitty_id == id + 1
                &&& final(self)@.has_kitty(id)
                &&& final(self)@.owners[id] == who
                &&& !final(self)@.parents.contains_key(id)
                &&& final(self)@ == old(self)@.stored(
                    id,
                    who,
                    kitty,
                    None,
                    Event::KittyCreated { who, kitty_id: id, kitty },
                )
            },
    {
        let kitty_id = self.get_next_id()?;
        let kitty = Kitty { dna: self.random_value(who), name: [0u8; 8] };
        proof {
            assert(kitty.name@ =~= blank_name());
            assert(newborn(old(self)@.random_for(who)).dna =~= kitty.dna);
            assert(newborn(old(self)@.random_for(who)).name =~= kitty.name);
        }
        self.store_kitty(kitty_id, who, kitty, None, Event::KittyCreated { who, kitty_id, kitty });
        Ok(kitty_id)
    }

    /// Breeds a kitty owned by `who` from the kitties under `kitty_id_1`
    /// and `kitty_id_2`; the parents are validated before an id is allocated.
    pub fn breed(&mut self, who: AccountId, kitty_id_1: KittyId, kitty_id_2: KittyId) -> (r:
        Result<KittyId, Error>)
        requires
            old(self).wf(),
        ensures
            final(self).wf(),
            r is Ok <==> kitty_id_1 != kitty_id_2 && old(self)@.has_kitty(kitty_id_1)
                && old(self)@.has_kitty(kitty_id_2) && old(self)@.next_kitty_id < KittyId::MAX,
            kitty_id_1 == kitty_id_2 ==> r == Err::<KittyId, Error>(Error::SameParent),
            kitty_id_1 != kitty_id_2 && !(old(self)@.has_kitty(kitty_id_1) && old(
                self,
            )@.has_kitty(kitty_id_2)) ==> r == Err::<KittyId, Error>(Error::NotFound),
            kitty_id_1 != kitty_id_2 && old(self)@.has_kitty(kitty_id_1) && old(self)@.has_kitty(
                kitty_id_2,
            ) && old(self)@.next_kitty_id == KittyId::MAX ==> r == Err::<KittyId, Error>(
                Error::Overflow,
            ),
            r is Err ==> final(self)@ == old(self)@,
            r matches Ok(id) ==> {
                let kitty = newborn(
                    mix_dna(
                        dna_of(old(self)@.kitties[kitty_id_1]),
                        dna_of(old(self)@.kitties[kitty_id_2]),
                        old(self)@.random_for(who),
                    ),
                );
                &&& id == old(self)@.next_kitty_id
                &&& final(self)@.has_kitty(id)
                &&& final(self)@.parents[id] == (kitty_id_1, kitty_id_2)
                &&& final(self)@ == old(self)@.stored(
                    id,
                    who,
                    kitty,
                    Some((kitty_id_1, kitty_id_2)),
                    Event::KittyBreed { who, kitty_id: id, kitty },
                )
            },
    {
        if kitty_id_1 == kitty_id_2 {
            return Err(Error::SameParent);
        }
        let kitty_1 = match self.kitties(kitty_id_1) {
            Some(k) => k,
            None => return Err(Error::NotFound),
        };
        let kitty_2 = match self.kitties(kitty_id_2) {
            Some(k) => k,
            None => return Err(Error::NotFound),
        };
        let kitty_id = self.get_next_id()?;
        let selector = self.random_value(who);
        let kitty = Kitty { dna: breed_dna(&kitty_1.dna, &kitty_2.dna, &selector), name: [0u8; 8] };
        proof {
            let dna = mix_dna(
                dna_of(old(self)@.kitties[kitty_id_1]),
                dna_of(old(self)@.kitties[kitty_id_2]),
                old(self)@.random_for(who),
            );
            assert(kitty_1.dna@ =~= dna_of(old(self)@.kitties[kitty_id_1]));
            assert(kitty_2.dna@ =~= dna_of(old(self)@.kitties[kitty_id_2]));
            assert(kitty.name@ =~= blank_name());
            assert(newborn(dna).dna =~= kitty.dna);
            assert(newborn(dna).name =~= kitty.name);
        }
        self.store_kitty(
            kitty_id,
            who,
            kitty,
            Some((kitty_id_1, kitty_id_2)),
            Event::KittyBreed { who, kitty_id, kitty },
        );
        Ok(kitty_id)
    }

    /// Hands the kitty under `kitty_id` from `who`, its owner, to `recipient`.
    pub fn transfer(&mut self, who: AccountId, recipient: AccountId, kitty_id: KittyId) -> (r:
        Result<(), Error>)
        requires
            old(self).wf(),
        ensures
            final(self).wf(),
            r is Ok <==> old(self)@.owners.contains_key(kitty_id) && old(self)@.owners[kitty_id]
                == who,
            r matches Err(e) ==> e == Error::NotOwner && final(self)@ == old(self)@,
            r is Ok ==> final(self)@ == (PalletView {
                owners: old(self)@.owners.insert(kitty_id, recipient),
                events: old(self)@.events.push(
                    Event::KittyTransferred { who, recipient, kitty_id },
                ),
                ..old(self)@
            }),
    {
        match self.kitty_owner(kitty_id) {
            Some(owner) => {
                if owner != who {
                    return Err(Error::NotOwner);
                }
            },
            None => return Err(Error::NotOwner),
        }
        self.kitty_owner.insert(kitty_id, recipient);
        self.events.push(Event::KittyTransferred { who, recipient, kitty_id });
        Ok(())
    }

    /// Re-encodes every stored kitty by `step`, without touching the version.
    fn upgrade_kitties(&mut self, step: Upgrade)
        requires
            old(self).wf(),
            old(self)@.encoded_under(step.from_version()),
        ensures
            final(self).wf(),
            final(self)@ == (PalletView {
                kitties: old(self)@.kitties.map_values(|b: Seq<u8>| step.apply(b)),
                ..old(self)@
            }),
    {
        let n = self.kitty_ids.len();
        let mut i: usize = 0;
        while i < n
            invariant
                self.wf(),
                n == self.kitty_ids@.len(),
                i <= n,
                self.kitty_ids@ == old(self).kitty_ids@,
                self.kitties@.dom() == old(self).kitties@.dom(),
                forall|j: int|
                    #![trigger self.kitty_ids@[j]]
                    0 <= j < i ==> self.kitties@[self.kitty_ids@[j]]@ == step.apply(
                        old(self).kitties@[self.kitty_ids@[j]]@,
                    ),
                forall|j: int|
                    #![trigger self.kitty_ids@[j]]
                    i <= j < n ==> self.kitties@[self.kitty_ids@[j]] == old(
                        self,
                    ).kitties@[self.kitty_ids@[j]],
                self.next_kitty_id == old(self).next_kitty_id,
                self.kitty_owner@ == old(self).kitty_owner@,
                self.kitty_parents@ == old(self).kitty_parents@,
                self.storage_version == old(self).storage_version,
                self.random_seed == old(self).random_seed,
                self.extrinsic_index == old(self).extrinsic_index,
                self.events@ == old(self).events@,
                old(self)@.encoded_under(step.from_version()),
            decreases n - i,
        {
            let k = self.kitty_ids[i];
            proof {
                assert(self.kitty_ids@.contains(k));
                assert(old(self)@.kitties.contains_key(k));
            }
            let upgraded = match self.kitties.get(&k) {
                Some(bytes) => upgrade_value(step, bytes.as_slice()),
                None => Vec::new(),
            };
            self.kitties.insert(k, upgraded);
            proof {
                assert forall|j: int|
                    #![trigger self.kitty_ids@[j]]
                    0 <= j < n && j != i implies self.kitty_ids@[j] != k by {}
            }
            i += 1;
        }
        proof {
            let target = old(self)@.kitties.map_values(|b: Seq<u8>| step.apply(b));
            assert forall|k: KittyId| #[trigger] self@.kitties.contains_key(k) implies self@.kitties[k]
                == target[k] by {
                assert(self.kitty_ids@.contains(k));
                let j = choose|j: int| 0 <= j < n && self.kitty_ids@[j] == k;
            }
            assert(self@.kitties =~= target);
        }
    }

    /// Runs `step` if the store is at the step's source version, then
    /// advances the version to the step's target; otherwise does nothing.
    /// The stored bytes must be in the layout of the declared version.
    pub fn run_upgrade(&mut self, step: Upgrade)
        requires
            old(self).wf(),
            old(self)@.storage_version == step.from_version() ==> old(self)@.encoded_under(
                step.from_version(),
            ),
        ensures
            final(self).wf(),
            final(self)@ == old(self)@.upgraded(step),
            old(self)@.encoded_under(old(self)@.storage_version) ==> final(self)@.encoded_under(
                final(self)@.storage_version,
            ),
    {
        if self.storage_version == step.source_version() {
            self.upgrade_kitties(step);
            self.storage_version = step.target_version();
            assert(self@ =~= old(self)@.upgraded(step));
        }
    }

    /// Migrates the store to storage version `target`: the step into
    /// `target` runs if the store is at version `target - 1`; in every
    /// other case, including a second call, nothing happens.
    pub fn migrate(&mut self, target: u16)
        requires
            old(self).wf(),
            1 <= target <= 2 && old(self)@.storage_version + 1 == target ==> old(
                self,
            )@.encoded_under(old(self)@.storage_version),
        ensures
            final(self).wf(),
            final(self)@ == old(self)@.migrated(target),
            old(self)@.encoded_under(old(self)@.storage_version) ==> final(self)@.encoded_under(
                final(self)@.storage_version,
            ),
    {
        if target == 1 {
            self.run_upgrade(Upgrade::V0ToV1);
        } else if target == 2 {
            self.run_upgrade(Upgrade::V1ToV2);
        }
    }
}

} // verus!
