//! Upgrading the stored kitties from one layout to the next.
//!
//! Each step reads every stored kitty under the old layout, fills in the
//! fields that the new layout adds, and writes it back under the same id.
//! A step runs only on a store whose version is the step's source version,
//! so running it again after it has completed does nothing.

use vstd::prelude::*;
use crate::kitty::{layout_width, Kitty, KittyId, V0Kitty, V1Kitty};
use crate::pallet::{Pallet, PalletView};

verus! {

/// A version-0 kitty, the layout that the first upgrade reads.
pub type OldKitty = V0Kitty;

/// One upgrade between two layouts.
#[derive(Clone, Copy, Debug, PartialEq, Eq, Structural)]
pub enum Upgrade {
    /// Adds the 4-byte name `abcd`.
    V0ToV1,
    /// Widens the name to 8 bytes by appending `0987`.
    V1ToV2,
    /// Adds the 8-byte name `abcdxxxx`.
    V0ToV2,
}

/// The name given to a kitty on the way from version 0 to version 1.
pub open spec fn v1_placeholder_name() -> Seq<u8> {
    seq![97u8, 98u8, 99u8, 100u8]
}

/// The bytes appended to a version-1 name on the way to version 2.
pub open spec fn v2_name_suffix() -> Seq<u8> {
    seq![48u8, 57u8, 56u8, 55u8]
}

/// The name given to a kitty on the way from version 0 straight to version 2.
pub open spec fn v2_placeholder_name() -> Seq<u8> {
    seq![97u8, 98u8, 99u8, 100u8, 120u8, 120u8, 120u8, 120u8]
}

impl Upgrade {
    pub open spec fn from_version(self) -> u16 {
        match self {
            Upgrade::V0ToV1 => 0,
            Upgrade::V1ToV2 => 1,
            Upgrade::V0ToV2 => 0,
        }
    }

    pub open spec fn to_version(self) -> u16 {
        match self {
            Upgrade::V0ToV1 => 1,
            Upgrade::V1ToV2 => 2,
            Upgrade::V0ToV2 => 2,
        }
    }

    pub fn source_version(&self) -> (r: u16)
        ensures
            r == self.from_version(),
    {
        match self {
            Upgrade::V0ToV1 => 0,
            Upgrade::V1ToV2 => 1,
            Upgrade::V0ToV2 => 0,
        }
    }

    pub fn target_version(&self) -> (r: u16)
        ensures
            r == self.to_version(),
    {
        match self {
            Upgrade::V0ToV1 => 1,
            Upgrade::V1ToV2 => 2,
            Upgrade::V0ToV2 => 2,
        }
    }

    /// The new encoding of a kitty encoded as `bytes` under the old layout:
    /// its dna, and for version 1 its name, are kept as a prefix.
    pub open spec fn apply(self, bytes: Seq<u8>) -> Seq<u8> {
        match self {
            Upgrade::V0ToV1 => bytes.subrange(0, 16) + v1_placeholder_name(),
            Upgrade::V1ToV2 => bytes.subrange(0, 20) + v2_name_suffix(),
            Upgrade::V0ToV2 => bytes.subrange(0, 16) + v2_placeholder_name(),
        }
    }
}

/// A version-1 name widened to 8 bytes: the name, then `append`.
pub fn rename(v1_name: &[u8; 4], append: &[u8; 4]) -> (r: [u8; 8])
    ensures
        r@ == v1_name@ + append@,
{
    let mut result = [0u8; 8];
    let mut i: usize = 0;
    while i < 4
        invariant
            i <= 4,
            forall|k: int| 0 <= k < i ==> result@[k] == v1_name@[k],
            forall|k: int| 4 <= k < 8 ==> result@[k] == 0,
        decreases 4 - i,
    {
        result[i] = v1_name[i];
        i += 1;
    }
    let mut j: usize = 0;
    while j < 4
        invariant
            j <= 4,
            forall|k: int| 0 <= k < 4 ==> result@[k] == v1_name@[k],
            forall|k: int| 4 <= k < 4 + j ==> result@[k] == append@[k - 4],
        decreases 4 - j,
    {
        result[4 + j] = append[j];
        j += 1;
    }
    assert(result@ =~= v1_name@ + append@);
    result
}

/// Decodes `bytes` under the layout that `step` reads and re-encodes the
/// upgraded kitty under the layout that it writes.
pub fn upgrade_value(step: Upgrade, bytes: &[u8]) -> (r: Vec<u8>)
    requires
        bytes@.len() == layout_width(step.from_version()),
    ensures
        r@ == step.apply(bytes@),
        r@.len() == layout_width(step.to_version()),
{
    match step {
        Upgrade::V0ToV1 => {
            let old_kitty = V0Kitty::decode(bytes).unwrap();
            let new_kitty = V1Kitty { dna: old_kitty.0, name: [97u8, 98u8, 99u8, 100u8] };
            assert(new_kitty.name@ =~= v1_placeholder_name());
            assert(bytes@.subrange(0, 16) =~= bytes@);
            new_kitty.encode()
        },
        Upgrade::V1ToV2 => {
            let old_kitty = V1Kitty::decode(bytes).unwrap();
            let suffix = [48u8, 57u8, 56u8, 55u8];
            assert(suffix@ =~= v2_name_suffix());
            let new_kitty = Kitty { dna: old_kitty.dna, name: rename(&old_kitty.name, &suffix) };
            assert(bytes@.subrange(0, 20) =~= bytes@);
            assert(new_kitty.layout() =~= bytes@ + v2_name_suffix());
            new_kitty.encode()
        },
        Upgrade::V0ToV2 => {
            let old_kitty = V0Kitty::decode(bytes).unwrap();
            let new_kitty = Kitty {
                dna: old_kitty.0,
                name: [97u8, 98u8, 99u8, 100u8, 120u8, 120u8, 120u8, 120u8],
            };
            assert(new_kitty.name@ =~= v2_placeholder_name());
            assert(bytes@.subrange(0, 16) =~= bytes@);
            new_kitty.encode()
        },
    }
}

/// The direct step from version 0 to version 2, on a store at version 0.
pub fn from_v0_to_v2(pallet: &mut Pallet)
    requires
        old(pallet).wf(),
        old(pallet)@.storage_version == 0 ==> old(pallet)@.encoded_under(0),
    ensures
        final(pallet).wf(),
        final(pallet)@ == old(pallet)@.upgraded(Upgrade::V0ToV2),
{
    pallet.run_upgrade(Upgrade::V0ToV2);
}

/// The step from version 1 to version 2, on a store at version 1.
pub fn from_v1_to_v2(pallet: &mut Pallet)
    requires
        old(pallet).wf(),
        old(pallet)@.storage_version == 1 ==> old(pallet)@.encoded_under(1),
    ensures
        final(pallet).wf(),
        final(pallet)@ == old(pallet)@.upgraded(Upgrade::V1ToV2),
{
    pallet.run_upgrade(Upgrade::V1ToV2);
}

/// Migrating twice to the same version leaves the store as migrating once
/// does: the second migration does nothing.
pub proof fn lemma_migrate_idempotent(s: PalletView, target: u16)
    ensures
        s.migrated(target).migrated(target) == s.migrated(target),
{
}

/// After the migration to version 1 of a store whose kitties are all in the
/// version-0 layout, the same ids hold kitties, and each one reads under the
/// version-1 layout as the same dna with the name `abcd`.
pub proof fn lemma_v0_to_v1_complete(s: PalletView)
    requires
        s.storage_version == 0,
        s.encoded_under(0),
    ensures
        s.migrated(1).storage_version == 1,
        s.migrated(1).kitties.dom() == s.kitties.dom(),
        forall|k: KittyId| #[trigger]
            s.kitties.contains_key(k) ==> {
                let b = s.migrated(1).kitties[k];
                &&& b.len() == 20
                &&& b.subrange(0, 16) == s.kitties[k]
                &&& b.subrange(16, 20) == v1_placeholder_name()
            },
{
    assert(s.migrated(1).kitties.dom() =~= s.kitties.dom());
    assert forall|k: KittyId| #[trigger] s.kitties.contains_key(k) implies {
        let b = s.migrated(1).kitties[k];
        &&& b.len() == 20
        &&& b.subrange(0, 16) == s.kitties[k]
        &&& b.subrange(16, 20) == v1_placeholder_name()
    } by {
        let b = s.migrated(1).kitties[k];
        assert(s.kitties[k].subrange(0, 16) =~= s.kitties[k]);
        assert(b.subrange(0, 16) =~= s.kitties[k]);
        assert(b.subrange(16, 20) =~= v1_placeholder_name());
    }
}

} // verus!
