//! Upgrade of kitties stored in older layouts to the current one.

use vstd::prelude::*;

use crate::types::{Kitty, KittyId};

verus! {

/// A kitty in storage layout 0: genes only.
#[derive(Clone, Copy, Debug, PartialEq, Eq)]
pub struct V0Kitty(pub [u8; 16]);

/// A kitty in storage layout 1: genes and a four-byte name.
#[derive(Clone, Copy, Debug, PartialEq, Eq)]
pub struct V1Kitty {
    pub dna: [u8; 16],
    pub name: [u8; 4],
}

/// The name that layout-0 kitties get when they are upgraded: the bytes of `"abcdxxxx"`.
pub open spec fn default_name() -> Seq<u8> {
    seq![97u8, 98u8, 99u8, 100u8, 120u8, 120u8, 120u8, 120u8]
}

/// `kitty` is the upgrade of the layout-0 kitty `old`: same genes, the default name.
pub open spec fn upgrades_v0(old: V0Kitty, kitty: Kitty) -> bool {
    kitty.dna == old.0 && kitty.name@ == default_name()
}

/// `kitty` is the upgrade of the layout-1 kitty `old`: same genes, and a name made of the
/// four bytes of the old name followed by four zero bytes.
pub open spec fn upgrades_v1(old: V1Kitty, kitty: Kitty) -> bool {
    kitty.dna == old.dna && kitty.name@ == old.name@ + seq![0u8, 0u8, 0u8, 0u8]
}

/// Upgrades a layout-0 kitty: it keeps its genes and is named `"abcdxxxx"`.
pub fn upgrade_v0(old: V0Kitty) -> (kitty: Kitty)
    ensures
        upgrades_v0(old, kitty),
{
    let name: [u8; 8] = [97u8, 98u8, 99u8, 100u8, 120u8, 120u8, 120u8, 120u8];
    let kitty = Kitty { dna: old.0, name };
    assert(kitty.name@ =~= default_name());
    kitty
}

/// Upgrades a layout-1 kitty: it keeps its genes, and its name is padded with zero bytes.
pub fn upgrade_v1(old: V1Kitty) -> (kitty: Kitty)
    ensures
        upgrades_v1(old, kitty),
{
    let mut result: [u8; 8] = [0u8; 8];
    let mut i: usize = 0;
    while i < 4
        invariant
            0 <= i <= 4,
            forall|j: int| 0 <= j < i ==> #[trigger] result[j] == old.name[j],
            forall|j: int| 4 <= j < 8 ==> #[trigger] result[j] == 0,
        decreases 4 - i,
    {
        result[i] = old.name[i];
        i = i + 1;
    }
    let kitty = Kitty { name: result, dna: old.dna };
    assert(kitty.name@ =~= old.name@ + seq![0u8, 0u8, 0u8, 0u8]);
    kitty
}

/// The migration applies exactly when storage is at version 0 and the code at version 1.
pub open spec fn migration_applies(on_chain_version: u16, current_version: u16) -> bool {
    on_chain_version == 0 && current_version == 1
}

/// `entries` is what the migration writes for the layout-0 kitties `stored`: the same
/// identifiers in the same order, each kitty upgraded.
pub open spec fn is_migration_of(stored: Seq<(KittyId, V0Kitty)>, entries: Seq<(KittyId, Kitty)>) -> bool {
    &&& entries.len() == stored.len()
    &&& forall|i: int|
        0 <= i < stored.len() ==> (#[trigger] entries[i]).0 == stored[i].0 && upgrades_v0(
            stored[i].1,
            entries[i].1,
        )
}

/// The migrated entries read back in layout 0, as a second run of the migration reads them:
/// a stored kitty begins with its genes, which is all that layout 0 holds.
pub open spec fn read_back_as_v0(entries: Seq<(KittyId, Kitty)>) -> Seq<(KittyId, V0Kitty)> {
    entries.map_values(|entry: (KittyId, Kitty)| (entry.0, V0Kitty(entry.1.dna)))
}

/// Migrating twice leaves what migrating once leaves: running the migration again on the
/// kitties it wrote, read back in layout 0, writes the same entries.
pub proof fn law_migration_is_idempotent(
    stored: Seq<(KittyId, V0Kitty)>,
    first: Seq<(KittyId, Kitty)>,
    second: Seq<(KittyId, Kitty)>,
)
    requires
        is_migration_of(stored, first),
        is_migration_of(read_back_as_v0(first), second),
    ensures
        second == first,
{
    assert forall|i: int| 0 <= i < first.len() implies #[trigger] second[i] == first[i] by {
        assert(read_back_as_v0(first)[i] == (first[i].0, V0Kitty(first[i].1.dna)));
        assert(second[i].1.name =~= first[i].1.name);
    }
    assert(second =~= first);
}

/// Migrates the kitties map from storage version 0 to version 1. When the on-chain version
/// is 0 and the current one is 1, every stored layout-0 kitty is to be replaced by its
/// upgrade under the same identifier, and the upgraded entries are returned; otherwise
/// storage is to be left alone and `None` is returned.
pub fn migrate(
    on_chain_version: u16,
    current_version: u16,
    stored: &Vec<(KittyId, V0Kitty)>,
) -> (upgraded: Option<Vec<(KittyId, Kitty)>>)
    ensures
        upgraded is Some <==> migration_applies(on_chain_version, current_version),
        upgraded matches Some(entries) ==> is_migration_of(stored@, entries@),
{
    if on_chain_version != 0 {
        return None;
    }
    if current_version != 1 {
        return None;
    }
    let mut entries: Vec<(KittyId, Kitty)> = Vec::new();
    let mut i: usize = 0;
    while i < stored.len()
        invariant
            0 <= i <= stored@.len(),
            entries@.len() == i,
            forall|j: int|
                0 <= j < i ==> (#[trigger] entries@[j]).0 == stored@[j].0 && upgrades_v0(
                    stored@[j].1,
                    entries@[j].1,
                ),
        decreases stored@.len() - i,
    {
        let (index, kitty) = stored[i];
        entries.push((index, upgrade_v0(kitty)));
        i = i + 1;
    }
    Some(entries)
}

/// The migration runs for storage version 0 and code version 1 and for no other pair; each
/// kitty it writes keeps the identifier and the genes of the stored one and is named with the
/// bytes of `"abcdxxxx"`.
pub proof fn law_migration_upgrades_each_kitty(
    on_chain_version: u16,
    current_version: u16,
    stored: Seq<(KittyId, V0Kitty)>,
    entries: Seq<(KittyId, Kitty)>,
)
    ensures
        migration_applies(on_chain_version, current_version) == (on_chain_version == 0
            && current_version == 1),
        (is_migration_of(stored, entries) ==> {
            &&& entries.len() == stored.len()
            &&& forall|i: int|
                0 <= i < stored.len() ==> (#[trigger] entries[i]).0 == stored[i].0 && entries[i].1.dna
                    == stored[i].1.0 && entries[i].1.name@ == seq![
                    97u8,
                    98u8,
                    99u8,
                    100u8,
                    120u8,
                    120u8,
                    120u8,
                    120u8,
                ]
        }),
{
}

} // verus!
