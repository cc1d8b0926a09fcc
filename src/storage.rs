use vstd::prelude::*;

verus! {

/// The address under which one logical entity is stored.
#[derive(Copy, Clone, Debug, PartialEq, Eq, Structural)]
pub enum StorageKey {
    /// The record of the group with this id.
    Group(u64),
    /// The global count of groups ever created.
    TotalGroups,
    /// The payout record of a group for one cycle.
    Payout(u64, u32),
    /// The member of a group at one position of its join order.
    Member(u64, u32),
}

/// Builds storage keys; building a key reads and writes nothing.
pub struct StorageKeyBuilder;

impl StorageKeyBuilder {
    pub fn group_key(group_id: u64) -> (r: StorageKey)
        ensures
            r == StorageKey::Group(group_id),
    {
        StorageKey::Group(group_id)
    }

    pub fn total_groups_key() -> (r: StorageKey)
        ensures
            r == StorageKey::TotalGroups,
    {
        StorageKey::TotalGroups
    }

    pub fn payout_key(group_id: u64, cycle: u32) -> (r: StorageKey)
        ensures
            r == StorageKey::Payout(group_id, cycle),
    {
        StorageKey::Payout(group_id, cycle)
    }

    pub fn member_key(group_id: u64, index: u32) -> (r: StorageKey)
        ensures
            r == StorageKey::Member(group_id, index),
    {
        StorageKey::Member(group_id, index)
    }
}

/// Keys are collision-free: two keys of the same family are equal only for
/// equal inputs, and keys of different families never coincide.
pub proof fn lemma_keys_are_unique(g1: u64, g2: u64, c1: u32, c2: u32)
    ensures
        (StorageKey::Group(g1) == StorageKey::Group(g2)) == (g1 == g2),
        (StorageKey::Payout(g1, c1) == StorageKey::Payout(g2, c2)) == (g1 == g2 && c1 == c2),
        (StorageKey::Member(g1, c1) == StorageKey::Member(g2, c2)) == (g1 == g2 && c1 == c2),
        StorageKey::Group(g1) != StorageKey::TotalGroups,
        StorageKey::Group(g1) != StorageKey::Payout(g2, c2),
        StorageKey::Group(g1) != StorageKey::Member(g2, c2),
        StorageKey::TotalGroups != StorageKey::Payout(g2, c2),
        StorageKey::TotalGroups != StorageKey::Member(g2, c2),
        StorageKey::Payout(g1, c1) != StorageKey::Member(g2, c2),
{
}

} // verus!
