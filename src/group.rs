use vstd::prelude::*;
use crate::status::GroupStatus;

verus! {

/// A principal: an identity whose control the host has proven.
#[derive(Copy, Clone, Debug, PartialEq, Eq, Structural, Hash)]
pub struct Address {
    pub id: u64,
}

/// The authoritative record of one savings circle.
#[derive(Debug, PartialEq, Eq)]
pub struct Group {
    /// Positive sequence number, assigned at creation.
    pub id: u64,
    /// The only principal allowed to activate or cancel the group.
    pub admin: Address,
    /// Display label.
    pub name: String,
    /// What each member pays in each cycle.
    pub contribution_amount: i128,
    /// Seconds between payout cycles.
    pub cycle_duration: u64,
    /// Capacity ceiling.
    pub max_members: u32,
    /// Current membership.
    pub member_count: u32,
    pub status: GroupStatus,
    /// When the group was created.
    pub created_at: u64,
    /// When the group became active; 0 before that.
    pub start_time: u64,
    /// The rotation cursor: how many payouts the group has made.
    pub current_cycle: u32,
}

/// The activity predicate: active status with a membership in `1..=max_members`.
pub open spec fn group_is_active(g: Group) -> bool {
    g.status == GroupStatus::Active && 1 <= g.member_count && g.member_count <= g.max_members
}

impl Group {
    /// Whether the record is active with a membership in `1..=max_members`.
    pub fn is_active(&self) -> (r: bool)
        ensures
            r == group_is_active(*self),
    {
        self.status == GroupStatus::Active && 1 <= self.member_count && self.member_count
            <= self.max_members
    }

    /// A copy of the record.
    pub fn duplicate(&self) -> (r: Group)
        ensures
            r == *self,
    {
        Group {
            id: self.id,
            admin: self.admin,
            name: self.name.clone(),
            contribution_amount: self.contribution_amount,
            cycle_duration: self.cycle_duration,
            max_members: self.max_members,
            member_count: self.member_count,
            status: self.status,
            created_at: self.created_at,
            start_time: self.start_time,
            current_cycle: self.current_cycle,
        }
    }
}

} // verus!
