use vstd::prelude::*;
use crate::group::Address;

verus! {

/// A notification for observers, recorded once per successful operation.
#[derive(Copy, Clone, Debug, PartialEq, Eq, Structural)]
pub enum Event {
    GroupCreated { group_id: u64, admin: Address },
    MemberJoined { group_id: u64, member: Address },
    GroupActivated { group_id: u64, start_time: u64 },
    ContributionReceived { group_id: u64, member: Address, amount: i128 },
    PayoutCompleted { group_id: u64, cycle_index: u32, recipient: Address, amount: i128 },
    ContributionRefunded { group_id: u64, member: Address, amount: i128 },
    GroupCancelled { group_id: u64 },
}

} // verus!
