use vstd::prelude::*;
use crate::group::Address;

verus! {

/// The audit record of one completed payout. Written once, never changed.
#[derive(Copy, Clone, Debug, PartialEq, Eq, Structural)]
pub struct PayoutRecord {
    /// The group that paid out.
    pub group_id: u64,
    /// The position of this payout in the group's rotation, from 0.
    pub cycle_index: u32,
    /// The member who received the pool.
    pub recipient: Address,
    /// The amount transferred.
    pub amount: i128,
    /// When the transfer succeeded.
    pub timestamp: u64,
}

} // verus!
