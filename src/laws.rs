//! Properties that relate several engine operations, stated over the
//! abstract state and the outcome of each operation.
use vstd::prelude::*;
use crate::contract::{
    SaveState, activate_outcome, cancel_outcome, contribute_outcome, contribution_check, has_group,
    join_outcome, lookup, payout_check, refund_check, payout_outcome, refund_outcome, save_outcome,
};
use crate::error::Error;
use crate::events::Event;
use crate::group::{Address, Group, group_is_active};
use crate::payout::PayoutRecord;
use crate::status::GroupStatus;

verus! {

/// An id that was never handed out names no group: reading it finds
/// nothing, the group counts as inactive, and every operation on it fails
/// with `GroupNotFound` and changes nothing.
pub proof fn lemma_unknown_ids_are_not_found(
    s: SaveState,
    caller: Address,
    id: u64,
    now: u64,
    transferred: bool,
)
    requires
        !has_group(s, id),
    ensures
        lookup(s, id) is None,
        join_outcome(s, caller, id) == (Err::<(), Error>(Error::GroupNotFound), s),
        activate_outcome(s, caller, id, now) == (Err::<(), Error>(Error::GroupNotFound), s),
        contribution_check(s, id) == Err::<i128, Error>(Error::GroupNotFound),
        payout_check(s, id) == Err::<(Address, i128), Error>(Error::GroupNotFound),
        refund_check(s, caller, id) == Err::<(Address, i128), Error>(Error::GroupNotFound),
        cancel_outcome(s, caller, id) == (Err::<(), Error>(Error::GroupNotFound), s),
{
}

/// The number of groups created grows by exactly one with each successful
/// creation and is left unchanged by every other operation, successful or not.
pub proof fn lemma_counter_moves_only_on_creation(
    s: SaveState,
    caller: Address,
    id: u64,
    group: Group,
    now: u64,
    transferred: bool,
)
    ensures
        save_outcome(s, group).1.groups.len() == s.groups.len(),
        join_outcome(s, caller, id).1.groups.len() == s.groups.len(),
        activate_outcome(s, caller, id, now).1.groups.len() == s.groups.len(),
        contribute_outcome(s, caller, id, transferred).1.groups.len() == s.groups.len(),
        payout_outcome(s, id, transferred, now).1.groups.len() == s.groups.len(),
        refund_outcome(s, caller, id, transferred).1.groups.len() == s.groups.len(),
        cancel_outcome(s, caller, id).1.groups.len() == s.groups.len(),
{
}

/// A failed step leaves the state as it was; a successful one appends exactly
/// one event.
pub open spec fn atomic_step(s: SaveState, t: SaveState, succeeded: bool) -> bool {
    &&& !succeeded ==> t == s
    &&& succeeded ==> t.events.len() == s.events.len() + 1 && t.events.drop_last() == s.events
}

/// Every operation either fails and leaves the state exactly as it was, or
/// succeeds and emits exactly one event, appended to the event log.
pub proof fn lemma_operations_are_atomic(
    s: SaveState,
    caller: Address,
    id: u64,
    now: u64,
    transferred: bool,
)
    ensures
        ({
            let (r, t) = join_outcome(s, caller, id);
            atomic_step(s, t, r is Ok)
        }),
        ({
            let (r, t) = activate_outcome(s, caller, id, now);
            atomic_step(s, t, r is Ok)
        }),
        ({
            let (r, t) = contribute_outcome(s, caller, id, transferred);
            atomic_step(s, t, r is Ok)
        }),
        ({
            let (r, t) = payout_outcome(s, id, transferred, now);
            atomic_step(s, t, r is Ok)
        }),
        ({
            let (r, t) = refund_outcome(s, caller, id, transferred);
            atomic_step(s, t, r is Ok)
        }),
        ({
            let (r, t) = cancel_outcome(s, caller, id);
            atomic_step(s, t, r is Ok)
        }),
{
    assert forall|e: Event| #[trigger] s.events.push(e).drop_last() == s.events by {
        assert(s.events.push(e).drop_last() =~= s.events);
    }
}

/// Activating a forming group as its admin fails with `GroupNotActive` and
/// changes nothing when it has no members; with at least one member it
/// succeeds, making the group `Active` with `start_time` equal to `now`.
pub proof fn lemma_activation(s: SaveState, id: u64, now: u64)
    requires
        has_group(s, id),
        s.groups[id - 1].status == GroupStatus::Forming,
    ensures
        ({
            let g = s.groups[id - 1];
            let (r, t) = activate_outcome(s, g.admin, id, now);
            &&& g.member_count == 0 ==> r == Err::<(), Error>(Error::GroupNotActive) && t == s
            &&& g.member_count >= 1 ==> {
                &&& r == Ok::<(), Error>(())
                &&& t.groups[id - 1].status == GroupStatus::Active
                &&& t.groups[id - 1].start_time == now
                &&& t.groups[id - 1].member_count == g.member_count
            }
        }),
{
}

/// Once a group has been activated, activating it again fails with
/// `InvalidGroupStatus` and changes nothing.
pub proof fn lemma_activation_is_not_repeatable(
    s: SaveState,
    caller: Address,
    id: u64,
    now: u64,
    later: u64,
)
    requires
        activate_outcome(s, caller, id, now).0 is Ok,
    ensures
        ({
            let t = activate_outcome(s, caller, id, now).1;
            activate_outcome(t, caller, id, later) == (Err::<(), Error>(Error::InvalidGroupStatus), t)
        }),
{
}

/// A payout whose outbound transfer fails leaves the whole state unchanged:
/// membership, status, rotation cursor and payout log.
pub proof fn lemma_failed_payout_changes_nothing(s: SaveState, id: u64, now: u64)
    ensures
        payout_outcome(s, id, false, now).1 == s,
        payout_outcome(s, id, false, now).0 is Err,
        payout_check(s, id) is Ok ==> payout_outcome(s, id, false, now).0 == Err::<
            PayoutRecord,
            Error,
        >(Error::FailedToTransferToRecipient),
{
}

/// A successful payout appends exactly one record, for the paying group's
/// current cycle, whose amount is the contribution times the member count;
/// the records already written stay as they were.
pub proof fn lemma_payout_appends_one_record(s: SaveState, id: u64, now: u64)
    requires
        payout_outcome(s, id, true, now).0 is Ok,
    ensures
        ({
            let (r, t) = payout_outcome(s, id, true, now);
            let rec = r->Ok_0;
            let g = s.groups[id - 1];
            &&& has_group(s, id)
            &&& group_is_active(g)
            &&& t.payouts == s.payouts.push(rec)
            &&& t.payouts.len() == s.payouts.len() + 1
            &&& forall|i: int| 0 <= i < s.payouts.len() ==> t.payouts[i] == s.payouts[i]
            &&& rec.group_id == id
            &&& rec.cycle_index == g.current_cycle
            &&& rec.amount == g.contribution_amount * g.member_count
            &&& rec.timestamp == now
            &&& t.groups[id - 1].current_cycle == g.current_cycle + 1
        }),
{
}

/// No operation rewrites or removes a payout record already written.
pub proof fn lemma_payout_log_is_append_only(
    s: SaveState,
    caller: Address,
    id: u64,
    group: Group,
    now: u64,
    transferred: bool,
)
    ensures
        save_outcome(s, group).1.payouts == s.payouts,
        join_outcome(s, caller, id).1.payouts == s.payouts,
        activate_outcome(s, caller, id, now).1.payouts == s.payouts,
        contribute_outcome(s, caller, id, transferred).1.payouts == s.payouts,
        s.payouts.is_prefix_of(payout_outcome(s, id, transferred, now).1.payouts),
        refund_outcome(s, caller, id, transferred).1.payouts == s.payouts,
        cancel_outcome(s, caller, id).1.payouts == s.payouts,
{
    let t = payout_outcome(s, id, transferred, now).1;
    assert(s.payouts.is_prefix_of(t.payouts)) by {
        if t.payouts != s.payouts {
            assert(t.payouts.subrange(0, s.payouts.len() as int) =~= s.payouts);
        }
    }
}

} // verus!
