use vstd::prelude::*;
use crate::error::Error;
use crate::events::Event;
use crate::group::{Address, Group, group_is_active};
use crate::payout::PayoutRecord;
use crate::status::{GroupStatus, legal_transition, terminal};

verus! {

/// The whole state of the savings contract: every group, its roster in join
/// order, the contributions held in custody for its current cycle, and the
/// append-only logs of payouts and events.
pub struct StellarSave {
    total_groups: u64,
    groups: Vec<Group>,
    rosters: Vec<Vec<Address>>,
    held: Vec<Vec<Address>>,
    payouts: Vec<PayoutRecord>,
    events: Vec<Event>,
}

/// The abstract state of a [`StellarSave`]. The group with id `k` stands at
/// position `k - 1` of `groups`, `rosters` and `held`.
pub struct SaveState {
    pub groups: Seq<Group>,
    /// For each group, its members in join order.
    pub rosters: Seq<Seq<Address>>,
    /// For each group, who has contributed to the current cycle; each holds
    /// one contribution of the group's amount in custody.
    pub held: Seq<Seq<Address>>,
    /// Every payout ever made, oldest first.
    pub payouts: Seq<PayoutRecord>,
    /// Every event emitted, oldest first.
    pub events: Seq<Event>,
}

pub open spec fn seq_views(v: Seq<Vec<Address>>) -> Seq<Seq<Address>> {
    v.map_values(|x: Vec<Address>| x@)
}

/// Whether `id` names a group that was created.
pub open spec fn has_group(s: SaveState, id: u64) -> bool {
    1 <= id && id <= s.groups.len()
}

/// The group with id `id`, if it was created.
pub open spec fn lookup(s: SaveState, id: u64) -> Option<Group> {
    if has_group(s, id) {
        Some(s.groups[id - 1])
    } else {
        None
    }
}

/// The record that `create_group` stores.
pub open spec fn new_group(
    id: u64,
    admin: Address,
    name: String,
    contribution_amount: i128,
    cycle_duration: u64,
    max_members: u32,
    now: u64,
) -> Group {
    Group {
        id,
        admin,
        name,
        contribution_amount,
        cycle_duration,
        max_members,
        member_count: 0,
        status: GroupStatus::Forming,
        created_at: now,
        start_time: 0,
        current_cycle: 0,
    }
}

/// Whether the terms of a group are valid for creation.
pub open spec fn valid_terms(contribution_amount: i128, cycle_duration: u64, max_members: u32) -> bool {
    contribution_amount > 0 && cycle_duration > 0 && max_members > 0
}

/// The state with the group at `id` replaced by `g`.
pub open spec fn with_group(s: SaveState, id: u64, g: Group) -> SaveState {
    SaveState { groups: s.groups.update(id - 1, g), ..s }
}

/// The error for an operation that needs an active group.
pub open spec fn inactive_error(g: Group) -> Error {
    if g.status == GroupStatus::Completed {
        Error::GroupCompleted
    } else {
        Error::GroupNotActive
    }
}

/// Whether two records agree on everything that never changes after creation.
pub open spec fn same_terms(a: Group, b: Group) -> bool {
    &&& a.id == b.id
    &&& a.admin == b.admin
    &&& a.name@ == b.name@
    &&& a.contribution_amount == b.contribution_amount
    &&& a.cycle_duration == b.cycle_duration
    &&& a.max_members == b.max_members
    &&& a.created_at == b.created_at
}

/// The outcome of `save_group`: the stored record is overwritten unless the
/// group is unknown, already terminal, or the new record alters its terms.
pub open spec fn save_outcome(s: SaveState, group: Group) -> (Result<(), Error>, SaveState) {
    if !has_group(s, group.id) {
        (Err(Error::GroupNotFound), s)
    } else if terminal(s.groups[group.id - 1].status) || !same_terms(s.groups[group.id - 1], group) {
        (Err(Error::InvalidGroupStatus), s)
    } else {
        (Ok(()), with_group(s, group.id, group))
    }
}

/// The outcome of `join_group`: `caller` is appended to the roster of a
/// forming group that has room.
pub open spec fn join_outcome(s: SaveState, caller: Address, id: u64) -> (Result<(), Error>, SaveState) {
    if !has_group(s, id) {
        (Err(Error::GroupNotFound), s)
    } else {
        let g = s.groups[id - 1];
        if g.status == GroupStatus::Completed {
            (Err(Error::GroupCompleted), s)
        } else if g.status != GroupStatus::Forming {
            (Err(Error::InvalidGroupStatus), s)
        } else if g.member_count >= g.max_members {
            (Err(Error::MemberCountExceeded), s)
        } else {
            (
                Ok(()),
                SaveState {
                    groups: s.groups.update(id - 1, Group { member_count: (g.member_count + 1) as u32, ..g }),
                    rosters: s.rosters.update(id - 1, s.rosters[id - 1].push(caller)),
                    events: s.events.push(Event::MemberJoined { group_id: id, member: caller }),
                    ..s
                },
            )
        }
    }
}

/// The outcome of `activate_group`: the admin moves a forming group with at
/// least one member to `Active`, stamping `start_time` with `now`.
pub open spec fn activate_outcome(s: SaveState, caller: Address, id: u64, now: u64) -> (Result<(), Error>, SaveState) {
    if !has_group(s, id) {
        (Err(Error::GroupNotFound), s)
    } else {
        let g = s.groups[id - 1];
        if caller != g.admin {
            (Err(Error::Unauthorized), s)
        } else if !legal_transition(g.status, GroupStatus::Active) {
            (Err(Error::InvalidGroupStatus), s)
        } else if g.member_count == 0 {
            (Err(Error::GroupNotActive), s)
        } else {
            (
                Ok(()),
                SaveState {
                    events: s.events.push(Event::GroupActivated { group_id: id, start_time: now }),
                    ..with_group(s, id, Group { status: GroupStatus::Active, start_time: now, ..g })
                },
            )
        }
    }
}

/// What a contribution to group `id` must carry, or why none is accepted:
/// the group must be active and its current cycle not yet fully funded.
pub open spec fn contribution_check(s: SaveState, id: u64) -> Result<i128, Error> {
    if !has_group(s, id) {
        Err(Error::GroupNotFound)
    } else {
        let g = s.groups[id - 1];
        if !group_is_active(g) {
            Err(inactive_error(g))
        } else if s.held[id - 1].len() >= g.member_count {
            Err(Error::MemberCountExceeded)
        } else {
            Ok(g.contribution_amount)
        }
    }
}

/// The outcome of `contribute`: after a successful inbound transfer the
/// contribution is held in custody for the current cycle.
pub open spec fn contribute_outcome(s: SaveState, member: Address, id: u64, transferred: bool) -> (Result<(), Error>, SaveState) {
    match contribution_check(s, id) {
        Err(e) => (Err(e), s),
        Ok(amount) => if !transferred {
            (Err(Error::FailedToTransferFromMember), s)
        } else {
            (
                Ok(()),
                SaveState {
                    held: s.held.update(id - 1, s.held[id - 1].push(member)),
                    events: s.events.push(
                        Event::ContributionReceived { group_id: id, member, amount },
                    ),
                    ..s
                },
            )
        },
    }
}

/// The pool of group `id`: its contribution times its member count.
pub open spec fn pool_amount(g: Group) -> int {
    g.contribution_amount * g.member_count
}

/// Who is paid next in group `id` and how much, or why no payout can be
/// made: the group must be active, have an unpaid member at its rotation
/// cursor, and hold a contribution from as many members as it has.
pub open spec fn payout_check(s: SaveState, id: u64) -> Result<(Address, i128), Error> {
    if !has_group(s, id) {
        Err(Error::GroupNotFound)
    } else {
        let g = s.groups[id - 1];
        if !group_is_active(g) {
            Err(inactive_error(g))
        } else if g.current_cycle >= g.member_count || g.current_cycle >= s.rosters[id - 1].len() {
            Err(Error::GroupNotActive)
        } else if s.held[id - 1].len() < g.member_count || pool_amount(g) > i128::MAX
            || pool_amount(g) < i128::MIN {
            Err(Error::NoBalanceToTransfer)
        } else {
            Ok((s.rosters[id - 1][g.current_cycle as int], pool_amount(g) as i128))
        }
    }
}

/// The record that a successful payout writes.
pub open spec fn payout_record(id: u64, g: Group, recipient: Address, amount: i128, now: u64) -> PayoutRecord {
    PayoutRecord { group_id: id, cycle_index: g.current_cycle, recipient, amount, timestamp: now }
}

/// The group after a successful payout: the cursor advances by one and the
/// group completes once every member has been paid.
pub open spec fn advanced(g: Group) -> Group {
    let next = (g.current_cycle + 1) as u32;
    Group {
        current_cycle: next,
        status: if next >= g.member_count { GroupStatus::Completed } else { GroupStatus::Active },
        ..g
    }
}

/// The outcome of `run_payout_cycle`.
pub open spec fn payout_outcome(s: SaveState, id: u64, transferred: bool, now: u64) -> (Result<PayoutRecord, Error>, SaveState) {
    match payout_check(s, id) {
        Err(e) => (Err(e), s),
        Ok((recipient, amount)) => if !transferred {
            (Err(Error::FailedToTransferToRecipient), s)
        } else {
            let g = s.groups[id - 1];
            let rec = payout_record(id, g, recipient, amount, now);
            (
                Ok(rec),
                SaveState {
                    groups: s.groups.update(id - 1, advanced(g)),
                    rosters: s.rosters,
                    held: s.held.update(id - 1, Seq::empty()),
                    payouts: s.payouts.push(rec),
                    events: s.events.push(
                        Event::PayoutCompleted {
                            group_id: id,
                            cycle_index: rec.cycle_index,
                            recipient,
                            amount,
                        },
                    ),
                },
            )
        },
    }
}

/// Who is refunded next by the admin of group `id` and how much: the most
/// recent contribution still held, while the group is not terminal.
pub open spec fn refund_check(s: SaveState, caller: Address, id: u64) -> Result<(Address, i128), Error> {
    if !has_group(s, id) {
        Err(Error::GroupNotFound)
    } else {
        let g = s.groups[id - 1];
        if caller != g.admin {
            Err(Error::Unauthorized)
        } else if terminal(g.status) {
            Err(Error::InvalidGroupStatus)
        } else if s.held[id - 1].len() == 0 {
            Err(Error::NoBalanceToTransfer)
        } else {
            Ok((s.held[id - 1].last(), g.contribution_amount))
        }
    }
}

/// The outcome of `refund_contribution`.
pub open spec fn refund_outcome(s: SaveState, caller: Address, id: u64, transferred: bool) -> (Result<(Address, i128), Error>, SaveState) {
    match refund_check(s, caller, id) {
        Err(e) => (Err(e), s),
        Ok(due) => if !transferred {
            (Err(Error::FailedToTransferToRecipient), s)
        } else {
            (
                Ok(due),
                SaveState {
                    held: s.held.update(id - 1, s.held[id - 1].drop_last()),
                    events: s.events.push(
                        Event::ContributionRefunded { group_id: id, member: due.0, amount: due.1 },
                    ),
                    ..s
                },
            )
        },
    }
}

/// The outcome of `cancel_group`: the admin cancels a forming or active group
/// once no contribution is held for it any more.
pub open spec fn cancel_outcome(s: SaveState, caller: Address, id: u64) -> (Result<(), Error>, SaveState) {
    if !has_group(s, id) {
        (Err(Error::GroupNotFound), s)
    } else {
        let g = s.groups[id - 1];
        if caller != g.admin {
            (Err(Error::Unauthorized), s)
        } else if !legal_transition(g.status, GroupStatus::Cancelled) || s.held[id - 1].len() > 0 {
            (Err(Error::InvalidGroupStatus), s)
        } else {
            (
                Ok(()),
                SaveState {
                    events: s.events.push(Event::GroupCancelled { group_id: id }),
                    ..with_group(s, id, Group { status: GroupStatus::Cancelled, ..g })
                },
            )
        }
    }
}

impl View for StellarSave {
    type V = SaveState;

    closed spec fn view(&self) -> SaveState {
        SaveState {
            groups: self.groups@,
            rosters: seq_views(self.rosters@),
            held: seq_views(self.held@),
            payouts: self.payouts@,
            events: self.events@,
        }
    }
}

/// Appends `a` to the inner vector at position `i`.
fn push_at(v: &mut Vec<Vec<Address>>, i: usize, a: Address)
    requires
        i < old(v)@.len(),
    ensures
        final(v)@.len() == old(v)@.len(),
        seq_views(final(v)@) == seq_views(old(v)@).update(i as int, old(v)@[i as int]@.push(a)),
{
    let mut inner = v.remove(i);
    inner.push(a);
    v.insert(i, inner);
    assert(seq_views(v@) =~= seq_views(old(v)@).update(i as int, old(v)@[i as int]@.push(a)));
}

/// Drops the last element of the inner vector at position `i`.
fn pop_at(v: &mut Vec<Vec<Address>>, i: usize)
    requires
        i < old(v)@.len(),
        old(v)@[i as int]@.len() > 0,
    ensures
        final(v)@.len() == old(v)@.len(),
        seq_views(final(v)@) == seq_views(old(v)@).update(i as int, old(v)@[i as int]@.drop_last()),
{
    let mut inner = v.remove(i);
    let _ = inner.pop();
    v.insert(i, inner);
    assert(seq_views(v@) =~= seq_views(old(v)@).update(i as int, old(v)@[i as int]@.drop_last()));
}

/// Empties the inner vector at position `i`.
fn clear_at(v: &mut Vec<Vec<Address>>, i: usize)
    requires
        i < old(v)@.len(),
    ensures
        final(v)@.len() == old(v)@.len(),
        seq_views(final(v)@) == seq_views(old(v)@).update(i as int, Seq::empty()),
{
    let _ = v.remove(i);
    v.insert(i, Vec::new());
    assert(seq_views(v@) =~= seq_views(old(v)@).update(i as int, Seq::empty()));
}

impl StellarSave {
    /// Replaces the record at position `i` by `g`, which keeps its id.
    fn put_group(&mut self, i: usize, g: Group)
        requires
            old(self).well_formed(),
            i < old(self)@.groups.len(),
            g.id == i + 1,
        ensures
            final(self).well_formed(),
            final(self)@ == (SaveState { groups: old(self)@.groups.update(i as int, g), ..old(self)@ }),
    {
        let _ = self.groups.remove(i);
        self.groups.insert(i, g);
        assert(self.groups@ =~= old(self).groups@.update(i as int, g));
    }

    /// The internal invariant: the counter equals the number of groups,
    /// the group at position `i` has id `i + 1`, and every group has a
    /// roster and a custody list.
    pub closed spec fn well_formed(&self) -> bool {
        &&& self.total_groups as int == self.groups@.len()
        &&& self.rosters@.len() == self.groups@.len()
        &&& self.held@.len() == self.groups@.len()
        &&& forall|i: int| 0 <= i < self.groups@.len() ==> #[trigger] self.groups@[i].id == i + 1
    }

    /// Group ids are sequential from 1: the group at position `i` of the
    /// state has id `i + 1`, so the `n`-th group ever created has id `n`.
    pub proof fn lemma_ids_are_sequential(&self)
        requires
            self.well_formed(),
        ensures
            forall|i: int| 0 <= i < self@.groups.len() ==> #[trigger] self@.groups[i].id == i + 1,
            forall|id: u64| #[trigger] has_group(self@, id) ==> lookup(self@, id)->0.id == id,
    {
    }

    /// A contract with no groups and no payouts.
    pub fn new() -> (r: StellarSave)
        ensures
            r.well_formed(),
            r@.groups.len() == 0,
            r@.rosters.len() == 0,
            r@.held.len() == 0,
            r@.payouts.len() == 0,
            r@.events.len() == 0,
    {
        let r = StellarSave {
            total_groups: 0,
            groups: Vec::new(),
            rosters: Vec::new(),
            held: Vec::new(),
            payouts: Vec::new(),
            events: Vec::new(),
        };
        assert(seq_views(r.rosters@) =~= Seq::<Seq<Address>>::empty());
        assert(seq_views(r.held@) =~= Seq::<Seq<Address>>::empty());
        r
    }

    /// How many groups have ever been created.
    pub fn get_total_groups_created(&self) -> (r: u64)
        requires
            self.well_formed(),
        ensures
            r as int == self@.groups.len(),
    {
        self.total_groups
    }

    /// Creates a group in the `Forming` state with `caller` as its admin and
    /// returns its id, the counter's value after the increment.
    pub fn create_group(
        &mut self,
        caller: Address,
        name: String,
        contribution_amount: i128,
        cycle_duration: u64,
        max_members: u32,
        now: u64,
    ) -> (r: Result<u64, Error>)
        requires
            old(self).well_formed(),
            old(self)@.groups.len() < u64::MAX,
        ensures
            final(self).well_formed(),
            !valid_terms(contribution_amount, cycle_duration, max_members) ==> r == Err::<
                u64,
                Error,
            >(Error::InvalidGroupStatus) && final(self)@ == old(self)@,
            valid_terms(contribution_amount, cycle_duration, max_members) ==> {
                let id = (old(self)@.groups.len() + 1) as u64;
                &&& r == Ok::<u64, Error>(id)
                &&& final(self)@ == (SaveState {
                    groups: old(self)@.groups.push(
                        new_group(
                            id,
                            caller,
                            name,
                            contribution_amount,
                            cycle_duration,
                            max_members,
                            now,
                        ),
                    ),
                    rosters: old(self)@.rosters.push(Seq::empty()),
                    held: old(self)@.held.push(Seq::empty()),
                    payouts: old(self)@.payouts,
                    events: old(self)@.events.push(Event::GroupCreated { group_id: id, admin: caller }),
                })
            },
    {
        if contribution_amount <= 0 || cycle_duration == 0 || max_members == 0 {
            return Err(Error::InvalidGroupStatus);
        }
        let id = self.total_groups + 1;
        let group = Group {
            id,
            admin: caller,
            name,
            contribution_amount,
            cycle_duration,
            max_members,
            member_count: 0,
            status: GroupStatus::Forming,
            created_at: now,
            start_time: 0,
            current_cycle: 0,
        };
        self.groups.push(group);
        self.rosters.push(Vec::new());
        self.held.push(Vec::new());
        self.total_groups = id;
        self.events.push(Event::GroupCreated { group_id: id, admin: caller });
        assert(seq_views(self.rosters@) =~= seq_views(old(self).rosters@).push(Seq::empty()));
        assert(seq_views(self.held@) =~= seq_views(old(self).held@).push(Seq::empty()));
        Ok(id)
    }

    /// The position of group `group_id` in the stores, if it exists.
    fn position(&self, group_id: u64) -> (r: Option<usize>)
        requires
            self.well_formed(),
        ensures
            has_group(self@, group_id) ==> r is Some && r->0 as int == group_id - 1,
            !has_group(self@, group_id) ==> r is None,
    {
        // The vector's length bounds every position by `usize::MAX`.
        let _len: usize = self.groups.len();
        if 1 <= group_id && group_id <= self.total_groups {
            Some((group_id - 1) as usize)
        } else {
            None
        }
    }

    /// The stored record of group `group_id`, if it exists.
    pub fn load_group(&self, group_id: u64) -> (r: Option<Group>)
        requires
            self.well_formed(),
        ensures
            r == lookup(self@, group_id),
    {
        match self.position(group_id) {
            Some(i) => {
                Some(self.groups[i].duplicate())
            },
            None => None,
        }
    }

    /// The record of group `group_id`; `GroupNotFound` if it was never created.
    pub fn get_group(&self, group_id: u64) -> (r: Result<Group, Error>)
        requires
            self.well_formed(),
        ensures
            has_group(self@, group_id) ==> r == Ok::<Group, Error>(self@.groups[group_id - 1]),
            !has_group(self@, group_id) ==> r == Err::<Group, Error>(Error::GroupNotFound),
    {
        match self.load_group(group_id) {
            Some(g) => Ok(g),
            None => Err(Error::GroupNotFound),
        }
    }

    /// Whether group `group_id` exists, is `Active` and has between one and
    /// `max_members` members. Never fails.
    pub fn is_group_active(&self, group_id: u64) -> (r: bool)
        requires
            self.well_formed(),
        ensures
            r == (has_group(self@, group_id) && group_is_active(self@.groups[group_id - 1])),
    {
        match self.position(group_id) {
            Some(i) => self.groups[i].is_active(),
            None => false,
        }
    }

    /// Overwrites the stored record of an existing, non-terminal group, for
    /// administrative correction of its mutable fields (membership count,
    /// status, timestamps, rotation cursor). The terms it was created with
    /// cannot change.
    pub fn save_group(&mut self, group: Group) -> (r: Result<(), Error>)
        requires
            old(self).well_formed(),
        ensures
            final(self).well_formed(),
            (r, final(self)@) == save_outcome(old(self)@, group),
    {
        let i = match self.position(group.id) {
            Some(i) => i,
            None => return Err(Error::GroupNotFound),
        };
        let stored = &self.groups[i];
        if stored.status.is_terminal() || stored.admin != group.admin || stored.name
            != group.name || stored.contribution_amount != group.contribution_amount
            || stored.cycle_duration != group.cycle_duration || stored.max_members
            != group.max_members || stored.created_at != group.created_at {
            return Err(Error::InvalidGroupStatus);
        }
        self.put_group(i, group);
        Ok(())
    }

    /// Adds `caller` to the roster of a forming group that has room.
    pub fn join_group(&mut self, caller: Address, group_id: u64) -> (r: Result<(), Error>)
        requires
            old(self).well_formed(),
        ensures
            final(self).well_formed(),
            (r, final(self)@) == join_outcome(old(self)@, caller, group_id),
    {
        let i = match self.position(group_id) {
            Some(i) => i,
            None => return Err(Error::GroupNotFound),
        };
        let mut g = self.groups[i].duplicate();
        if g.status == GroupStatus::Completed {
            return Err(Error::GroupCompleted);
        }
        if g.status != GroupStatus::Forming {
            return Err(Error::InvalidGroupStatus);
        }
        if g.member_count >= g.max_members {
            return Err(Error::MemberCountExceeded);
        }
        g.member_count = g.member_count + 1;
        self.put_group(i, g);
        push_at(&mut self.rosters, i, caller);
        self.events.push(Event::MemberJoined { group_id, member: caller });
        Ok(())
    }

    /// Moves a forming group with at least one member to `Active`; only its
    /// admin may do so. `now` becomes the group's `start_time`.
    pub fn activate_group(&mut self, caller: Address, group_id: u64, now: u64) -> (r: Result<(), Error>)
        requires
            old(self).well_formed(),
        ensures
            final(self).well_formed(),
            (r, final(self)@) == activate_outcome(old(self)@, caller, group_id, now),
    {
        let i = match self.position(group_id) {
            Some(i) => i,
            None => return Err(Error::GroupNotFound),
        };
        let mut g = self.groups[i].duplicate();
        if caller != g.admin {
            return Err(Error::Unauthorized);
        }
        if !g.status.can_transition_to(GroupStatus::Active) {
            return Err(Error::InvalidGroupStatus);
        }
        if g.member_count == 0 {
            return Err(Error::GroupNotActive);
        }
        g.status = GroupStatus::Active;
        g.start_time = now;
        self.put_group(i, g);
        self.events.push(Event::GroupActivated { group_id, start_time: now });
        Ok(())
    }

    /// The amount a member must transfer to contribute to group `group_id`,
    /// or why no contribution is accepted now.
    pub fn contribution_due(&self, group_id: u64) -> (r: Result<i128, Error>)
        requires
            self.well_formed(),
        ensures
            r == contribution_check(self@, group_id),
    {
        let i = match self.position(group_id) {
            Some(i) => i,
            None => return Err(Error::GroupNotFound),
        };
        let g = &self.groups[i];
        if !g.is_active() {
            return Err(
                if g.status == GroupStatus::Completed {
                    Error::GroupCompleted
                } else {
                    Error::GroupNotActive
                },
            );
        }
        if self.held[i].len() >= g.member_count as usize {
            return Err(Error::MemberCountExceeded);
        }
        Ok(g.contribution_amount)
    }

    /// Records the contribution of `member` to group `group_id`, given
    /// whether the inbound transfer of [`Self::contribution_due`] succeeded.
    /// A failed transfer leaves the state unchanged.
    pub fn contribute(&mut self, member: Address, group_id: u64, transferred: bool) -> (r: Result<
        (),
        Error,
    >)
        requires
            old(self).well_formed(),
        ensures
            final(self).well_formed(),
            (r, final(self)@) == contribute_outcome(old(self)@, member, group_id, transferred),
    {
        let amount = match self.contribution_due(group_id) {
            Err(e) => return Err(e),
            Ok(amount) => amount,
        };
        if !transferred {
            return Err(Error::FailedToTransferFromMember);
        }
        let i = match self.position(group_id) {
            Some(i) => i,
            None => return Err(Error::GroupNotFound),
        };
        push_at(&mut self.held, i, member);
        self.events.push(Event::ContributionReceived { group_id, member, amount });
        Ok(())
    }

    /// The next recipient of group `group_id` and the pool they are owed,
    /// or why no payout can be made now.
    pub fn payout_due(&self, group_id: u64) -> (r: Result<(Address, i128), Error>)
        requires
            self.well_formed(),
        ensures
            r == payout_check(self@, group_id),
    {
        let i = match self.position(group_id) {
            Some(i) => i,
            None => return Err(Error::GroupNotFound),
        };
        let g = &self.groups[i];
        if !g.is_active() {
            return Err(
                if g.status == GroupStatus::Completed {
                    Error::GroupCompleted
                } else {
                    Error::GroupNotActive
                },
            );
        }
        let roster = &self.rosters[i];
        proof {
            assert(seq_views(self.rosters@)[i as int] == roster@);
            assert(seq_views(self.held@)[i as int] == self.held@[i as int]@);
        }
        if g.current_cycle >= g.member_count || g.current_cycle as usize >= roster.len() {
            return Err(Error::GroupNotActive);
        }
        if self.held[i].len() < g.member_count as usize {
            return Err(Error::NoBalanceToTransfer);
        }
        let amount = match g.contribution_amount.checked_mul(g.member_count as i128) {
            Some(a) => a,
            None => return Err(Error::NoBalanceToTransfer),
        };
        Ok((roster[g.current_cycle as usize], amount))
    }

    /// Pays the pool of group `group_id` to the next member in rotation,
    /// given whether the outbound transfer of [`Self::payout_due`]
    /// succeeded. On success the payout is logged, the rotation cursor
    /// advances and the cycle's contributions leave custody; the group
    /// completes once every member has been paid. A failed transfer leaves
    /// the state unchanged.
    pub fn run_payout_cycle(&mut self, group_id: u64, transferred: bool, now: u64) -> (r: Result<
        PayoutRecord,
        Error,
    >)
        requires
            old(self).well_formed(),
        ensures
            final(self).well_formed(),
            (r, final(self)@) == payout_outcome(old(self)@, group_id, transferred, now),
    {
        let (recipient, amount) = match self.payout_due(group_id) {
            Err(e) => return Err(e),
            Ok(due) => due,
        };
        if !transferred {
            return Err(Error::FailedToTransferToRecipient);
        }
        let i = match self.position(group_id) {
            Some(i) => i,
            None => return Err(Error::GroupNotFound),
        };
        let mut g = self.groups[i].duplicate();
        let rec = PayoutRecord {
            group_id,
            cycle_index: g.current_cycle,
            recipient,
            amount,
            timestamp: now,
        };
        g.current_cycle = g.current_cycle + 1;
        g.status = if g.current_cycle >= g.member_count {
            GroupStatus::Completed
        } else {
            GroupStatus::Active
        };
        self.put_group(i, g);
        clear_at(&mut self.held, i);
        self.payouts.push(rec);
        self.events.push(
            Event::PayoutCompleted { group_id, cycle_index: rec.cycle_index, recipient, amount },
        );
        Ok(rec)
    }

    /// The next contribution that the admin of group `group_id` must return
    /// before the group can be cancelled, and its amount.
    pub fn refund_due(&self, caller: Address, group_id: u64) -> (r: Result<(Address, i128), Error>)
        requires
            self.well_formed(),
        ensures
            r == refund_check(self@, caller, group_id),
    {
        let i = match self.position(group_id) {
            Some(i) => i,
            None => return Err(Error::GroupNotFound),
        };
        let g = &self.groups[i];
        if caller != g.admin {
            return Err(Error::Unauthorized);
        }
        if g.status.is_terminal() {
            return Err(Error::InvalidGroupStatus);
        }
        let held = &self.held[i];
        proof {
            assert(seq_views(self.held@)[i as int] == held@);
        }
        if held.len() == 0 {
            return Err(Error::NoBalanceToTransfer);
        }
        Ok((held[held.len() - 1], g.contribution_amount))
    }

    /// Returns the most recent contribution held for group `group_id` to its
    /// contributor, given whether the outbound transfer of
    /// [`Self::refund_due`] succeeded. A failed transfer leaves the state
    /// unchanged, so each refund can be retried on its own.
    pub fn refund_contribution(&mut self, caller: Address, group_id: u64, transferred: bool) -> (r:
        Result<(Address, i128), Error>)
        requires
            old(self).well_formed(),
        ensures
            final(self).well_formed(),
            (r, final(self)@) == refund_outcome(old(self)@, caller, group_id, transferred),
    {
        let due = match self.refund_due(caller, group_id) {
            Err(e) => return Err(e),
            Ok(due) => due,
        };
        if !transferred {
            return Err(Error::FailedToTransferToRecipient);
        }
        let i = match self.position(group_id) {
            Some(i) => i,
            None => return Err(Error::GroupNotFound),
        };
        pop_at(&mut self.held, i);
        self.events.push(Event::ContributionRefunded { group_id, member: due.0, amount: due.1 });
        Ok(due)
    }

    /// Cancels a forming or active group; only its admin may do so, and only
    /// once every held contribution has been refunded.
    pub fn cancel_group(&mut self, caller: Address, group_id: u64) -> (r: Result<(), Error>)
        requires
            old(self).well_formed(),
        ensures
            final(self).well_formed(),
            (r, final(self)@) == cancel_outcome(old(self)@, caller, group_id),
    {
        let i = match self.position(group_id) {
            Some(i) => i,
            None => return Err(Error::GroupNotFound),
        };
        let mut g = self.groups[i].duplicate();
        if caller != g.admin {
            return Err(Error::Unauthorized);
        }
        proof {
            assert(seq_views(self.held@)[i as int] == self.held@[i as int]@);
        }
        if !g.status.can_transition_to(GroupStatus::Cancelled) || self.held[i].len() > 0 {
            return Err(Error::InvalidGroupStatus);
        }
        g.status = GroupStatus::Cancelled;
        self.put_group(i, g);
        self.events.push(Event::GroupCancelled { group_id });
        Ok(())
    }

    /// How many payouts have been made over all groups.
    pub fn payout_record_count(&self) -> (r: usize)
        ensures
            r == self@.payouts.len(),
    {
        self.payouts.len()
    }

    /// How many events have been emitted.
    pub fn event_count(&self) -> (r: usize)
        ensures
            r == self@.events.len(),
    {
        self.events.len()
    }

    /// The event at position `index` of the log, oldest first.
    pub fn event(&self, index: usize) -> (r: Option<Event>)
        ensures
            index < self@.events.len() ==> r == Some(self@.events[index as int]),
            index >= self@.events.len() ==> r is None,
    {
        if index < self.events.len() {
            Some(self.events[index])
        } else {
            None
        }
    }

    /// The payout at position `index` of the log, oldest first.
    pub fn payout_record(&self, index: usize) -> (r: Option<PayoutRecord>)
        ensures
            index < self@.payouts.len() ==> r == Some(self@.payouts[index as int]),
            index >= self@.payouts.len() ==> r is None,
    {
        if index < self.payouts.len() {
            Some(self.payouts[index])
        } else {
            None
        }
    }
}

} // verus!
