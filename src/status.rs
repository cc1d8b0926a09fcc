use vstd::prelude::*;

verus! {

/// The lifecycle state of a group.
#[derive(Copy, Clone, Debug, PartialEq, Eq, Structural)]
pub enum GroupStatus {
    /// Accepting members; no funds flow yet.
    Forming,
    /// Contributions and payouts take place.
    Active,
    /// Every member has been paid once. Terminal.
    Completed,
    /// Abandoned by the admin. Terminal.
    Cancelled,
}

/// A rejected status change, naming the attempted transition.
#[derive(Copy, Clone, Debug, PartialEq, Eq, Structural)]
pub enum StatusError {
    InvalidTransition { from: GroupStatus, to: GroupStatus },
}

/// The legal transitions: Forming to Active, Active to Completed, and
/// Forming or Active to Cancelled.
pub open spec fn legal_transition(from: GroupStatus, to: GroupStatus) -> bool {
    ||| (from == GroupStatus::Forming && to == GroupStatus::Active)
    ||| (from == GroupStatus::Active && to == GroupStatus::Completed)
    ||| (from == GroupStatus::Forming && to == GroupStatus::Cancelled)
    ||| (from == GroupStatus::Active && to == GroupStatus::Cancelled)
}

pub open spec fn terminal(s: GroupStatus) -> bool {
    s == GroupStatus::Completed || s == GroupStatus::Cancelled
}

impl GroupStatus {
    /// Whether no transition leaves this state.
    pub fn is_terminal(&self) -> (r: bool)
        ensures
            r == terminal(*self),
    {
        match self {
            GroupStatus::Completed | GroupStatus::Cancelled => true,
            _ => false,
        }
    }

    /// Whether the status machine allows moving from `self` to `to`.
    pub fn can_transition_to(&self, to: GroupStatus) -> (r: bool)
        ensures
            r == legal_transition(*self, to),
    {
        match (self, to) {
            (GroupStatus::Forming, GroupStatus::Active) => true,
            (GroupStatus::Active, GroupStatus::Completed) => true,
            (GroupStatus::Forming, GroupStatus::Cancelled) => true,
            (GroupStatus::Active, GroupStatus::Cancelled) => true,
            _ => false,
        }
    }

    /// Checks a transition, returning the target state when it is legal.
    pub fn transition_to(&self, to: GroupStatus) -> (r: Result<GroupStatus, StatusError>)
        ensures
            legal_transition(*self, to) ==> r == Ok::<GroupStatus, StatusError>(to),
            !legal_transition(*self, to) ==> r == Err::<GroupStatus, StatusError>(
                StatusError::InvalidTransition { from: *self, to },
            ),
    {
        if self.can_transition_to(to) {
            Ok(to)
        } else {
            Err(StatusError::InvalidTransition { from: *self, to })
        }
    }
}

/// No transition leaves a terminal state.
pub proof fn lemma_terminal_states_are_final(from: GroupStatus, to: GroupStatus)
    requires
        terminal(from),
    ensures
        !legal_transition(from, to),
{
}

} // verus!
