//! Closed vocabularies shared across the engine and its persisted records.

use vstd::prelude::*;

verus! {

/// Review state of a text submitted for inclusion in a dictionary.
#[derive(PartialEq, Eq, Structural, Clone, Copy, Debug)]
pub enum ReviewTextStatus {
    Pending,
    Approved,
    Rejected,
}

/// Role a user account holds; moderators and creators may review texts.
#[derive(PartialEq, Eq, Structural, Clone, Copy, Debug)]
pub enum UserRoles {
    Creator,
    Moderator,
    User,
}

/// Which kind of client a room membership was raced from.
#[derive(PartialEq, Eq, Structural, Clone, Copy, Debug)]
pub enum Leagues {
    Mobile,
    Web,
}

/// Whether a role may review pending texts (and is therefore auto-approved
/// when submitting its own).
pub open spec fn can_review_spec(role: UserRoles) -> bool {
    role == UserRoles::Moderator || role == UserRoles::Creator
}

/// Exec counterpart of [`can_review_spec`].
pub fn can_review(role: UserRoles) -> (r: bool)
    ensures
        r == can_review_spec(role),
{
    role == UserRoles::Moderator || role == UserRoles::Creator
}

} // verus!
