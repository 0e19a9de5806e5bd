//! Primary group management.

use vstd::prelude::*;

use crate::groups::groups::Group;
use crate::groups::roles::GroupRole;
use crate::util::jar::{Call, Verb};
use crate::util::text::{cat3, dec_nat, u64_to_string};

verus! {

/// A user's primary group with their role there.
#[derive(Debug, Clone, PartialEq)]
pub struct PrimaryGroupResponse {
    pub group: Group,
    pub role: GroupRole,
    pub is_primary_group: Option<bool>,
}

/// Gets a user's primary group.
///
/// # Error codes
/// - 4: User is invalid or does not exist.
pub fn primary_group(user_id: u32) -> (r: Call<()>)
    ensures
        r.verb == Verb::Get,
        r.body is None,
        r.url@ == "https://groups.roblox.com/v1/users/"@ + dec_nat(user_id as nat)
            + "/groups/primary/role"@,
{
    Call {
        verb: Verb::Get,
        url: cat3(
            "https://groups.roblox.com/v1/users/",
            u64_to_string(user_id as u64).as_str(),
            "/groups/primary/role",
        ),
        body: None,
    }
}

/// Removes the currently authenticated user's primary group.
///
/// # Error codes
/// - 0: Authorization has been denied for this request.
pub fn remove_primary_group() -> (r: Call<()>)
    ensures
        r.verb == Verb::Delete,
        r.body is None,
        r.url@ == "https://groups.roblox.com/v1/user/groups/primary"@,
{
    Call {
        verb: Verb::Delete,
        url: "https://groups.roblox.com/v1/user/groups/primary".to_owned(),
        body: None,
    }
}

/// The payload that sets the primary group.
#[derive(Debug, Clone, PartialEq)]
pub struct SetPrimaryGroupRequest {
    pub group_id: u32,
}

/// Sets the currently authenticated user's primary group.
///
/// # Error codes
/// - 0: Authorization has been denied for this request.
/// - 1: Group is invalid or does not exist.
/// - 2: You aren't a member of the group specified.
pub fn set_primary_group(group_id: u32) -> (r: Call<SetPrimaryGroupRequest>)
    ensures
        r.verb == Verb::Post,
        r.url@ == "https://groups.roblox.com/v1/user/groups/"@ + dec_nat(group_id as nat)
            + "/primary"@,
        r.body matches Some(b) && b.group_id == group_id,
{
    Call {
        verb: Verb::Post,
        url: cat3(
            "https://groups.roblox.com/v1/user/groups/",
            u64_to_string(group_id as u64).as_str(),
            "/primary",
        ),
        body: Some(SetPrimaryGroupRequest { group_id }),
    }
}

} // verus!
