//! Membership management: removing users, setting roles, and rank moves.

use vstd::prelude::*;

use crate::groups::roles::GroupRole;
use crate::util::jar::{Call, Verb};
use crate::util::responses::RobloxError;
use crate::util::text::{dec_nat, u64_to_string};
use crate::util::Error;

verus! {

/// The user-management URL of a group member.
pub open spec fn member_url(group_id: nat, user_id: nat) -> Seq<char> {
    "https://groups.roblox.com/v1/groups/"@ + dec_nat(group_id) + "/users/"@ + dec_nat(user_id)
}

fn build_member_url(group_id: usize, user_id: usize) -> (r: String)
    ensures
        r@ == member_url(group_id as nat, user_id as nat),
{
    let mut url = "https://groups.roblox.com/v1/groups/".to_owned();
    url.append(u64_to_string(group_id as u64).as_str());
    url.append("/users/");
    url.append(u64_to_string(user_id as u64).as_str());
    url
}

/// Removes a user from a group.
///
/// # Error codes
/// - 1: The group is invalid or does not exist.
/// - 3: The user is invalid or does not exist.
/// - 4: You do not have permission to manage this member.
/// - 18: The operation is temporarily unavailable. Please try again later.
/// - 25: 2-Step Verification is required to make further transactions.
pub fn remove_user(group_id: usize, user_id: usize) -> (r: Call<()>)
    ensures
        r.verb == Verb::Delete,
        r.body is None,
        r.url@ == member_url(group_id as nat, user_id as nat),
{
    Call { verb: Verb::Delete, url: build_member_url(group_id, user_id), body: None }
}

/// The payload that moves a user to a role.
#[derive(Debug, Clone, PartialEq)]
pub struct UpdateUserRoleRequest {
    pub role_id: usize,
}

/// Sets a user's role in a group.
///
/// # Error codes
/// - 1: The group is invalid or does not exist.
/// - 2: The roleset is invalid or does not exist.
/// - 3: The user is invalid or does not exist.
/// - 4: You do not have permission to manage this member.
/// - 18: The operation is temporarily unavailable. Please try again later.
/// - 23: You cannot change your own role.
/// - 26: You cannot change the user's role to the same role.
pub fn set_role(group_id: usize, user_id: usize, role_id: usize) -> (r: Call<
    UpdateUserRoleRequest,
>)
    ensures
        r.verb == Verb::Patch,
        r.url@ == member_url(group_id as nat, user_id as nat),
        r.body matches Some(b) && b.role_id == role_id,
{
    Call {
        verb: Verb::Patch,
        url: build_member_url(group_id, user_id),
        body: Some(UpdateUserRoleRequest { role_id }),
    }
}

/// Sets a user's rank in a group.  (Alias for [`set_role`].)
///
/// # Error codes
/// - 1: The group is invalid or does not exist.
/// - 2: The roleset is invalid or does not exist.
/// - 3: The user is invalid or does not exist.
/// - 4: You do not have permission to manage this member.
/// - 18: The operation is temporarily unavailable. Please try again later.
/// - 23: You cannot change your own role.
/// - 26: You cannot change the user's role to the same role.
pub fn set_rank(group_id: usize, user_id: usize, role_id: usize) -> (r: Call<
    UpdateUserRoleRequest,
>)
    ensures
        r.verb == Verb::Patch,
        r.url@ == member_url(group_id as nat, user_id as nat),
        r.body matches Some(b) && b.role_id == role_id,
{
    set_role(group_id, user_id, role_id)
}

/// Whether some role in the list has this id.
pub open spec fn has_role_id(roles: Seq<GroupRole>, id: i64) -> bool {
    exists|k: int| 0 <= k < roles.len() && roles[k].id == id
}

/// Whether index `k` holds the first role in the list with this id.
pub open spec fn is_first_role_index(roles: Seq<GroupRole>, id: i64, k: int) -> bool {
    &&& 0 <= k < roles.len()
    &&& roles[k].id == id
    &&& forall|j: int| 0 <= j < k ==> roles[j].id != id
}

/// The error with which a rank move reports a current rank that is not in
/// the group's role list.
pub open spec fn rank_not_found_error(r: Result<(), Error>) -> bool {
    &&& r matches Err(Error::RobloxError(e))
    &&& e.code == 200
    &&& e.message@ == "The user's rank was not found."@
    &&& e.user_facing_message matches Some(u) && u@ == "The user's rank was not found."@
}

/// The error with which a rank move reports a target outside the group's
/// role list.
pub open spec fn rank_out_of_range_error(r: Result<(), Error>) -> bool {
    &&& r matches Err(Error::RobloxError(e))
    &&& e.code == 2
    &&& e.message@ == "The roleset is invalid or does not exist."@
    &&& e.user_facing_message matches Some(u) && u@ == "The rank does not exist."@
}

/// Checks a move of a user up by `amount` ranks against the group's role
/// list (ordered as the role listing returns it) and the user's current
/// role.  The move is accepted when the current role is found in the list
/// and the target position still lies within it.
///
/// # Error codes
/// - 2: The roleset is invalid or does not exist.
///
/// - 200: The user's rank was not found.
pub fn modify_rank_by_amount(ranks: &Vec<GroupRole>, user_role: &GroupRole, amount: usize) -> (r:
    Result<(), Error>)
    ensures
        r is Ok ==> has_role_id(ranks@, user_role.id),
        !has_role_id(ranks@, user_role.id) ==> rank_not_found_error(r),
        forall|k: int|
            is_first_role_index(ranks@, user_role.id, k) ==> (if k + amount < ranks@.len() {
                r is Ok
            } else {
                rank_out_of_range_error(r)
            }),
{
    let n = ranks.len();
    let mut found: Option<usize> = None;
    let mut i: usize = 0;
    while found.is_none() && i < n
        invariant
            i <= n,
            n == ranks@.len(),
            found matches Some(f) ==> is_first_role_index(ranks@, user_role.id, f as int),
            found is None ==> forall|j: int| 0 <= j < i ==> ranks@[j].id != user_role.id,
        decreases n - i,
    {
        if ranks[i].id == user_role.id {
            found = Some(i);
        }
        i += 1;
    }
    match found {
        None => Err(
            Error::RobloxError(
                RobloxError {
                    code: 200,
                    message: "The user's rank was not found.".to_owned(),
                    user_facing_message: Some("The user's rank was not found.".to_owned()),
                },
            ),
        ),
        Some(f) => {
            if amount < n - f {
                Ok(())
            } else {
                Err(
                    Error::RobloxError(
                        RobloxError {
                            code: 2,
                            message: "The roleset is invalid or does not exist.".to_owned(),
                            user_facing_message: Some("The rank does not exist.".to_owned()),
                        },
                    ),
                )
            }
        },
    }
}

/// Checks a promotion of a user by one rank.
///
/// # Error codes
/// - 2: The roleset is invalid or does not exist.
///
/// - 200: The user's rank was not found.
pub fn promote(ranks: &Vec<GroupRole>, user_role: &GroupRole) -> (r: Result<(), Error>)
    ensures
        r is Ok ==> has_role_id(ranks@, user_role.id),
        !has_role_id(ranks@, user_role.id) ==> rank_not_found_error(r),
        forall|k: int|
            is_first_role_index(ranks@, user_role.id, k) ==> (if k + 1 < ranks@.len() {
                r is Ok
            } else {
                rank_out_of_range_error(r)
            }),
{
    modify_rank_by_amount(ranks, user_role, 1)
}

/// Checks a demotion of a user, moving one step along the role list just
/// as a promotion does.
///
/// # Error codes
/// - 2: The roleset is invalid or does not exist.
///
/// - 200: The user's rank was not found.
pub fn demote(ranks: &Vec<GroupRole>, user_role: &GroupRole) -> (r: Result<(), Error>)
    ensures
        r is Ok ==> has_role_id(ranks@, user_role.id),
        !has_role_id(ranks@, user_role.id) ==> rank_not_found_error(r),
        forall|k: int|
            is_first_role_index(ranks@, user_role.id, k) ==> (if k + 1 < ranks@.len() {
                r is Ok
            } else {
                rank_out_of_range_error(r)
            }),
{
    modify_rank_by_amount(ranks, user_role, 1)
}

} // verus!
