//! Management of one join request at a time.

use vstd::prelude::*;

use crate::users::users::MinimalGroupUser;
use crate::util::jar::{Call, Verb};
use crate::util::text::{dec_int, i64_to_string};

verus! {

/// The payload of a batch join-request decision.
#[derive(Debug, Clone, PartialEq)]
pub struct BatchRequest {
    pub user_ids: Vec<i64>,
}

/// One pending join request.
#[derive(Debug, Clone, PartialEq)]
pub struct JoinRequest {
    pub requestor: MinimalGroupUser,
    pub created: String,
}

/// The URL of one user's join request in a group.
pub open spec fn join_request_url(group_id: int, user_id: int) -> Seq<char> {
    "https://groups.roblox.com/v1/groups/"@ + dec_int(group_id) + "/join-requests/users/"@
        + dec_int(user_id)
}

fn build_join_request_url(group_id: i64, user_id: i64) -> (r: String)
    ensures
        r@ == join_request_url(group_id as int, user_id as int),
{
    let mut url = "https://groups.roblox.com/v1/groups/".to_owned();
    url.append(i64_to_string(group_id).as_str());
    url.append("/join-requests/users/");
    url.append(i64_to_string(user_id).as_str());
    url
}

/// Retrieves a join request for a group.
///
/// # Error codes
/// - 1: The group is invalid or does not exist.
/// - 19: You have insufficient permissions for this request.
pub fn get(group_id: i64, user_id: i64) -> (r: Call<()>)
    ensures
        r.verb == Verb::Get,
        r.body is None,
        r.url@ == join_request_url(group_id as int, user_id as int),
{
    Call { verb: Verb::Get, url: build_join_request_url(group_id, user_id), body: None }
}

/// Accepts a join request for a group.
///
/// # Error codes
/// - 1: The group is invalid or does not exist.
/// - 3: The user is invalid or does not exist.
/// - 6: You are already in the maximum number of groups.
/// - 18: The operation is temporarily unavailable. Please try again later.
/// - 19: You have insufficient permissions for this request.
/// - 20: The group join request is invalid.
pub fn accept(group_id: i64, user_id: i64) -> (r: Call<()>)
    ensures
        r.verb == Verb::Post,
        r.body is None,
        r.url@ == join_request_url(group_id as int, user_id as int),
{
    Call { verb: Verb::Post, url: build_join_request_url(group_id, user_id), body: None }
}

/// Declines a join request for a group.
///
/// # Error codes
/// - 3: The user is invalid or does not exist.
/// - 4: You do not have permission to manage this member.
pub fn decline(group_id: i64, user_id: i64) -> (r: Call<()>)
    ensures
        r.verb == Verb::Delete,
        r.body is None,
        r.url@ == join_request_url(group_id as int, user_id as int),
{
    Call { verb: Verb::Delete, url: build_join_request_url(group_id, user_id), body: None }
}

} // verus!
