//! Batch management of a group's join requests.

use vstd::prelude::*;

use crate::users::users::MinimalGroupUser;
use crate::util::jar::{Call, Verb};
use crate::util::paging::{get_page, PageLimit, Paginator};
use crate::util::text::{cat3, dec_int, i64_to_string};

verus! {

/// The payload of a batch join-request decision.
#[derive(Debug, Clone, PartialEq)]
pub struct BatchRequest {
    pub user_ids: Vec<i64>,
}

/// One pending join request.
#[derive(Debug, Clone, PartialEq)]
pub struct JoinRequest {
    pub requestor: MinimalGroupUser,
    pub created: String,
}

/// The join-request management URL of a group.
pub open spec fn join_requests_url(group_id: int) -> Seq<char> {
    "https://groups.roblox.com/v1/groups/"@ + dec_int(group_id) + "/join-requests"@
}

fn build_join_requests_url(group_id: i64) -> (r: String)
    ensures
        r@ == join_requests_url(group_id as int),
{
    cat3("https://groups.roblox.com/v1/groups/", i64_to_string(group_id).as_str(), "/join-requests")
}

/// Retrieves join requests for a group.
///
/// # Error codes
/// - 1: The group is invalid or does not exist.
/// - 19: You have insufficient permissions for this request.
pub fn get(group_id: i64, limit: PageLimit) -> (r: Paginator<JoinRequest>)
    ensures
        r.base_url@ == join_requests_url(group_id as int),
        r.limit == limit,
        r.items@ == Seq::<JoinRequest>::empty(),
        !r.done,
        r.cursor is None,
{
    let url = build_join_requests_url(group_id);
    get_page(url.as_str(), limit, None)
}

/// Accepts a batch of join requests for a group.
///
/// # Error codes
/// - 1: The group is invalid or does not exist.
/// - 3: The user is invalid or does not exist.
/// - 6: You are already in the maximum number of groups.
/// - 18: The operation is temporarily unavailable. Please try again later.
/// - 19: You have insufficient permissions for this request.
/// - 20: The group join request is invalid.
pub fn accept(group_id: i64, user_ids: Vec<i64>) -> (r: Call<BatchRequest>)
    ensures
        r.verb == Verb::Post,
        r.url@ == join_requests_url(group_id as int),
        r.body matches Some(b) && b.user_ids == user_ids,
{
    Call {
        verb: Verb::Post,
        url: build_join_requests_url(group_id),
        body: Some(BatchRequest { user_ids }),
    }
}

/// Declines a batch of join requests for a group.
///
/// # Error codes
/// - 1: The group is invalid or does not exist.
/// - 3: The user is invalid or does not exist.
pub fn decline(group_id: i64, user_ids: Vec<i64>) -> (r: Call<BatchRequest>)
    ensures
        r.verb == Verb::Delete,
        r.url@ == join_requests_url(group_id as int),
        r.body matches Some(b) && b.user_ids == user_ids,
{
    Call {
        verb: Verb::Delete,
        url: build_join_requests_url(group_id),
        body: Some(BatchRequest { user_ids }),
    }
}

} // verus!
