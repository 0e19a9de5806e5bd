//! Group roles: the role list, the users on a role, one user's role, and
//! bulk role lookup.

use vstd::prelude::*;

use crate::groups::groups::UserMembershipsGroupItem;
use crate::users::users::MinimalGroupUser;
use crate::util::jar::{Call, Verb};
use crate::util::paging::{
    get_page, sort_chars_or_asc, sort_order_string_or_asc, PageLimit, Paginator, SortOrder,
};
use crate::util::responses::RobloxError;
use crate::util::text::{cat2, cat3, comma_join_i64, dec_int, dec_join, i64_to_string};
use crate::util::Error;

verus! {

/// One role of a group.
#[derive(Debug, Clone, PartialEq)]
pub struct GroupRole {
    pub id: i64,
    pub name: String,
    pub description: Option<String>,
    pub rank: i64,
    pub member_count: Option<i64>,
}

/// The response of the role-list endpoint.
#[derive(Debug, Clone, PartialEq)]
pub struct GroupRoleResponse {
    pub group_id: i64,
    pub roles: Vec<GroupRole>,
}

/// Gets a group's roles.
///
/// # Error codes
/// - 1: The group is invalid or does not exist.
pub fn roles(group_id: i64) -> (r: Call<()>)
    ensures
        r.verb == Verb::Get,
        r.body is None,
        r.url@ == "https://groups.roblox.com/v1/groups/"@ + dec_int(group_id as int) + "/roles"@,
{
    Call {
        verb: Verb::Get,
        url: cat3(
            "https://groups.roblox.com/v1/groups/",
            i64_to_string(group_id).as_str(),
            "/roles",
        ),
        body: None,
    }
}

/// Gets users on a group's role.
///
/// # Error codes
/// - 1: The group is invalid or does not exist.
/// - 2: The roleset is invalid or does not exist.
pub fn users_on_role(
    group_id: i64,
    role_id: i64,
    limit: PageLimit,
    sort_order: Option<SortOrder>,
) -> (r: Paginator<MinimalGroupUser>)
    ensures
        r.base_url@ == "https://groups.roblox.com/v1/groups/"@ + dec_int(group_id as int)
            + "/roles/"@ + dec_int(role_id as int) + "/users?sortOrder="@ + sort_chars_or_asc(
            sort_order,
        ),
        r.limit == limit,
        r.items@ == Seq::<MinimalGroupUser>::empty(),
        !r.done,
        r.cursor is None,
{
    let mut url = "https://groups.roblox.com/v1/groups/".to_owned();
    url.append(i64_to_string(group_id).as_str());
    url.append("/roles/");
    url.append(i64_to_string(role_id).as_str());
    url.append("/users?sortOrder=");
    url.append(sort_order_string_or_asc(sort_order).as_str());
    get_page(url.as_str(), limit, None)
}

/// Whether some membership in the list is in the group with this id.
pub open spec fn has_group_membership(
    memberships: Seq<UserMembershipsGroupItem>,
    group_id: i64,
) -> bool {
    exists|k: int| 0 <= k < memberships.len() && memberships[k].group.id == group_id
}

/// Whether index `k` holds the first membership in the group with this id.
pub open spec fn is_first_group_membership(
    memberships: Seq<UserMembershipsGroupItem>,
    group_id: i64,
    k: int,
) -> bool {
    &&& 0 <= k < memberships.len()
    &&& memberships[k].group.id == group_id
    &&& forall|j: int| 0 <= j < k ==> memberships[j].group.id != group_id
}

/// The error with which a role lookup reports a user that is not in the
/// group.
pub open spec fn user_not_in_group_error(r: Result<GroupRole, Error>) -> bool {
    &&& r matches Err(Error::RobloxError(e))
    &&& e.code == 200
    &&& e.message@ == "The user is not in the group."@
    &&& e.user_facing_message matches Some(u) && u@ == "The user is not in the group."@
}

/// Picks a user's role in the given group out of the user's memberships,
/// as returned by the membership listing: the first membership of that
/// group.  A user without a membership there is reported with the error
/// code the remote service uses for a user that is not in the group.
///
/// # Error codes
/// - 1: The group is invalid or does not exist.
/// - 3: The user is invalid or does not exist.
///
/// - 200: The user is not in the group.
pub fn user_role(memberships: Vec<UserMembershipsGroupItem>, group_id: i64) -> (r: Result<
    GroupRole,
    Error,
>)
    ensures
        r is Ok <==> has_group_membership(memberships@, group_id),
        forall|k: int|
            is_first_group_membership(memberships@, group_id, k) ==> (r matches Ok(role) && role
                == memberships@[k].role),
        !has_group_membership(memberships@, group_id) ==> user_not_in_group_error(r),
{
    let ghost ms0 = memberships@;
    let n = memberships.len();
    let mut found: Option<usize> = None;
    let mut i: usize = 0;
    while found.is_none() && i < n
        invariant
            i <= n,
            n == ms0.len(),
            memberships@ == ms0,
            found matches Some(f) ==> is_first_group_membership(ms0, group_id, f as int),
            found is None ==> forall|j: int| 0 <= j < i ==> ms0[j].group.id != group_id,
        decreases n - i,
    {
        if memberships[i].group.id == group_id {
            found = Some(i);
        }
        i += 1;
    }
    match found {
        Some(f) => {
            let mut ms = memberships;
            let item = ms.remove(f);
            proof {
                assert(has_group_membership(ms0, group_id));
            }
            Ok(item.role)
        },
        None => {
            proof {
                assert(forall|j: int| 0 <= j < ms0.len() ==> ms0[j].group.id != group_id);
            }
            Err(
                Error::RobloxError(
                    RobloxError {
                        code: 200,
                        message: "The user is not in the group.".to_owned(),
                        user_facing_message: Some("The user is not in the group.".to_owned()),
                    },
                ),
            )
        },
    }
}

/// Gets roles by id.
///
/// # Error codes
/// - 1: Ids could not be parsed from request.
/// - 2: Too many ids in request.
pub fn roles_by_id(role_ids: Vec<i64>) -> (r: Call<()>)
    ensures
        r.verb == Verb::Get,
        r.body is None,
        r.url@ == "https://groups.roblox.com/v1/roles?ids="@ + dec_join(
            role_ids@.map_values(|x: i64| x as int),
        ),
{
    Call {
        verb: Verb::Get,
        url: cat2("https://groups.roblox.com/v1/roles?ids=", comma_join_i64(&role_ids).as_str()),
        body: None,
    }
}

} // verus!
