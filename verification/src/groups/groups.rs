//! Group lookup, configuration, membership listing and ownership.

use vstd::prelude::*;

use crate::groups::permissions::GroupPermissions;
use crate::groups::roles::GroupRole;
use crate::users::users::MinimalGroupUser;
use crate::util::jar::{Call, Verb};
use crate::util::paging::{
    get_page, sort_chars_or_asc, sort_order_string_or_asc, PageLimit, Paginator, SortOrder,
};
use crate::util::text::{cat2, cat3, dec_int, i64_to_string};

verus! {

/// A group record.
#[derive(Debug, Clone, PartialEq)]
pub struct Group {
    pub id: i64,
    pub name: String,
    pub description: String,
    pub owner: MinimalGroupUser,
    pub shout: Option<GroupShout>,
    pub member_count: Option<i64>,
    pub is_builders_club_only: bool,
    pub public_entry_allowed: bool,
    pub is_locked: Option<bool>,
    pub has_verified_badge: bool,
}

/// The short group record.
#[derive(Debug, Clone, PartialEq)]
pub struct MinimalGroup {
    pub id: i64,
    pub name: String,
    pub member_count: i64,
    pub has_verified_badge: bool,
}

/// A group's shout.
#[derive(Debug, Clone, PartialEq)]
pub struct GroupShout {
    pub body: String,
    pub poster: MinimalGroupUser,
    pub created: String,
    pub updated: String,
}

/// Gets a group by its group ID.
///
/// # Error codes
/// - 1: Group is invalid or does not exist.
pub fn group_by_id(group_id: i64) -> (r: Call<()>)
    ensures
        r.verb == Verb::Get,
        r.body is None,
        r.url@ == "https://groups.roblox.com/v1/groups/"@ + dec_int(group_id as int),
{
    Call {
        verb: Verb::Get,
        url: cat2("https://groups.roblox.com/v1/groups/", i64_to_string(group_id).as_str()),
        body: None,
    }
}

/// One entry of a group's audit log.
#[derive(Debug, Clone, PartialEq)]
pub struct GroupAuditLogEntry {
    pub actor: GroupAuditLogActor,
    pub action_type: GroupAuditLogActionType,
    pub created: String,
}

/// The actor of an audit log entry.
#[derive(Debug, Clone, PartialEq)]
pub struct GroupAuditLogActor {
    pub user: MinimalGroupUser,
    pub created: String,
    pub updated: String,
}

/// The action kinds an audit log entry can record.
#[derive(Debug, Clone, Copy, PartialEq, Eq, Structural)]
pub enum GroupAuditLogActionType {
    DeletePost,
    RemoveMember,
    AcceptJoinRequest,
    DeclineJoinRequest,
    PostStatus,
    ChangeRank,
    BuyAd,
    SendAllyRequest,
    CreateEnemy,
    AcceptAllyRequest,
    DeclineAllyRequest,
    DeleteAlly,
    DeleteEnemy,
    AddGroupPlace,
    RemoveGroupPlace,
    CreateItems,
    ConfigureItems,
    SpendGroupFunds,
    ChangeOwner,
    Delete,
    AdjustCurrencyAmounts,
    Abandon,
    Claim,
    Rename,
    ChangeDescription,
    InviteToClan,
    KickFromClan,
    CancelClanInvite,
    BuyClan,
    CreateGroupAsset,
    UpdateGroupAsset,
    ConfigureGroupAsset,
    RevertGroupAsset,
    CreateGroupDeveloperProduct,
    ConfigureGroupGame,
    Lock,
    Unlock,
    CreateGamePass,
    CreateBadge,
    ConfigureBadge,
    SavePlace,
    PublishPlace,
    UpdateRolesetRank,
    UpdateRolesetData,
}

/// The listing URL of a group's audit log, optionally filtered to one
/// user.  The sort order opens the query string when no user filter
/// precedes it, so the parameters are always correctly delimited.
pub open spec fn audit_log_url(
    group_id: int,
    user_id: Option<i64>,
    sort_order: Option<SortOrder>,
) -> Seq<char> {
    let base = "https://groups.roblox.com/v1/groups/"@ + dec_int(group_id) + "/audit-log"@;
    match user_id {
        Some(u) => base + "?userId="@ + dec_int(u as int) + "&sortOrder="@ + sort_chars_or_asc(
            sort_order,
        ),
        None => base + "?sortOrder="@ + sort_chars_or_asc(sort_order),
    }
}

/// Gets the audit log for a group.
///
/// # Error codes
/// - 1: Group is invalid or does not exist.
/// - 23: Insufficient permissions to complete the request.
pub fn audit_log(
    group_id: i64,
    limit: PageLimit,
    user_id: Option<i64>,
    sort_order: Option<SortOrder>,
) -> (r: Paginator<GroupAuditLogEntry>)
    ensures
        r.base_url@ == audit_log_url(group_id as int, user_id, sort_order),
        r.limit == limit,
        r.items@ == Seq::<GroupAuditLogEntry>::empty(),
        !r.done,
        r.cursor is None,
{
    let mut url = cat3(
        "https://groups.roblox.com/v1/groups/",
        i64_to_string(group_id).as_str(),
        "/audit-log",
    );
    match user_id {
        Some(u) => {
            url = cat3(url.as_str(), "?userId=", i64_to_string(u).as_str());
            url = cat3(url.as_str(), "&sortOrder=", sort_order_string_or_asc(sort_order).as_str());
        },
        None => {
            url = cat3(url.as_str(), "?sortOrder=", sort_order_string_or_asc(sort_order).as_str());
        },
    }
    get_page(url.as_str(), limit, None)
}

/// One entry of a group's name history.
#[derive(Debug, Clone, PartialEq)]
pub struct GroupNameHistoryEntry {
    pub name: String,
    pub created: String,
}

/// Gets the name history for a group.
///
/// # Error codes
/// - 1: Group is invalid or does not exist.
/// - 23: Insufficient permissions to complete the request.
pub fn name_history(group_id: i64, limit: PageLimit, sort_order: Option<SortOrder>) -> (r:
    Paginator<GroupNameHistoryEntry>)
    ensures
        r.base_url@ == "https://groups.roblox.com/v1/groups/"@ + dec_int(group_id as int)
            + "/name-history"@ + "?sortOrder="@ + sort_chars_or_asc(sort_order),
        r.limit == limit,
        r.items@ == Seq::<GroupNameHistoryEntry>::empty(),
        !r.done,
        r.cursor is None,
{
    let url = cat3(
        "https://groups.roblox.com/v1/groups/",
        i64_to_string(group_id).as_str(),
        "/name-history",
    );
    let url = cat3(url.as_str(), "?sortOrder=", sort_order_string_or_asc(sort_order).as_str());
    get_page(url.as_str(), limit, None)
}

/// A group's settings.
#[derive(Debug, Clone, PartialEq)]
pub struct GroupSettings {
    pub is_approval_required: bool,
    pub is_builders_club_required: bool,
    pub are_enemies_allowed: bool,
    pub are_group_funds_visible: bool,
    pub are_group_games_visible: bool,
    pub is_group_name_change_enabled: bool,
}

/// Gets a group's settings.
///
/// # Error codes
/// - 1: Group is invalid or does not exist.
/// - 23: Insufficient permissions to complete the request.
pub fn settings(group_id: i64) -> (r: Call<()>)
    ensures
        r.verb == Verb::Get,
        r.body is None,
        r.url@ == "https://groups.roblox.com/v1/groups/"@ + dec_int(group_id as int)
            + "/settings"@,
{
    Call {
        verb: Verb::Get,
        url: cat3(
            "https://groups.roblox.com/v1/groups/",
            i64_to_string(group_id).as_str(),
            "/settings",
        ),
        body: None,
    }
}

/// The payload that updates a group's settings.
#[derive(Debug, Clone, PartialEq)]
pub struct GroupSettingsUpdateRequest {
    pub is_approval_required: Option<bool>,
    pub are_enemies_allowed: Option<bool>,
    pub are_group_funds_visible: Option<bool>,
    pub are_group_games_visible: Option<bool>,
}

/// The (empty) response to a settings update.
#[derive(Debug, Clone, PartialEq)]
pub struct GroupSettingsUpdateResponse {}

/// Updates a group's settings.
///
/// # Error codes
/// - 1: Group is invalid or does not exist.
/// - 23: Insufficient permissions to complete the request.
/// - 31: Service is currently unavailable.
pub fn update_settings(group_id: i64, request: GroupSettingsUpdateRequest) -> (r: Call<
    GroupSettingsUpdateRequest,
>)
    ensures
        r.verb == Verb::Patch,
        r.url@ == "https://groups.roblox.com/v1/groups/"@ + dec_int(group_id as int)
            + "/settings"@,
        r.body == Some(request),
{
    Call {
        verb: Verb::Patch,
        url: cat3(
            "https://groups.roblox.com/v1/groups/",
            i64_to_string(group_id).as_str(),
            "/settings",
        ),
        body: Some(request),
    }
}

/// One group's visibility record of the compliance endpoint.
#[derive(Debug, Clone, PartialEq)]
pub struct GroupComplianceItem {
    pub can_view_group: bool,
    pub group_id: i64,
}

/// The response of the compliance endpoint.
#[derive(Debug, Clone, PartialEq)]
pub struct GroupComplianceResponse {
    pub groups: Vec<GroupComplianceItem>,
}

/// The payload of the compliance endpoint.
#[derive(Debug, Clone, PartialEq)]
pub struct GroupComplianceRequest {
    pub group_ids: Vec<i64>,
}

/// Gets group policy info used for compliance.
///
/// # Error codes
/// - 1: Too many ids in request.
/// - 2: Ids could not be parsed from request.
pub fn compliance(group_ids: Vec<i64>) -> (r: Call<GroupComplianceRequest>)
    ensures
        r.verb == Verb::Post,
        r.url@ == "https://groups.roblox.com/v1/groups/policies"@,
        r.body matches Some(b) && b.group_ids == group_ids,
{
    Call {
        verb: Verb::Post,
        url: "https://groups.roblox.com/v1/groups/policies".to_owned(),
        body: Some(GroupComplianceRequest { group_ids }),
    }
}

/// The payload that updates a group's description.
#[derive(Debug, Clone, PartialEq)]
pub struct NewDescriptionRequest {
    pub description: String,
}

/// The response to a description update.
#[derive(Debug, Clone, PartialEq)]
pub struct NewDescriptionResponse {
    pub new_description: String,
}

/// Updates a group's description.
///
/// # Error codes
/// - 1: Group is invalid or does not exist.
/// - 18: The description is too long.
/// - 23: Insufficient permissions to complete the request.
/// - 29: Your group description was empty.
pub fn update_description(group_id: i64, description: String) -> (r: Call<NewDescriptionRequest>)
    ensures
        r.verb == Verb::Patch,
        r.url@ == "https://groups.roblox.com/v1/groups/"@ + dec_int(group_id as int)
            + "/description"@,
        r.body matches Some(b) && b.description == description,
{
    Call {
        verb: Verb::Patch,
        url: cat3(
            "https://groups.roblox.com/v1/groups/",
            i64_to_string(group_id).as_str(),
            "/description",
        ),
        body: Some(NewDescriptionRequest { description }),
    }
}

/// The payload that updates a group's name.
#[derive(Debug, Clone, PartialEq)]
pub struct NewNameRequest {
    pub name: String,
}

/// The response to a name update.
#[derive(Debug, Clone, PartialEq)]
pub struct NewNameResponse {
    pub new_name: String,
}

/// Updates a group's name.
///
/// **THIS COSTS ROBUX!**
///
/// # Error codes
/// - 1: Group is invalid or does not exist.
/// - 18: The description is too long.
/// - 23: Insufficient permissions to complete the request.
/// - 29: Your group description was empty.
pub fn update_name(group_id: i64, name: String) -> (r: Call<NewNameRequest>)
    ensures
        r.verb == Verb::Patch,
        r.url@ == "https://groups.roblox.com/v1/groups/"@ + dec_int(group_id as int)
            + "/description"@,
        r.body matches Some(b) && b.name == name,
{
    Call {
        verb: Verb::Patch,
        url: cat3(
            "https://groups.roblox.com/v1/groups/",
            i64_to_string(group_id).as_str(),
            "/description",
        ),
        body: Some(NewNameRequest { name }),
    }
}

/// The authenticated user's membership state in one group.
#[derive(Debug, Clone, PartialEq)]
pub struct GroupMembership {
    pub group_id: i64,
    pub is_primary: bool,
    pub is_pending_join: bool,
    pub group_role: Option<GroupMembershipUserRole>,
    pub permissions: GroupPermissions,
    pub are_group_games_visible: bool,
    pub are_group_funds_visible: bool,
    pub are_enemies_allowed: bool,
    pub can_configure: bool,
}

/// A user together with their role in a group.
#[derive(Debug, Clone, PartialEq)]
pub struct GroupMembershipUserRole {
    pub user: MinimalGroupUser,
    pub role: GroupRole,
}

/// Gets a user's group membership.
///
/// # Error codes
/// - 1: Group is invalid or does not exist.
pub fn membership(group_id: i64) -> (r: Call<()>)
    ensures
        r.verb == Verb::Get,
        r.body is None,
        r.url@ == "https://groups.roblox.com/v1/groups/"@ + dec_int(group_id as int)
            + "/membership"@,
{
    Call {
        verb: Verb::Get,
        url: cat3(
            "https://groups.roblox.com/v1/groups/",
            i64_to_string(group_id).as_str(),
            "/membership",
        ),
        body: None,
    }
}

/// Gets a list of users in a group.
///
/// # Error codes
/// - 1: The group is invalid or does not exist.
pub fn members(group_id: i64, limit: PageLimit, sort_order: Option<SortOrder>) -> (r: Paginator<
    GroupMembershipUserRole,
>)
    ensures
        r.base_url@ == "https://groups.roblox.com/v1/groups/"@ + dec_int(group_id as int)
            + "/users?sortOrder="@ + sort_chars_or_asc(sort_order),
        r.limit == limit,
        r.items@ == Seq::<GroupMembershipUserRole>::empty(),
        !r.done,
        r.cursor is None,
{
    let url = cat3(
        "https://groups.roblox.com/v1/groups/",
        i64_to_string(group_id).as_str(),
        "/users?sortOrder=",
    );
    let url = cat2(url.as_str(), sort_order_string_or_asc(sort_order).as_str());
    get_page(url.as_str(), limit, None)
}

/// Gets all groups the authenticated user is pending for.
/// **This does not list the pending requests of a specific group.**
///
/// # Error codes
/// There are no error codes for this endpoint.
pub fn pending_requests() -> (r: Call<()>)
    ensures
        r.verb == Verb::Get,
        r.body is None,
        r.url@ == "https://groups.roblox.com/v1/user/groups/pending"@,
{
    Call {
        verb: Verb::Get,
        url: "https://groups.roblox.com/v1/user/groups/pending".to_owned(),
        body: None,
    }
}

/// A group a friend is in, with the friend's role there.
#[derive(Debug, Clone, PartialEq)]
pub struct FriendGroupsGroupItem {
    pub group: Group,
    pub role: GroupRole,
    pub is_primary_group: Option<bool>,
}

/// One friend with the groups they are in.
#[derive(Debug, Clone, PartialEq)]
pub struct FriendGroupsItem {
    pub user: MinimalGroupUser,
    pub groups: Vec<FriendGroupsGroupItem>,
}

/// Gets all the groups a user's friends are in.  The caller supplies the
/// authenticated user's own id, as returned by the authenticated-user
/// lookup.
///
/// # Error codes
/// - 3: The user is invalid or does not exist.
pub fn friend_groups(user_id: i64) -> (r: Call<()>)
    ensures
        r.verb == Verb::Get,
        r.body is None,
        r.url@ == "https://groups.roblox.com/v1/users/"@ + dec_int(user_id as int)
            + "/friends/groups/roles"@,
{
    Call {
        verb: Verb::Get,
        url: cat3(
            "https://groups.roblox.com/v1/users/",
            i64_to_string(user_id).as_str(),
            "/friends/groups/roles",
        ),
        body: None,
    }
}

/// One group membership of a user, with their role there.
#[derive(Debug, Clone, PartialEq)]
pub struct UserMembershipsGroupItem {
    pub group: MinimalGroup,
    pub role: GroupRole,
}

/// Gets all the groups the specified user is in, each with the role the
/// user holds there.
///
/// # Error codes
/// - 3: The user is invalid or does not exist.
pub fn user_memberships(user_id: i64) -> (r: Call<()>)
    ensures
        r.verb == Verb::Get,
        r.body is None,
        r.url@ == "https://groups.roblox.com/v2/users/"@ + dec_int(user_id as int)
            + "/groups/roles"@,
{
    Call {
        verb: Verb::Get,
        url: cat3(
            "https://groups.roblox.com/v2/users/",
            i64_to_string(user_id).as_str(),
            "/groups/roles",
        ),
        body: None,
    }
}

/// The payload that changes a group's owner.
#[derive(Debug, Clone, PartialEq)]
pub struct GroupOwnershipChangeRequest {
    pub user_id: i64,
}

/// Changes the owner of a group.
///
/// # Error codes
/// - 1: The group is invalid or does not exist.
/// - 3: The user is invalid or does not exist.
/// - 15: User is not a member of the group.
/// - 16: The user does not have the necessary level of premium membership.
/// - 17: You are not authorized to change the owner of this group.
/// - 25: 2-Step Verification is required to make further transactions.
pub fn change_owner(group_id: i64, user_id: i64) -> (r: Call<GroupOwnershipChangeRequest>)
    ensures
        r.verb == Verb::Post,
        r.url@ == "https://groups.roblox.com/v1/groups/"@ + dec_int(group_id as int)
            + "/change-owner"@,
        r.body matches Some(b) && b.user_id == user_id,
{
    Call {
        verb: Verb::Post,
        url: cat3(
            "https://groups.roblox.com/v1/groups/",
            i64_to_string(group_id).as_str(),
            "/change-owner",
        ),
        body: Some(GroupOwnershipChangeRequest { user_id }),
    }
}

/// Claims the ownership of a group.
///
/// # Error codes
/// - 1: The group is invalid or does not exist.
/// - 11: You are not authorized to claim this group.
/// - 12: This group already has an owner.
/// - 13: Too many attempts to claim groups. Please try again later.
/// - 18: The operation is temporarily unavailable. Please try again later.
pub fn claim_ownership(group_id: i64) -> (r: Call<()>)
    ensures
        r.verb == Verb::Post,
        r.body is None,
        r.url@ == "https://groups.roblox.com/v1/groups/"@ + dec_int(group_id as int)
            + "/claim-ownership"@,
{
    Call {
        verb: Verb::Post,
        url: cat3(
            "https://groups.roblox.com/v1/groups/",
            i64_to_string(group_id).as_str(),
            "/claim-ownership",
        ),
        body: None,
    }
}

} // verus!
