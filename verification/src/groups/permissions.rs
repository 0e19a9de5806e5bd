//! Role permissions.

use vstd::prelude::*;

use crate::groups::roles::GroupRole;
use crate::util::jar::{Call, Verb};
use crate::util::text::{dec_nat, u64_to_string};

verus! {

/// The permission sets of a role.
#[derive(Debug, Clone, PartialEq)]
pub struct GroupPermissions {
    pub group_posts_permissions: GroupPostPermissions,
    pub group_membership_permissions: GroupMembershipPermissions,
    pub group_management_permissions: GroupManagementPermissions,
    pub group_economy_permissions: GroupEconomyPermissions,
    pub group_open_cloud_permissions: GroupOpenCloudPermissions,
}

/// Permissions on the group's wall and status.
#[derive(Debug, Clone, PartialEq)]
pub struct GroupPostPermissions {
    pub view_wall: bool,
    pub post_to_wall: bool,
    pub delete_from_wall: bool,
    pub view_status: bool,
    pub post_to_status: bool,
}

/// Permissions on the group's membership.
#[derive(Debug, Clone, PartialEq)]
pub struct GroupMembershipPermissions {
    pub change_rank: bool,
    pub invite_members: bool,
    pub remove_members: bool,
}

/// Permissions on the group's management.
#[derive(Debug, Clone, PartialEq)]
pub struct GroupManagementPermissions {
    pub manage_relationships: bool,
    pub manage_clan: bool,
    pub view_audit_logs: bool,
}

/// Permissions on the group's economy.
#[derive(Debug, Clone, PartialEq)]
pub struct GroupEconomyPermissions {
    pub spend_group_funds: bool,
    pub advertise_group: bool,
    pub create_items: bool,
    pub manage_items: bool,
    pub add_group_places: bool,
    pub manage_group_games: bool,
    pub view_group_payouts: bool,
    pub view_analytics: bool,
}

/// Permissions on the group's open-cloud access.
#[derive(Debug, Clone, PartialEq)]
pub struct GroupOpenCloudPermissions {
    pub use_cloud_authentication: bool,
    pub administer_cloud_authentication: bool,
}

/// The permissions of one role in a group.
#[derive(Debug, Clone, PartialEq)]
pub struct RolePermissions {
    pub group_id: usize,
    pub role: GroupRole,
    pub permissions: GroupPermissions,
}

/// Gets the permissions for a specific role in a group.
///
/// # Error codes
/// - 1: Group is invalid or does not exist.
/// - 2: The roleset is invalid or does not exist.
/// - 3: You are not authorized to view/edit permissions for this role.
pub fn role_permissions(group_id: usize, role_id: usize) -> (r: Call<()>)
    ensures
        r.verb == Verb::Get,
        r.body is None,
        r.url@ == "https://groups.roblox.com/v1/groups/"@ + dec_nat(group_id as nat) + "/roles/"@
            + dec_nat(role_id as nat) + "/permissions"@,
{
    let mut url = "https://groups.roblox.com/v1/groups/".to_owned();
    url.append(u64_to_string(group_id as u64).as_str());
    url.append("/roles/");
    url.append(u64_to_string(role_id as u64).as_str());
    url.append("/permissions");
    Call { verb: Verb::Get, url, body: None }
}

} // verus!
