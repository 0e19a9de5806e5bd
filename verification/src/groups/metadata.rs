//! Group metadata endpoints.

use vstd::prelude::*;

use crate::util::jar::{Call, Verb};

verus! {

/// The metadata for group configuration.
#[derive(Debug, Clone, PartialEq)]
pub struct GroupConfigMetadata {
    pub group_configuration: GroupConfigurationMetadata,
    pub recurring_payouts_configuration: GroupRecurringPayoutsConfigurationMetadata,
    pub role_configuration: GroupRoleConfigurationMetadata,
    pub group_name_change_configuration: GroupNameChangeConfigurationMetadata,
    pub is_premium_payouts_enabled: bool,
    pub is_default_emblem_policy_enabled: bool,
}

/// Limits on a group's configuration.
#[derive(Debug, Clone, PartialEq)]
pub struct GroupConfigurationMetadata {
    pub name_max_length: u32,
    pub description_max_length: u32,
    pub icon_max_file_size_mb: u32,
    pub cost: u32,
    pub is_using_two_step_webview_component: bool,
}

/// Limits on recurring payouts.
#[derive(Debug, Clone, PartialEq)]
pub struct GroupRecurringPayoutsConfigurationMetadata {
    pub max_payout_partners: u32,
}

/// Limits on role configuration.
#[derive(Debug, Clone, PartialEq)]
pub struct GroupRoleConfigurationMetadata {
    pub name_max_length: u32,
    pub description_max_length: u32,
    pub limit: u32,
    pub cost: u32,
    pub min_rank: u32,
    pub max_rank: u32,
}

/// Limits on group name changes.
#[derive(Debug, Clone, PartialEq)]
pub struct GroupNameChangeConfigurationMetadata {
    pub cost: u32,
    pub cooldown_in_days: u32,
    pub ownership_cooldown_in_days: u32,
}

/// Gets the metadata for group configuration.
pub fn config_metadata() -> (r: Call<()>)
    ensures
        r.verb == Verb::Get,
        r.body is None,
        r.url@ == "https://groups.roblox.com/v1/groups/configuration/metadata"@,
{
    Call {
        verb: Verb::Get,
        url: "https://groups.roblox.com/v1/groups/configuration/metadata".to_owned(),
        body: None,
    }
}

/// General group limits and feature switches.
#[derive(Debug, Clone, PartialEq)]
pub struct GroupMetadata {
    pub group_limit: u32,
    pub current_group_count: u32,
    pub group_status_max_length: u32,
    pub group_post_max_length: u32,
    pub is_group_wall_notifications_enabled: bool,
    pub group_wall_notifications_subscribe_interval_in_milliseconds: u32,
    pub are_profile_groups_hidden: bool,
    pub is_group_details_policy_enabled: bool,
    pub show_previous_group_names: bool,
}

/// Gets the metadata for groups.
pub fn metadata() -> (r: Call<()>)
    ensures
        r.verb == Verb::Get,
        r.body is None,
        r.url@ == "https://groups.roblox.com/v1/groups/metadata"@,
{
    Call {
        verb: Verb::Get,
        url: "https://groups.roblox.com/v1/groups/metadata".to_owned(),
        body: None,
    }
}

} // verus!
