//! Group social links.

use vstd::prelude::*;

use crate::util::jar::{Call, Verb};
use crate::util::text::{cat3, dec_nat, u64_to_string};

verus! {

/// The services a social link can point at.
#[derive(Debug, Clone, Copy, PartialEq, Eq, Structural)]
pub enum SocialLinkType {
    Facebook,
    Twitter,
    YouTube,
    Twitch,
    GooglePlus,
    Discord,
    RobloxGroup,
    Amazon,
    Guilded,
}

/// One social link of a group.
#[derive(Debug, Clone, PartialEq)]
pub struct SocialLink {
    /// Only present when retrieving social links.  Not provided when adding
    /// a social link.
    pub id: Option<usize>,
    pub link_type: SocialLinkType,
    pub url: String,
    pub title: String,
}

/// Gets a group's social links.
///
/// # Error codes
/// - 1: The group is invalid or does not exist.
/// - 11: Social links cannot be processed as this time.
/// - 13: Only users who are over thirteen years of age may view social links.
pub fn social_links(group_id: usize) -> (r: Call<()>)
    ensures
        r.verb == Verb::Get,
        r.body is None,
        r.url@ == "https://groups.roblox.com/v1/groups/"@ + dec_nat(group_id as nat)
            + "/social-links"@,
{
    Call {
        verb: Verb::Get,
        url: cat3(
            "https://groups.roblox.com/v1/groups/",
            u64_to_string(group_id as u64).as_str(),
            "/social-links",
        ),
        body: None,
    }
}

/// Adds a social link to a group.
///
/// # Error codes
/// - 1: The group is invalid or does not exist.
/// - 2: You do not have permission to configure this social link.
/// - 3: The social link title is too long.
/// - 4: The social link title cannot be empty.
/// - 5: The social link url cannot be empty.
/// - 7: The request was null.
/// - 8: The requested group or social link was not found.
/// - 9: The social link type is invalid.
/// - 11: Social links cannot be processed as this time.
/// - 12: The social link title was moderated.
pub fn add_social_link(group_id: usize, social_link: SocialLink) -> (r: Call<SocialLink>)
    ensures
        r.verb == Verb::Post,
        r.url@ == "https://groups.roblox.com/v1/groups/"@ + dec_nat(group_id as nat)
            + "/social-links"@,
        r.body == Some(social_link),
{
    Call {
        verb: Verb::Post,
        url: cat3(
            "https://groups.roblox.com/v1/groups/",
            u64_to_string(group_id as u64).as_str(),
            "/social-links",
        ),
        body: Some(social_link),
    }
}

} // verus!
