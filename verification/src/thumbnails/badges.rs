//! Badge thumbnails.

use vstd::prelude::*;

use crate::util::jar::{Call, Verb};
use crate::util::text::{bool_chars, bool_to_string, comma_join_u64, dec_join};

verus! {

/// Retrieves thumbnails for badges.
///
/// # Error codes
/// - 1: There are too many requested Ids.
/// - 2: The requested image format is invalid.
/// - 3: The requested size is invalid.
/// - 4: The requested Ids are invalid, of an invalid type or missing.
/// - 10: Circular thumbnail requests are not allowed
pub fn get_badge_thumbnails(badge_ids: Vec<u64>, is_circular: bool) -> (r: Call<()>)
    ensures
        r.verb == Verb::Get,
        r.body is None,
        r.url@ == "https://thumbnails.roblox.com/v1/assets?badgeIds="@ + dec_join(
            badge_ids@.map_values(|x: u64| x as int),
        ) + "&isCircular="@ + bool_chars(is_circular),
{
    let mut url = "https://thumbnails.roblox.com/v1/assets?badgeIds=".to_owned();
    url.append(comma_join_u64(&badge_ids).as_str());
    url.append("&isCircular=");
    url.append(bool_to_string(is_circular).as_str());
    Call { verb: Verb::Get, url, body: None }
}

} // verus!
