//! Game thumbnails.

use vstd::prelude::*;

use crate::thumbnails::{
    format_chars_or_default, format_string_or_default, size_chars_or_default,
    size_string_or_default, ThumbnailFormat, ThumbnailSize,
};
use crate::util::jar::{Call, Verb};
use crate::util::text::{bool_chars, bool_to_string, comma_join_u64, dec_join, dec_nat,
    u64_to_string};

verus! {

/// Retrieves thumbnails for games.
///
/// # Error codes
/// - 1: There are too many requested Ids.
/// - 2: The requested image format is invalid.
/// - 3: The requested size is invalid.
/// - 4: The requested Ids are invalid, of an invalid type or missing.
/// - 5: The requested universe does not exist.
/// - 10: Circular thumbnail requests are not allowed
pub fn get_game_thumbnails(
    universe_id: u64,
    thumbnail_ids: Vec<u64>,
    thumbnail_size: Option<ThumbnailSize>,
    thumbnail_format: Option<ThumbnailFormat>,
    is_circular: bool,
) -> (r: Call<()>)
    ensures
        r.verb == Verb::Get,
        r.body is None,
        r.url@ == "https://thumbnails.roblox.com/v1/games/"@ + dec_nat(universe_id as nat)
            + "/thumbnails?thumbnailIds="@ + dec_join(thumbnail_ids@.map_values(|x: u64| x as int))
            + "&size="@ + size_chars_or_default(thumbnail_size) + "&format="@
            + format_chars_or_default(thumbnail_format) + "&isCircular="@ + bool_chars(is_circular),
{
    let mut url = "https://thumbnails.roblox.com/v1/games/".to_owned();
    url.append(u64_to_string(universe_id).as_str());
    url.append("/thumbnails?thumbnailIds=");
    url.append(comma_join_u64(&thumbnail_ids).as_str());
    url.append("&size=");
    url.append(size_string_or_default(thumbnail_size).as_str());
    url.append("&format=");
    url.append(format_string_or_default(thumbnail_format).as_str());
    url.append("&isCircular=");
    url.append(bool_to_string(is_circular).as_str());
    Call { verb: Verb::Get, url, body: None }
}

} // verus!
