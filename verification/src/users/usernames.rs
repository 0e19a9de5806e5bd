//! Username history.

use vstd::prelude::*;

use crate::util::paging::{get_page, PageLimit, Paginator};
use crate::util::text::{cat3, dec_int, i64_to_string};

verus! {

/// One entry of a user's username history.
#[derive(Debug, Clone, PartialEq)]
pub struct UsernameHistoryEntry {
    pub name: String,
}

/// Retrieves the username history for a user, across every page.
///
/// # Error codes
/// - 3: The user id is invalid
pub fn username_history(user_id: i64) -> (r: Paginator<UsernameHistoryEntry>)
    ensures
        r.base_url@ == "https://users.roblox.com/v1/users/"@ + dec_int(user_id as int)
            + "/username-history"@,
        r.limit == PageLimit::All,
        r.items@ == Seq::<UsernameHistoryEntry>::empty(),
        !r.done,
        r.cursor is None,
{
    let url = cat3(
        "https://users.roblox.com/v1/users/",
        i64_to_string(user_id).as_str(),
        "/username-history",
    );
    get_page(url.as_str(), PageLimit::All, None)
}

} // verus!
