//! Username search.

use vstd::prelude::*;

use crate::util::paging::{get_page, PageLimit, Paginator};
use crate::util::text::cat2;
use crate::util::Error;

verus! {

/// One result of a username search.
#[derive(Debug, Clone, PartialEq)]
pub struct UsernameSearchEntry {
    pub previous_usernames: Vec<String>,
    pub has_verified_badge: bool,
    pub id: usize,
    pub name: String,
    pub display_name: String,
}

/// Searches for a user using a keyword.  The endpoint forbids unbounded
/// paging, so an "all pages" limit is rejected locally with
/// `Error::InvalidPageLimit`.
pub fn username_search(keyword: String, limit: PageLimit) -> (r: Result<
    Paginator<UsernameSearchEntry>,
    Error,
>)
    ensures
        limit == PageLimit::All <==> r is Err,
        r matches Err(e) ==> e == Error::InvalidPageLimit,
        r matches Ok(p) ==> p.base_url@ == "https://users.roblox.com/v1/users/search?keyword="@
            + keyword@ && p.limit == limit && p.items@ == Seq::<UsernameSearchEntry>::empty()
            && !p.done && p.cursor is None,
{
    if limit == PageLimit::All {
        return Err(Error::InvalidPageLimit);
    }
    let url = cat2("https://users.roblox.com/v1/users/search?keyword=", keyword.as_str());
    Ok(get_page(url.as_str(), limit, None))
}

} // verus!
