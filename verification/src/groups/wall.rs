//! Group wall posts.

use vstd::prelude::*;

use crate::users::users::MinimalGroupUser;
use crate::util::jar::{Call, Verb};
use crate::util::paging::{
    get_page, sort_chars_or_asc, sort_order_string_or_asc, PageLimit, Paginator, SortOrder,
};
use crate::util::text::{dec_int, i64_to_string};

verus! {

/// One wall post.
#[derive(Debug, Clone, PartialEq)]
pub struct WallPost {
    pub id: i64,
    pub poster: MinimalGroupUser,
    pub body: String,
    pub created: String,
    pub updated: String,
}

/// Gets a group's wall posts.
///
/// # Error codes
/// - 1: The group is invalid or does not exist.
/// - 2: You do not have permission to access this group wall.
pub fn wall(group_id: i64, limit: PageLimit, sort_order: Option<SortOrder>) -> (r: Paginator<
    WallPost,
>)
    ensures
        r.base_url@ == "https://groups.roblox.com/v1/groups/"@ + dec_int(group_id as int)
            + "/wall/posts?sortOrder="@ + sort_chars_or_asc(sort_order),
        r.limit == limit,
        r.items@ == Seq::<WallPost>::empty(),
        !r.done,
        r.cursor is None,
{
    let mut url = "https://groups.roblox.com/v1/groups/".to_owned();
    url.append(i64_to_string(group_id).as_str());
    url.append("/wall/posts?sortOrder=");
    url.append(sort_order_string_or_asc(sort_order).as_str());
    get_page(url.as_str(), limit, None)
}

/// Deletes a group's wall post.
///
/// # Error codes
/// - 1: The group is invalid or does not exist.
/// - 2: You do not have permission to access this group wall
/// - 3: The group wall post id is invalid or does not exist.
pub fn delete_wall_post(group_id: i64, post_id: i64) -> (r: Call<()>)
    ensures
        r.verb == Verb::Delete,
        r.body is None,
        r.url@ == "https://groups.roblox.com/v1/groups/"@ + dec_int(group_id as int)
            + "/wall/posts/"@ + dec_int(post_id as int),
{
    let mut url = "https://groups.roblox.com/v1/groups/".to_owned();
    url.append(i64_to_string(group_id).as_str());
    url.append("/wall/posts/");
    url.append(i64_to_string(post_id).as_str());
    Call { verb: Verb::Delete, url, body: None }
}

/// Deletes all posts by a user on a group's wall.
///
/// # Error codes
/// - 1: The group is invalid or does not exist.
/// - 2: You do not have permission to access this group wall.
/// - 6: The user specified is invalid or does not exist.
pub fn delete_wall_posts_by_user(group_id: i64, user_id: i64) -> (r: Call<()>)
    ensures
        r.verb == Verb::Delete,
        r.body is None,
        r.url@ == "https://groups.roblox.com/v1/groups/"@ + dec_int(group_id as int)
            + "/wall/users/"@ + dec_int(user_id as int) + "/posts"@,
{
    let mut url = "https://groups.roblox.com/v1/groups/".to_owned();
    url.append(i64_to_string(group_id).as_str());
    url.append("/wall/users/");
    url.append(i64_to_string(user_id).as_str());
    url.append("/posts");
    Call { verb: Verb::Delete, url, body: None }
}

} // verus!
