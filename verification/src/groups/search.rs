//! Group search.

use vstd::prelude::*;

use crate::util::jar::{Call, Verb};
use crate::util::paging::PageLimit;
use crate::util::text::{bool_chars, bool_to_string, cat2, cat3, dec_int, i64_to_string};

verus! {

/// A search result record.
#[derive(Debug, Clone, PartialEq)]
pub struct SearchGroup {
    pub id: usize,
    pub name: String,
    pub description: String,
    pub member_count: usize,
    pub previous_name: Option<String>,
    pub public_entry_allowed: bool,
    pub created: String,
    pub updated: String,
    pub has_verified_badge: bool,
}

/// A search result record of the exact-match lookup.
#[derive(Debug, Clone, PartialEq)]
pub struct MinimalSearchGroup {
    pub id: usize,
    pub name: String,
    pub member_count: usize,
    pub has_verified_badge: bool,
}

/// Optional search parameters.
#[derive(Debug, Clone, PartialEq)]
pub struct GroupSearchProps {
    pub prioritize_exact_match: Option<bool>,
    pub limit: Option<PageLimit>,
    pub cursor: Option<String>,
}

/// One page of group search results.
#[derive(Debug, Clone, PartialEq)]
pub struct GroupSearchResponse {
    pub keyword: String,
    pub next_page_cursor: Option<String>,
    pub previous_page_cursor: Option<String>,
    pub results: Vec<SearchGroup>,
}

/// The search URL for a keyword with the given optional parameters.
pub open spec fn search_url(keyword: Seq<char>, props: Option<GroupSearchProps>) -> Seq<char> {
    let base = "https://groups.roblox.com/v1/groups/search?keyword="@ + keyword;
    match props {
        None => base,
        Some(p) => {
            let with_match = match p.prioritize_exact_match {
                Some(b) => base + "&prioritizeExactMatch="@ + bool_chars(b),
                None => base,
            };
            let with_limit = match p.limit {
                Some(l) => with_match + "&limit="@ + dec_int(l.limit_value()),
                None => with_match,
            };
            match p.cursor {
                Some(c) => with_limit + "&cursor="@ + c@,
                None => with_limit,
            }
        },
    }
}

/// Search for a group with a keyword.
///
/// # Error codes
/// - 2: Search term not appropriate for Roblox.
/// - 3: Search term was left empty.
/// - 4: Search terms can be 2 to 50 characters long.
pub fn search(keyword: String, props: Option<GroupSearchProps>) -> (r: Call<()>)
    ensures
        r.verb == Verb::Get,
        r.body is None,
        r.url@ == search_url(keyword@, props),
{
    let mut url = cat2("https://groups.roblox.com/v1/groups/search?keyword=", keyword.as_str());
    match props {
        Some(p) => {
            if let Some(b) = p.prioritize_exact_match {
                url = cat3(url.as_str(), "&prioritizeExactMatch=", bool_to_string(b).as_str());
            }
            if let Some(l) = p.limit {
                url = cat3(url.as_str(), "&limit=", i64_to_string(l.get_limit()).as_str());
            }
            if let Some(c) = p.cursor {
                url = cat3(url.as_str(), "&cursor=", c.as_str());
            }
        },
        None => {},
    }
    Call { verb: Verb::Get, url, body: None }
}

/// Search for a group by its exact name.
///
/// # Error codes
/// - 2: Search term not appropriate for Roblox.
/// - 3: Search term was left empty.
/// - 4: Search terms can be 2 to 50 characters long.
pub fn exact_search(group_name: String) -> (r: Call<()>)
    ensures
        r.verb == Verb::Get,
        r.body is None,
        r.url@ == "https://groups.roblox.com/v1/groups/search/lookup?groupName="@ + group_name@,
{
    Call {
        verb: Verb::Get,
        url: cat2(
            "https://groups.roblox.com/v1/groups/search/lookup?groupName=",
            group_name.as_str(),
        ),
        body: None,
    }
}

/// Group search metadata.
#[derive(Debug, Clone, PartialEq)]
pub struct GroupSearchMetadata {
    pub suggested_group_keywords: Vec<String>,
    pub show_friends_groups_sort: bool,
}

/// Get group search metadata.
///
/// # Error codes
/// - 5: No Localized Version of group search category exists
pub fn search_metadata() -> (r: Call<()>)
    ensures
        r.verb == Verb::Get,
        r.body is None,
        r.url@ == "https://groups.roblox.com/v1/groups/search/metadata"@,
{
    Call {
        verb: Verb::Get,
        url: "https://groups.roblox.com/v1/groups/search/metadata".to_owned(),
        body: None,
    }
}

} // verus!
