//! User lookups: by id, by authenticated session, and in bulk.

use vstd::prelude::*;

use crate::util::jar::{Call, Verb};
use crate::util::text::{cat2, dec_int, i64_to_string};

verus! {

/// A full user record.
#[derive(Debug, Clone, PartialEq)]
pub struct User {
    pub description: String,
    pub created: String,
    pub is_banned: bool,
    pub external_app_display_name: Option<String>,
    pub has_verified_badge: bool,
    pub id: i64,
    pub name: String,
    pub display_name: String,
}

/// The short user record used inside group payloads.
#[derive(Debug, Clone, PartialEq)]
pub struct MinimalGroupUser {
    pub has_verified_badge: bool,
    pub user_id: i64,
    pub username: String,
    pub display_name: String,
}

/// Gets a user by their user ID.
///
/// # Error codes
/// - 3: The user id is invalid
pub fn user_by_id(user_id: i64) -> (r: Call<()>)
    ensures
        r.verb == Verb::Get,
        r.body is None,
        r.url@ == "https://users.roblox.com/v1/users/"@ + dec_int(user_id as int),
{
    Call {
        verb: Verb::Get,
        url: cat2("https://users.roblox.com/v1/users/", i64_to_string(user_id).as_str()),
        body: None,
    }
}

/// The record the authenticated-user endpoint returns.
#[derive(Debug, Clone, PartialEq)]
pub struct MinimalAuthenticatedUser {
    pub id: i64,
    pub name: String,
    pub display_name: String,
}

/// Gets the currently authenticated user.
pub fn whoami() -> (r: Call<()>)
    ensures
        r.verb == Verb::Get,
        r.body is None,
        r.url@ == "https://users.roblox.com/v1/users/authenticated"@,
{
    Call {
        verb: Verb::Get,
        url: "https://users.roblox.com/v1/users/authenticated".to_owned(),
        body: None,
    }
}

/// The age bracket of the authenticated user.
#[derive(Debug, Clone, PartialEq)]
pub struct AgeBracketResponse {
    pub age_bracket: i64,
}

/// Gets the age bracket of the currently authenticated user.
pub fn age_bracket() -> (r: Call<()>)
    ensures
        r.verb == Verb::Get,
        r.body is None,
        r.url@ == "https://users.roblox.com/v1/users/authenticated/age-bracket"@,
{
    Call {
        verb: Verb::Get,
        url: "https://users.roblox.com/v1/users/authenticated/age-bracket".to_owned(),
        body: None,
    }
}

/// The country code of the authenticated user.
#[derive(Debug, Clone, PartialEq)]
pub struct CountryCodeResponse {
    pub country_code: String,
}

/// Gets the country code of the currently authenticated user.
pub fn country_code() -> (r: Call<()>)
    ensures
        r.verb == Verb::Get,
        r.body is None,
        r.url@ == "https://users.roblox.com/v1/users/authenticated/country-code"@,
{
    Call {
        verb: Verb::Get,
        url: "https://users.roblox.com/v1/users/authenticated/country-code".to_owned(),
        body: None,
    }
}

/// The roles of the authenticated user.
#[derive(Debug, Clone, PartialEq)]
pub struct RolesResponse {
    pub roles: Vec<String>,
}

/// Gets the roles of the currently authenticated user.
pub fn roles() -> (r: Call<()>)
    ensures
        r.verb == Verb::Get,
        r.body is None,
        r.url@ == "https://users.roblox.com/v1/users/authenticated/roles"@,
{
    Call {
        verb: Verb::Get,
        url: "https://users.roblox.com/v1/users/authenticated/roles".to_owned(),
        body: None,
    }
}

/// A user record of the bulk-by-username endpoint.
#[derive(Debug, Clone, PartialEq)]
pub struct MinimalBulkUserByUsername {
    pub requested_username: String,
    pub has_verified_badge: bool,
    pub id: i64,
    pub name: String,
    pub display_name: String,
}

/// The payload of the bulk-by-username endpoint.
#[derive(Debug, Clone, PartialEq)]
pub struct BulkUsersByUsernameRequest {
    pub usernames: Vec<String>,
    pub exclude_banned_users: bool,
}

/// Gets a list of users by their usernames.  Banned users are left out.
///
/// # Error codes
/// - 2: Too many usernames
pub fn bulk_users_by_username(usernames: Vec<String>) -> (r: Call<BulkUsersByUsernameRequest>)
    ensures
        r.verb == Verb::Post,
        r.url@ == "https://users.roblox.com/v1/usernames/users"@,
        r.body matches Some(b) && b.usernames == usernames && b.exclude_banned_users,
{
    Call {
        verb: Verb::Post,
        url: "https://users.roblox.com/v1/usernames/users".to_owned(),
        body: Some(BulkUsersByUsernameRequest { usernames, exclude_banned_users: true }),
    }
}

/// A user record of the bulk-by-id endpoint.
#[derive(Debug, Clone, PartialEq)]
pub struct MinimalBulkUserById {
    pub has_verified_badge: bool,
    pub id: i64,
    pub name: String,
    pub display_name: String,
}

/// The payload of the bulk-by-id endpoint.
#[derive(Debug, Clone, PartialEq)]
pub struct BulkUsersByIdRequest {
    pub user_ids: Vec<i64>,
    pub exclude_banned_users: bool,
}

/// Gets a list of users by their ids.  Banned users are left out.
///
/// # Error codes
/// - 2: Too many ids
pub fn bulk_users_by_id(user_ids: Vec<i64>) -> (r: Call<BulkUsersByIdRequest>)
    ensures
        r.verb == Verb::Post,
        r.url@ == "https://users.roblox.com/v1/users"@,
        r.body matches Some(b) && b.user_ids == user_ids && b.exclude_banned_users,
{
    Call {
        verb: Verb::Post,
        url: "https://users.roblox.com/v1/users".to_owned(),
        body: Some(BulkUsersByIdRequest { user_ids, exclude_banned_users: true }),
    }
}

} // verus!
