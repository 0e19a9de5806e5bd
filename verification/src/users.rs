//! Bindings for the users endpoints: account lookups, bulk lookups,
//! username history and search, and display-name validation.

pub mod display_names;
pub mod username_search;
pub mod usernames;
pub mod users;

use vstd::prelude::*;

verus! {

/// A user record, with the field spellings the wire format uses.
#[allow(non_snake_case)]
#[derive(Debug, Clone, PartialEq)]
pub struct User {
    pub description: String,
    pub created: String,
    pub isBanned: bool,
    pub externalAppDisplayName: Option<String>,
    pub hasVerifiedBadge: bool,
    pub id: usize,
    pub name: String,
    pub displayName: String,
}

/// The short user record, with the field spellings the wire format uses.
#[allow(non_snake_case)]
#[derive(Debug, Clone, PartialEq)]
pub struct PartialUser {
    pub id: usize,
    pub name: String,
    pub displayName: String,
}

} // verus!
