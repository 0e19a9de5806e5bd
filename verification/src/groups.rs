//! Bindings for the groups endpoints: group lookup and configuration,
//! membership, roles, relationships, join requests, wall posts, social
//! links, revenue and search.

pub mod groups;
pub mod join_request;
pub mod join_requests;
pub mod membership;
pub mod metadata;
pub mod permissions;
pub mod primary;
pub mod relationship;
pub mod relationship_batch;
pub mod relationships;
pub mod revenue;
pub mod roles;
pub mod search;
pub mod social_links;
pub mod wall;
