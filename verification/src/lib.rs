//! A typed client library for the Roblox web API (groups, users, thumbnails,
//! relationships, wall posts, join requests).
//!
//! The library builds correctly-formed requests against a fixed set of REST
//! endpoints, attaches session and anti-forgery headers, and classifies
//! responses into typed results or a local error taxonomy.  Everything that
//! can be decided from plain values — URL construction, header attachment,
//! status classification, the token-refresh retry rule, pagination — lives
//! here and is verified.  The driver that actually moves bytes over the
//! network feeds observed responses back into the state machines of
//! [`util::jar`] and [`util::paging`].

pub mod groups;
pub mod thumbnails;
pub mod users;
pub mod util;
