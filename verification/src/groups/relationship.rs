//! Management of one group relationship request at a time (enemies and
//! allies).

use vstd::prelude::*;

use crate::groups::relationships::RelationshipType;
use crate::util::jar::{Call, Verb};
use crate::util::text::{dec_nat, u64_to_string};

verus! {

/// The URL of one pending relationship request of a group.
pub open spec fn relationship_request_url(
    group_id: nat,
    t: RelationshipType,
    relation_group_id: nat,
) -> Seq<char> {
    "https://groups.roblox.com/v1/groups/"@ + dec_nat(group_id) + "/relationships/"@
        + t.relationship_type_chars() + "/requests/"@ + dec_nat(relation_group_id)
}

fn build_relationship_request_url(
    group_id: u32,
    t: RelationshipType,
    relation_group_id: u32,
) -> (r: String)
    ensures
        r@ == relationship_request_url(group_id as nat, t, relation_group_id as nat),
{
    let mut url = "https://groups.roblox.com/v1/groups/".to_owned();
    url.append(u64_to_string(group_id as u64).as_str());
    url.append("/relationships/");
    url.append(t.get_relationship_type_string().as_str());
    url.append("/requests/");
    url.append(u64_to_string(relation_group_id as u64).as_str());
    url
}

/// Declines a group relationship request for a group.
///
/// # Error codes
/// - 1: Group is invalid or does not exist.
/// - 4: Group relationship type or request type is invalid.
/// - 5: You don't have permission to manage this group's relationships.
pub fn decline(group_id: u32, relation_group_id: u32, relationship_type: RelationshipType) -> (r:
    Call<()>)
    ensures
        r.verb == Verb::Delete,
        r.body is None,
        r.url@ == relationship_request_url(
            group_id as nat,
            relationship_type,
            relation_group_id as nat,
        ),
{
    Call {
        verb: Verb::Delete,
        url: build_relationship_request_url(group_id, relationship_type, relation_group_id),
        body: None,
    }
}

/// Accepts a group relationship request for a group.
///
/// # Error codes
/// - 1: Group is invalid or does not exist.
/// - 4: Group relationship type or request type is invalid.
/// - 5: You don't have permission to manage this group's relationships.
pub fn accept(group_id: u32, relation_group_id: u32, relationship_type: RelationshipType) -> (r:
    Call<()>)
    ensures
        r.verb == Verb::Post,
        r.body is None,
        r.url@ == relationship_request_url(
            group_id as nat,
            relationship_type,
            relation_group_id as nat,
        ),
{
    Call {
        verb: Verb::Post,
        url: build_relationship_request_url(group_id, relationship_type, relation_group_id),
        body: None,
    }
}

} // verus!
