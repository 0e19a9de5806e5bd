//! Batch management of group relationship requests (enemies and allies).

use vstd::prelude::*;

use crate::groups::relationships::{BatchRequest, RelationshipType};
use crate::util::jar::{Call, Verb};
use crate::util::text::{dec_nat, u64_to_string};

verus! {

/// The URL that manages the pending relationship requests of one type.
pub open spec fn batch_request_url(group_id: nat, t: RelationshipType) -> Seq<char> {
    "https://groups.roblox.com/v1/groups/"@ + dec_nat(group_id) + "/relationships/"@
        + t.relationship_type_chars() + "/requests"@
}

fn build_batch_request_url(group_id: u32, t: RelationshipType) -> (r: String)
    ensures
        r@ == batch_request_url(group_id as nat, t),
{
    let mut url = "https://groups.roblox.com/v1/groups/".to_owned();
    url.append(u64_to_string(group_id as u64).as_str());
    url.append("/relationships/");
    url.append(t.get_relationship_type_string().as_str());
    url.append("/requests");
    url
}

fn copy_ids(ids: &Vec<u32>) -> (r: Vec<u32>)
    ensures
        r@ == ids@,
{
    let mut out: Vec<u32> = Vec::new();
    let mut i: usize = 0;
    while i < ids.len()
        invariant
            i <= ids@.len(),
            out@ == ids@.subrange(0, i as int),
        decreases ids@.len() - i,
    {
        out.push(ids[i]);
        proof {
            assert(out@ =~= ids@.subrange(0, i as int + 1));
        }
        i += 1;
    }
    proof {
        assert(ids@.subrange(0, ids@.len() as int) =~= ids@);
    }
    out
}

/// The requests a batch decision decomposes into: one for a concrete
/// relationship type, or — for the compound type — one per concrete type,
/// enemies first.
#[derive(Debug, Clone, PartialEq)]
pub enum BatchPlan {
    Single(Call<BatchRequest>),
    Pair { enemies: Call<BatchRequest>, allies: Call<BatchRequest> },
}

/// Declines a batch of group relationship requests for a group.  The
/// compound type decomposes into one decision per concrete type, each
/// carrying the same ids.
///
/// # Error codes
/// - 1: Group is invalid or does not exist.
/// - 4: Group relationship type or request type is invalid.
/// - 5: You don't have permission to manage this group's relationships.
pub fn decline(group_id: u32, group_ids: Vec<u32>, relationship_type: RelationshipType) -> (r:
    BatchPlan)
    ensures
        relationship_type == RelationshipType::All ==> (r matches BatchPlan::Pair {
            enemies,
            allies,
        } && enemies.verb == Verb::Delete && enemies.url@ == batch_request_url(
            group_id as nat,
            RelationshipType::Enemy,
        ) && (enemies.body matches Some(b) && b.group_ids@ == group_ids@) && allies.verb
            == Verb::Delete && allies.url@ == batch_request_url(
            group_id as nat,
            RelationshipType::Ally,
        ) && (allies.body matches Some(b) && b.group_ids@ == group_ids@)),
        relationship_type != RelationshipType::All ==> (r matches BatchPlan::Single(c) && c.verb
            == Verb::Delete && c.url@ == batch_request_url(group_id as nat, relationship_type) && (
        c.body matches Some(b) && b.group_ids@ == group_ids@)),
{
    if relationship_type == RelationshipType::All {
        let ids_for_allies = copy_ids(&group_ids);
        BatchPlan::Pair {
            enemies: Call {
                verb: Verb::Delete,
                url: build_batch_request_url(group_id, RelationshipType::Enemy),
                body: Some(BatchRequest { group_ids }),
            },
            allies: Call {
                verb: Verb::Delete,
                url: build_batch_request_url(group_id, RelationshipType::Ally),
                body: Some(BatchRequest { group_ids: ids_for_allies }),
            },
        }
    } else {
        BatchPlan::Single(
            Call {
                verb: Verb::Delete,
                url: build_batch_request_url(group_id, relationship_type),
                body: Some(BatchRequest { group_ids }),
            },
        )
    }
}

/// Accepts a batch of group relationship requests for a group.  The
/// compound type decomposes into one decision per concrete type, each
/// carrying the same ids.
///
/// # Error codes
/// - 1: Group is invalid or does not exist.
/// - 4: Group relationship type or request type is invalid.
/// - 5: You don't have permission to manage this group's relationships.
pub fn accept(group_id: u32, group_ids: Vec<u32>, relationship_type: RelationshipType) -> (r:
    BatchPlan)
    ensures
        relationship_type == RelationshipType::All ==> (r matches BatchPlan::Pair {
            enemies,
            allies,
        } && enemies.verb == Verb::Post && enemies.url@ == batch_request_url(
            group_id as nat,
            RelationshipType::Enemy,
        ) && (enemies.body matches Some(b) && b.group_ids@ == group_ids@) && allies.verb
            == Verb::Post && allies.url@ == batch_request_url(
            group_id as nat,
            RelationshipType::Ally,
        ) && (allies.body matches Some(b) && b.group_ids@ == group_ids@)),
        relationship_type != RelationshipType::All ==> (r matches BatchPlan::Single(c) && c.verb
            == Verb::Post && c.url@ == batch_request_url(group_id as nat, relationship_type) && (
        c.body matches Some(b) && b.group_ids@ == group_ids@)),
{
    if relationship_type == RelationshipType::All {
        let ids_for_allies = copy_ids(&group_ids);
        BatchPlan::Pair {
            enemies: Call {
                verb: Verb::Post,
                url: build_batch_request_url(group_id, RelationshipType::Enemy),
                body: Some(BatchRequest { group_ids }),
            },
            allies: Call {
                verb: Verb::Post,
                url: build_batch_request_url(group_id, RelationshipType::Ally),
                body: Some(BatchRequest { group_ids: ids_for_allies }),
            },
        }
    } else {
        BatchPlan::Single(
            Call {
                verb: Verb::Post,
                url: build_batch_request_url(group_id, relationship_type),
                body: Some(BatchRequest { group_ids }),
            },
        )
    }
}

} // verus!
