//! Group relationships (enemies and allies): listing, requests, and the
//! compound "all types" fan-out.

use vstd::prelude::*;

use crate::groups::groups::Group;
use crate::util::jar::{Call, Verb};
use crate::util::text::{dec_nat, u64_to_string};
use crate::util::Error;

verus! {

/// The payload of a batch relationship-request decision.
#[derive(Debug, Clone, PartialEq)]
pub struct BatchRequest {
    pub group_ids: Vec<u32>,
}

/// The kind of relationship between two groups.  `All` is the compound
/// kind: it always decomposes into the two concrete kinds.
#[derive(Debug, Clone, Copy, PartialEq, Eq, Structural)]
pub enum RelationshipType {
    Enemy,
    Ally,
    All,
}

impl RelationshipType {
    /// The path spelling of each relationship type.
    pub open spec fn relationship_type_chars(self) -> Seq<char> {
        match self {
            RelationshipType::Enemy => "Enemies"@,
            RelationshipType::Ally => "Allies"@,
            RelationshipType::All => "All"@,
        }
    }

    /// The relationship type as it is spelled in URLs.
    pub fn get_relationship_type_string(&self) -> (r: String)
        ensures
            r@ == self.relationship_type_chars(),
    {
        match self {
            RelationshipType::Enemy => "Enemies".to_owned(),
            RelationshipType::Ally => "Allies".to_owned(),
            RelationshipType::All => "All".to_owned(),
        }
    }
}

/// A group's relationships of one kind.
#[derive(Debug, Clone, PartialEq)]
pub struct GroupRelationships {
    pub group_id: u32,
    pub relationship_type: RelationshipType,
    pub total_group_count: u32,
    pub groups: Vec<Group>,
}

/// The relationship listing URL of a group for one relationship type.
pub open spec fn relationships_url(group_id: nat, t: RelationshipType) -> Seq<char> {
    "https://groups.roblox.com/v1/groups/"@ + dec_nat(group_id) + "/relationships/"@
        + t.relationship_type_chars() + "?model.startRowIndex=0&model.maxRows=1000"@
}

fn build_relationships_url(group_id: u32, t: RelationshipType) -> (r: String)
    ensures
        r@ == relationships_url(group_id as nat, t),
{
    let mut url = "https://groups.roblox.com/v1/groups/".to_owned();
    url.append(u64_to_string(group_id as u64).as_str());
    url.append("/relationships/");
    url.append(t.get_relationship_type_string().as_str());
    url.append("?model.startRowIndex=0&model.maxRows=1000");
    url
}

/// The requests a relationship listing decomposes into: one for a concrete
/// relationship type, or — for the compound type — one per concrete type,
/// whose results are then merged with [`merge_relationships`].
#[derive(Debug, Clone, PartialEq)]
pub enum RelationshipPlan {
    Single(Call<()>),
    Pair { enemies: Call<()>, allies: Call<()> },
}

/// Retrieves a list of groups that are enemies, allies or both of the
/// specified group.  The compound type issues one sub-request per concrete
/// kind; the two item lists and counts are merged by
/// [`merge_relationships`].
///
/// # Error codes
/// - 1: Group is invalid or does not exist.
/// - 4: Group relationship type or request type is invalid.
/// - 8: Invalid or missing pagination parameters
pub fn relationships(group_id: u32, relationship_type: RelationshipType) -> (r: RelationshipPlan)
    ensures
        relationship_type == RelationshipType::All ==> (r matches RelationshipPlan::Pair {
            enemies,
            allies,
        } && enemies.verb == Verb::Get && enemies.body is None && enemies.url@
            == relationships_url(group_id as nat, RelationshipType::Enemy) && allies.verb
            == Verb::Get && allies.body is None && allies.url@ == relationships_url(
            group_id as nat,
            RelationshipType::Ally,
        )),
        relationship_type != RelationshipType::All ==> (r matches RelationshipPlan::Single(c)
            && c.verb == Verb::Get && c.body is None && c.url@ == relationships_url(
            group_id as nat,
            relationship_type,
        )),
{
    if relationship_type == RelationshipType::All {
        RelationshipPlan::Pair {
            enemies: Call {
                verb: Verb::Get,
                url: build_relationships_url(group_id, RelationshipType::Enemy),
                body: None,
            },
            allies: Call {
                verb: Verb::Get,
                url: build_relationships_url(group_id, RelationshipType::Ally),
                body: None,
            },
        }
    } else {
        RelationshipPlan::Single(
            Call {
                verb: Verb::Get,
                url: build_relationships_url(group_id, relationship_type),
                body: None,
            },
        )
    }
}

/// Merges the results of the compound relationship listing: the enemies
/// result first, then the allies result.  The merged item list is the
/// concatenation of the two lists and the merged count is the sum of the
/// two counts.
pub fn merge_relationships(
    group_id: u32,
    enemies: GroupRelationships,
    allies: GroupRelationships,
) -> (r: GroupRelationships)
    requires
        enemies.total_group_count + allies.total_group_count <= u32::MAX,
    ensures
        r.group_id == group_id,
        r.relationship_type == RelationshipType::All,
        r.total_group_count == enemies.total_group_count + allies.total_group_count,
        r.groups@ == enemies.groups@ + allies.groups@,
{
    let mut groups = enemies.groups;
    let mut from_allies = allies.groups;
    groups.append(&mut from_allies);
    GroupRelationships {
        group_id,
        relationship_type: RelationshipType::All,
        total_group_count: enemies.total_group_count + allies.total_group_count,
        groups,
    }
}

/// Retrieves a list of groups that are enemies of the specified group.
///
/// # Error codes
/// - 1: Group is invalid or does not exist.
/// - 4: Group relationship type or request type is invalid.
/// - 8: Invalid or missing pagination parameters
pub fn enemies(group_id: u32) -> (r: RelationshipPlan)
    ensures
        r matches RelationshipPlan::Single(c) && c.verb == Verb::Get && c.body is None && c.url@
            == relationships_url(group_id as nat, RelationshipType::Enemy),
{
    relationships(group_id, RelationshipType::Enemy)
}

/// Retrieves a list of groups that are allies of the specified group.
///
/// # Error codes
/// - 1: Group is invalid or does not exist.
/// - 4: Group relationship type or request type is invalid.
/// - 8: Invalid or missing pagination parameters
pub fn allies(group_id: u32) -> (r: RelationshipPlan)
    ensures
        r matches RelationshipPlan::Single(c) && c.verb == Verb::Get && c.body is None && c.url@
            == relationships_url(group_id as nat, RelationshipType::Ally),
{
    relationships(group_id, RelationshipType::Ally)
}

/// Retrieves a list of enemy, ally or both relationship requests for the
/// specified group, decomposing the compound type as the listing does.
///
/// # Error codes
/// - 1: Group is invalid or does not exist.
/// - 4: Group relationship type or request type is invalid.
/// - 5: You don't have permission to manage this group's relationships.
/// - 8: Invalid or missing pagination parameters
pub fn relationship_requests(group_id: u32, relationship_type: RelationshipType) -> (r:
    RelationshipPlan)
    ensures
        relationship_type == RelationshipType::All ==> (r matches RelationshipPlan::Pair {
            enemies,
            allies,
        } && enemies.verb == Verb::Get && enemies.body is None && enemies.url@
            == relationships_url(group_id as nat, RelationshipType::Enemy) && allies.verb
            == Verb::Get && allies.body is None && allies.url@ == relationships_url(
            group_id as nat,
            RelationshipType::Ally,
        )),
        relationship_type != RelationshipType::All ==> (r matches RelationshipPlan::Single(c)
            && c.verb == Verb::Get && c.body is None && c.url@ == relationships_url(
            group_id as nat,
            relationship_type,
        )),
{
    relationships(group_id, relationship_type)
}

/// Retrieves a list of enemy relationship requests of the specified group.
///
/// # Error codes
/// - 1: Group is invalid or does not exist.
/// - 4: Group relationship type or request type is invalid.
/// - 5: You don't have permission to manage this group's relationships.
/// - 8: Invalid or missing pagination parameters
pub fn enemy_requests(group_id: u32) -> (r: RelationshipPlan)
    ensures
        r matches RelationshipPlan::Single(c) && c.verb == Verb::Get && c.body is None && c.url@
            == relationships_url(group_id as nat, RelationshipType::Enemy),
{
    relationship_requests(group_id, RelationshipType::Enemy)
}

/// Retrieves a list of ally relationship requests of the specified group.
///
/// # Error codes
/// - 1: Group is invalid or does not exist.
/// - 4: Group relationship type or request type is invalid.
/// - 5: You don't have permission to manage this group's relationships.
/// - 8: Invalid or missing pagination parameters
pub fn ally_requests(group_id: u32) -> (r: RelationshipPlan)
    ensures
        r matches RelationshipPlan::Single(c) && c.verb == Verb::Get && c.body is None && c.url@
            == relationships_url(group_id as nat, RelationshipType::Ally),
{
    relationship_requests(group_id, RelationshipType::Ally)
}

/// The URL that manages one established relationship of a group.
pub open spec fn relationship_target_url(
    group_id: nat,
    t: RelationshipType,
    target_group_id: nat,
) -> Seq<char> {
    "https://groups.roblox.com/v1/groups/"@ + dec_nat(group_id) + "/relationships/"@
        + t.relationship_type_chars() + "/"@ + dec_nat(target_group_id)
}

fn build_relationship_target_url(group_id: u32, t: RelationshipType, target_group_id: u32) -> (r:
    String)
    ensures
        r@ == relationship_target_url(group_id as nat, t, target_group_id as nat),
{
    let mut url = "https://groups.roblox.com/v1/groups/".to_owned();
    url.append(u64_to_string(group_id as u64).as_str());
    url.append("/relationships/");
    url.append(t.get_relationship_type_string().as_str());
    url.append("/");
    url.append(u64_to_string(target_group_id as u64).as_str());
    url
}

/// Removes the specified group from the specified group's relationship
/// list.  The compound type is rejected locally with
/// `Error::InvalidRelationshipType`.
///
/// # Error codes
/// - 2: Invalid group.
/// - 3: Target group is invalid or does not exist.
/// - 8: You are blocked from communicating with this user.
/// - 11: Relationship does not exist.
pub fn remove(group_id: u32, target_group_id: u32, relationship_type: RelationshipType) -> (r:
    Result<Call<()>, Error>)
    ensures
        relationship_type == RelationshipType::All <==> r is Err,
        r matches Err(e) ==> e == Error::InvalidRelationshipType,
        r matches Ok(c) ==> c.verb == Verb::Delete && c.body is None && c.url@
            == relationship_target_url(
            group_id as nat,
            relationship_type,
            target_group_id as nat,
        ),
{
    if relationship_type == RelationshipType::All {
        return Err(Error::InvalidRelationshipType);
    }
    Ok(
        Call {
            verb: Verb::Delete,
            url: build_relationship_target_url(group_id, relationship_type, target_group_id),
            body: None,
        },
    )
}

/// Removes the specified group from the specified group's enemies list.
///
/// # Error codes
/// - 2: Invalid group.
/// - 3: Target group is invalid or does not exist.
/// - 8: You are blocked from communicating with this user.
/// - 11: Relationship does not exist.
pub fn remove_enemy(group_id: u32, target_group_id: u32) -> (r: Call<()>)
    ensures
        r.verb == Verb::Delete,
        r.body is None,
        r.url@ == relationship_target_url(
            group_id as nat,
            RelationshipType::Enemy,
            target_group_id as nat,
        ),
{
    Call {
        verb: Verb::Delete,
        url: build_relationship_target_url(group_id, RelationshipType::Enemy, target_group_id),
        body: None,
    }
}

/// Removes the specified group from the specified group's allies list.
///
/// # Error codes
/// - 2: Invalid group.
/// - 3: Target group is invalid or does not exist.
/// - 8: You are blocked from communicating with this user.
/// - 11: Relationship does not exist.
pub fn remove_ally(group_id: u32, target_group_id: u32) -> (r: Call<()>)
    ensures
        r.verb == Verb::Delete,
        r.body is None,
        r.url@ == relationship_target_url(
            group_id as nat,
            RelationshipType::Ally,
            target_group_id as nat,
        ),
{
    Call {
        verb: Verb::Delete,
        url: build_relationship_target_url(group_id, RelationshipType::Ally, target_group_id),
        body: None,
    }
}

/// Sends a relationship request to the specified group.  The compound type
/// is rejected locally with `Error::InvalidRelationshipType`.
///
/// # Error codes
/// - 1: Group relationship type or request type is invalid.
/// - 2: Invalid group.
/// - 3: Target group is invalid or does not exist.
/// - 4: Your group cannot establish a relationship with itself.
/// - 5: Your group does not allow enemy declarations.
/// - 6: Other group does not allow enemy declarations.
/// - 7: Your group already has a relationship with the target group.
/// - 8: You are blocked from communicating with this user.
/// - 9: Insufficient permissions.
pub fn send_request(group_id: u32, target_group_id: u32, relationship_type: RelationshipType) -> (r:
    Result<Call<()>, Error>)
    ensures
        relationship_type == RelationshipType::All <==> r is Err,
        r matches Err(e) ==> e == Error::InvalidRelationshipType,
        r matches Ok(c) ==> c.verb == Verb::Post && c.body is None && c.url@
            == relationship_target_url(
            group_id as nat,
            relationship_type,
            target_group_id as nat,
        ),
{
    if relationship_type == RelationshipType::All {
        return Err(Error::InvalidRelationshipType);
    }
    Ok(
        Call {
            verb: Verb::Post,
            url: build_relationship_target_url(group_id, relationship_type, target_group_id),
            body: None,
        },
    )
}

/// Sends an enemy relationship request to the specified group.
///
/// # Error codes
/// - 1: Group relationship type or request type is invalid.
/// - 2: Invalid group.
/// - 3: Target group is invalid or does not exist.
/// - 4: Your group cannot establish a relationship with itself.
/// - 5: Your group does not allow enemy declarations.
/// - 6: Other group does not allow enemy declarations.
/// - 7: Your group already has a relationship with the target group.
/// - 8: You are blocked from communicating with this user.
/// - 9: Insufficient permissions.
pub fn send_enemy_request(group_id: u32, target_group_id: u32) -> (r: Call<()>)
    ensures
        r.verb == Verb::Post,
        r.body is None,
        r.url@ == relationship_target_url(
            group_id as nat,
            RelationshipType::Enemy,
            target_group_id as nat,
        ),
{
    Call {
        verb: Verb::Post,
        url: build_relationship_target_url(group_id, RelationshipType::Enemy, target_group_id),
        body: None,
    }
}

/// Sends an ally relationship request to the specified group.
///
/// # Error codes
/// - 1: Group relationship type or request type is invalid.
/// - 2: Invalid group.
/// - 3: Target group is invalid or does not exist.
/// - 4: Your group cannot establish a relationship with itself.
/// - 5: Your group does not allow enemy declarations.
/// - 6: Other group does not allow enemy declarations.
/// - 7: Your group already has a relationship with the target group.
/// - 8: You are blocked from communicating with this user.
/// - 9: Insufficient permissions.
pub fn send_ally_request(group_id: u32, target_group_id: u32) -> (r: Call<()>)
    ensures
        r.verb == Verb::Post,
        r.body is None,
        r.url@ == relationship_target_url(
            group_id as nat,
            RelationshipType::Ally,
            target_group_id as nat,
        ),
{
    Call {
        verb: Verb::Post,
        url: build_relationship_target_url(group_id, RelationshipType::Ally, target_group_id),
        body: None,
    }
}

} // verus!
