//! Scenarios for the relationship bindings: the compound fan-out, the
//! merge, and the locally rejected relationship types.

use rbx_api::groups::groups::Group;
use rbx_api::groups::relationship;
use rbx_api::groups::relationship_batch::{self, BatchPlan};
use rbx_api::groups::relationships::{
    allies, enemies, merge_relationships, relationships, remove, send_ally_request,
    send_enemy_request, send_request, GroupRelationships, RelationshipPlan, RelationshipType,
};
use rbx_api::users::users::MinimalGroupUser;
use rbx_api::util::jar::Verb;
use rbx_api::util::Error;

fn user(name: &str) -> MinimalGroupUser {
    MinimalGroupUser {
        has_verified_badge: false,
        user_id: 1,
        username: name.to_string(),
        display_name: name.to_string(),
    }
}

fn group(id: i64, name: &str) -> Group {
    Group {
        id,
        name: name.to_string(),
        description: String::new(),
        owner: user("owner"),
        shout: None,
        member_count: Some(1),
        is_builders_club_only: false,
        public_entry_allowed: true,
        is_locked: None,
        has_verified_badge: false,
    }
}

fn listing(t: RelationshipType, count: u32, groups: Vec<Group>) -> GroupRelationships {
    GroupRelationships {
        group_id: 7370273,
        relationship_type: t,
        total_group_count: count,
        groups,
    }
}

#[test]
fn relationship_type_strings() {
    assert_eq!(
        RelationshipType::Enemy.get_relationship_type_string(),
        "Enemies"
    );
    assert_eq!(
        RelationshipType::Ally.get_relationship_type_string(),
        "Allies"
    );
    assert_eq!(RelationshipType::All.get_relationship_type_string(), "All");
}

#[test]
fn concrete_type_is_a_single_request() {
    match relationships(7370273, RelationshipType::Enemy) {
        RelationshipPlan::Single(c) => {
            assert_eq!(c.verb, Verb::Get);
            assert_eq!(
                c.url,
                "https://groups.roblox.com/v1/groups/7370273/relationships/Enemies?model.startRowIndex=0&model.maxRows=1000"
            );
        }
        other => panic!("unexpected plan: {:?}", other),
    }
    assert!(matches!(enemies(7370273), RelationshipPlan::Single(_)));
    assert!(matches!(allies(7370273), RelationshipPlan::Single(_)));
}

#[test]
fn compound_type_fans_out() {
    match relationships(7370273, RelationshipType::All) {
        RelationshipPlan::Pair { enemies, allies } => {
            assert_eq!(
                enemies.url,
                "https://groups.roblox.com/v1/groups/7370273/relationships/Enemies?model.startRowIndex=0&model.maxRows=1000"
            );
            assert_eq!(
                allies.url,
                "https://groups.roblox.com/v1/groups/7370273/relationships/Allies?model.startRowIndex=0&model.maxRows=1000"
            );
        }
        other => panic!("unexpected plan: {:?}", other),
    }
}

#[test]
fn merged_listing_concatenates_and_sums() {
    // The compound result equals the concatenation of the two sub-type
    // fixtures and its count equals the sum of the two counts.
    let enemy_fixture = listing(
        RelationshipType::Enemy,
        2,
        vec![group(1, "first enemy"), group(2, "second enemy")],
    );
    let ally_fixture = listing(RelationshipType::Ally, 1, vec![group(3, "only ally")]);
    let merged = merge_relationships(7370273, enemy_fixture.clone(), ally_fixture.clone());
    assert_eq!(merged.group_id, 7370273);
    assert_eq!(merged.relationship_type, RelationshipType::All);
    assert_eq!(merged.total_group_count, 3);
    let mut expected = enemy_fixture.groups.clone();
    expected.extend(ally_fixture.groups.clone());
    assert_eq!(merged.groups, expected);
}

#[test]
fn compound_type_is_rejected_where_unsupported() {
    assert!(matches!(
        remove(1, 2, RelationshipType::All),
        Err(Error::InvalidRelationshipType)
    ));
    assert!(matches!(
        send_request(1, 2, RelationshipType::All),
        Err(Error::InvalidRelationshipType)
    ));
    let ok = remove(1, 2, RelationshipType::Ally).unwrap();
    assert_eq!(ok.verb, Verb::Delete);
    assert_eq!(
        ok.url,
        "https://groups.roblox.com/v1/groups/1/relationships/Allies/2"
    );
}

#[test]
fn sending_a_request_posts_and_removal_deletes() {
    let sent = send_request(1, 2, RelationshipType::Ally).unwrap();
    assert_eq!(sent.verb, Verb::Post);
    assert_eq!(
        sent.url,
        "https://groups.roblox.com/v1/groups/1/relationships/Allies/2"
    );
    assert_eq!(send_enemy_request(1, 2).verb, Verb::Post);
    assert_eq!(send_ally_request(1, 2).verb, Verb::Post);
    assert_eq!(remove(1, 2, RelationshipType::Enemy).unwrap().verb, Verb::Delete);
}

#[test]
fn batch_decisions_fan_out() {
    match relationship_batch::accept(7370273, vec![10, 20], RelationshipType::All) {
        BatchPlan::Pair { enemies, allies } => {
            assert_eq!(enemies.verb, Verb::Post);
            assert_eq!(
                enemies.url,
                "https://groups.roblox.com/v1/groups/7370273/relationships/Enemies/requests"
            );
            assert_eq!(enemies.body.unwrap().group_ids, vec![10, 20]);
            assert_eq!(
                allies.url,
                "https://groups.roblox.com/v1/groups/7370273/relationships/Allies/requests"
            );
            assert_eq!(allies.body.unwrap().group_ids, vec![10, 20]);
        }
        other => panic!("unexpected plan: {:?}", other),
    }
    match relationship_batch::decline(7370273, vec![9], RelationshipType::Enemy) {
        BatchPlan::Single(c) => {
            assert_eq!(c.verb, Verb::Delete);
            assert_eq!(
                c.url,
                "https://groups.roblox.com/v1/groups/7370273/relationships/Enemies/requests"
            );
            assert_eq!(c.body.unwrap().group_ids, vec![9]);
        }
        other => panic!("unexpected plan: {:?}", other),
    }
}

#[test]
fn single_relationship_request_urls() {
    let c = relationship::decline(1, 2, RelationshipType::Enemy);
    assert_eq!(c.verb, Verb::Delete);
    assert_eq!(
        c.url,
        "https://groups.roblox.com/v1/groups/1/relationships/Enemies/requests/2"
    );
    let c = relationship::accept(1, 2, RelationshipType::Ally);
    assert_eq!(c.verb, Verb::Post);
    assert_eq!(
        c.url,
        "https://groups.roblox.com/v1/groups/1/relationships/Allies/requests/2"
    );
}
