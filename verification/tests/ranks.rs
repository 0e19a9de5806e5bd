//! Scenarios for the pure role and rank logic.

use rbx_api::groups::groups::{MinimalGroup, UserMembershipsGroupItem};
use rbx_api::groups::membership::{demote, modify_rank_by_amount, promote};
use rbx_api::groups::roles::{user_role, GroupRole};
use rbx_api::util::Error;

fn role(id: i64, name: &str, rank: i64) -> GroupRole {
    GroupRole {
        id,
        name: name.to_string(),
        description: None,
        rank,
        member_count: None,
    }
}

fn membership(group_id: i64, role_id: i64, role_name: &str) -> UserMembershipsGroupItem {
    UserMembershipsGroupItem {
        group: MinimalGroup {
            id: group_id,
            name: format!("group {}", group_id),
            member_count: 10,
            has_verified_badge: false,
        },
        role: role(role_id, role_name, 1),
    }
}

fn ladder() -> Vec<GroupRole> {
    vec![
        role(100, "Guest", 0),
        role(101, "Member", 1),
        role(102, "Officer", 100),
        role(103, "Clanny", 255),
    ]
}

#[test]
fn rank_move_within_the_ladder_is_accepted() {
    let ranks = ladder();
    assert!(modify_rank_by_amount(&ranks, &role(101, "Member", 1), 2).is_ok());
    assert!(modify_rank_by_amount(&ranks, &role(100, "Guest", 0), 3).is_ok());
    assert!(promote(&ranks, &role(102, "Officer", 100)).is_ok());
    assert!(demote(&ranks, &role(102, "Officer", 100)).is_ok());
}

#[test]
fn rank_move_past_the_ladder_is_rejected() {
    let ranks = ladder();
    let r = modify_rank_by_amount(&ranks, &role(103, "Clanny", 255), 1);
    match r {
        Err(Error::RobloxError(e)) => {
            assert_eq!(e.code, 2);
            assert_eq!(e.message, "The roleset is invalid or does not exist.");
            assert_eq!(
                e.user_facing_message.as_deref(),
                Some("The rank does not exist.")
            );
        }
        other => panic!("unexpected result: {:?}", other),
    }
    assert!(promote(&ranks, &role(103, "Clanny", 255)).is_err());
}

#[test]
fn unknown_current_rank_is_reported() {
    let ranks = ladder();
    let r = modify_rank_by_amount(&ranks, &role(999, "Elsewhere", 3), 1);
    match r {
        Err(Error::RobloxError(e)) => {
            assert_eq!(e.code, 200);
            assert_eq!(e.message, "The user's rank was not found.");
        }
        other => panic!("unexpected result: {:?}", other),
    }
}

#[test]
fn user_role_picks_the_first_matching_group() {
    let memberships = vec![
        membership(1, 11, "Member"),
        membership(7370273, 51560139, "Clanny"),
        membership(7370273, 99, "Shadow"),
        membership(3, 33, "Guest"),
    ];
    let r = user_role(memberships, 7370273).unwrap();
    assert_eq!(r.id, 51560139);
    assert_eq!(r.name, "Clanny");
}

#[test]
fn user_role_reports_a_missing_membership() {
    let memberships = vec![membership(1, 11, "Member")];
    match user_role(memberships, 7370273) {
        Err(Error::RobloxError(e)) => {
            assert_eq!(e.code, 200);
            assert_eq!(e.message, "The user is not in the group.");
            assert_eq!(
                e.user_facing_message.as_deref(),
                Some("The user is not in the group.")
            );
        }
        other => panic!("unexpected result: {:?}", other),
    }
}
