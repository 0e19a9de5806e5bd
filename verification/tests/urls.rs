//! The URLs and payloads the endpoint bindings construct.

use rbx_api::groups;
use rbx_api::groups::search::GroupSearchProps;
use rbx_api::groups::social_links::{SocialLink, SocialLinkType};
use rbx_api::thumbnails::{badges, developer_products, game_passes, games};
use rbx_api::thumbnails::{ThumbnailFormat, ThumbnailSize};
use rbx_api::users::display_names::{classify_validate_display_name, ValidationStep};
use rbx_api::users;
use rbx_api::util::jar::Verb;
use rbx_api::util::paging::{PageLimit, SortOrder};
use rbx_api::util::Error;

#[test]
fn user_lookup_urls() {
    let c = users::users::user_by_id(375760054);
    assert_eq!(c.verb, Verb::Get);
    assert_eq!(c.url, "https://users.roblox.com/v1/users/375760054");

    assert_eq!(
        users::users::whoami().url,
        "https://users.roblox.com/v1/users/authenticated"
    );
    assert_eq!(
        users::users::age_bracket().url,
        "https://users.roblox.com/v1/users/authenticated/age-bracket"
    );
    assert_eq!(
        users::users::country_code().url,
        "https://users.roblox.com/v1/users/authenticated/country-code"
    );
    assert_eq!(
        users::users::roles().url,
        "https://users.roblox.com/v1/users/authenticated/roles"
    );
}

#[test]
fn bulk_user_lookups_exclude_banned_users() {
    let c = users::users::bulk_users_by_username(vec![
        "piano1029".to_string(),
        "ClannyBot".to_string(),
    ]);
    assert_eq!(c.verb, Verb::Post);
    assert_eq!(c.url, "https://users.roblox.com/v1/usernames/users");
    let body = c.body.unwrap();
    assert_eq!(body.usernames.len(), 2);
    assert!(body.exclude_banned_users);

    let c = users::users::bulk_users_by_id(vec![375760054, 1444131924]);
    assert_eq!(c.verb, Verb::Post);
    assert_eq!(c.url, "https://users.roblox.com/v1/users");
    let body = c.body.unwrap();
    assert_eq!(body.user_ids, vec![375760054, 1444131924]);
    assert!(body.exclude_banned_users);
}

#[test]
fn username_listing_urls() {
    let p = users::usernames::username_history(375760054);
    assert_eq!(
        p.base_url,
        "https://users.roblox.com/v1/users/375760054/username-history"
    );
    assert_eq!(p.limit, PageLimit::All);

    let p = users::username_search::username_search("miemper".to_string(), PageLimit::Limit10)
        .unwrap();
    assert_eq!(
        p.base_url,
        "https://users.roblox.com/v1/users/search?keyword=miemper"
    );
    assert!(matches!(
        users::username_search::username_search("x".to_string(), PageLimit::All),
        Err(Error::InvalidPageLimit)
    ));
}

#[test]
fn display_name_urls() {
    let c = users::display_names::validate_display_name("test".to_string());
    assert_eq!(
        c.url,
        "https://users.roblox.com/v1/display-names/validate?displayName=test&birthdate=1999-12-31T23:00:00.000Z"
    );
    let c = users::display_names::validate_display_name_for_user("test".to_string(), 4205503041);
    assert_eq!(
        c.url,
        "https://users.roblox.com/v1/users/4205503041/display-names/validate?displayName=test"
    );
    let c = users::display_names::set_display_name(375760054, "notest".to_string());
    assert_eq!(c.verb, Verb::Patch);
    assert_eq!(
        c.url,
        "https://users.roblox.com/v1/users/375760054/display-names"
    );
    assert_eq!(c.body.unwrap().new_display_name, "notest");
}

#[test]
fn display_name_validation_statuses() {
    assert_eq!(
        classify_validate_display_name(200),
        ValidationStep::DecodeSuccess
    );
    assert_eq!(
        classify_validate_display_name(400),
        ValidationStep::DecodeFailure
    );
    assert_eq!(
        classify_validate_display_name(401),
        ValidationStep::Fail(Error::Authentication)
    );
    assert_eq!(
        classify_validate_display_name(429),
        ValidationStep::Fail(Error::Throttled)
    );
    assert_eq!(
        classify_validate_display_name(500),
        ValidationStep::Fail(Error::Network)
    );
}

#[test]
fn group_lookup_urls() {
    let c = groups::groups::group_by_id(7370273);
    assert_eq!(c.verb, Verb::Get);
    assert_eq!(c.url, "https://groups.roblox.com/v1/groups/7370273");

    assert_eq!(
        groups::groups::settings(7370273).url,
        "https://groups.roblox.com/v1/groups/7370273/settings"
    );
    assert_eq!(
        groups::groups::membership(7370273).url,
        "https://groups.roblox.com/v1/groups/7370273/membership"
    );
    assert_eq!(
        groups::groups::pending_requests().url,
        "https://groups.roblox.com/v1/user/groups/pending"
    );
    assert_eq!(
        groups::groups::friend_groups(375760054).url,
        "https://groups.roblox.com/v1/users/375760054/friends/groups/roles"
    );
    assert_eq!(
        groups::groups::user_memberships(375760054).url,
        "https://groups.roblox.com/v2/users/375760054/groups/roles"
    );
    assert_eq!(
        groups::metadata::config_metadata().url,
        "https://groups.roblox.com/v1/groups/configuration/metadata"
    );
    assert_eq!(
        groups::metadata::metadata().url,
        "https://groups.roblox.com/v1/groups/metadata"
    );
}

#[test]
fn group_update_payloads() {
    let c = groups::groups::update_description(7370273, "A new description".to_string());
    assert_eq!(c.verb, Verb::Patch);
    assert_eq!(
        c.url,
        "https://groups.roblox.com/v1/groups/7370273/description"
    );
    assert_eq!(c.body.unwrap().description, "A new description");

    let c = groups::groups::compliance(vec![7370273]);
    assert_eq!(c.verb, Verb::Post);
    assert_eq!(c.url, "https://groups.roblox.com/v1/groups/policies");
    assert_eq!(c.body.unwrap().group_ids, vec![7370273]);

    let c = groups::groups::change_owner(7370273, 375760054);
    assert_eq!(c.verb, Verb::Post);
    assert_eq!(
        c.url,
        "https://groups.roblox.com/v1/groups/7370273/change-owner"
    );
    assert_eq!(c.body.unwrap().user_id, 375760054);

    let c = groups::groups::claim_ownership(7370273);
    assert_eq!(c.verb, Verb::Post);
    assert_eq!(
        c.url,
        "https://groups.roblox.com/v1/groups/7370273/claim-ownership"
    );
}

#[test]
fn group_listing_urls() {
    let p = groups::groups::members(7370273, PageLimit::Limit10, Some(SortOrder::Asc));
    assert_eq!(
        p.base_url,
        "https://groups.roblox.com/v1/groups/7370273/users?sortOrder=Asc"
    );
    let p = groups::groups::name_history(7370273, PageLimit::All, Some(SortOrder::Desc));
    assert_eq!(
        p.base_url,
        "https://groups.roblox.com/v1/groups/7370273/name-history?sortOrder=Desc"
    );
    let p = groups::groups::audit_log(7370273, PageLimit::Limit25, Some(375760054), None);
    assert_eq!(
        p.base_url,
        "https://groups.roblox.com/v1/groups/7370273/audit-log?userId=375760054&sortOrder=Asc"
    );
    // Without a user filter, the sort order opens the query string: every
    // parameter stays correctly delimited.
    let p = groups::groups::audit_log(7370273, PageLimit::Limit25, None, Some(SortOrder::Desc));
    assert_eq!(
        p.base_url,
        "https://groups.roblox.com/v1/groups/7370273/audit-log?sortOrder=Desc"
    );
    let p = groups::wall::wall(7370273, PageLimit::Limit10, None);
    assert_eq!(
        p.base_url,
        "https://groups.roblox.com/v1/groups/7370273/wall/posts?sortOrder=Asc"
    );
    let p = groups::roles::users_on_role(7370273, 51560139, PageLimit::Limit10, None);
    assert_eq!(
        p.base_url,
        "https://groups.roblox.com/v1/groups/7370273/roles/51560139/users?sortOrder=Asc"
    );
    let p = groups::join_requests::get(7370273, PageLimit::Limit100);
    assert_eq!(
        p.base_url,
        "https://groups.roblox.com/v1/groups/7370273/join-requests"
    );
}

#[test]
fn role_urls() {
    assert_eq!(
        groups::roles::roles(7370273).url,
        "https://groups.roblox.com/v1/groups/7370273/roles"
    );
    assert_eq!(
        groups::roles::roles_by_id(vec![1, 22, 333]).url,
        "https://groups.roblox.com/v1/roles?ids=1,22,333"
    );
    assert_eq!(
        groups::permissions::role_permissions(7370273, 51560139).url,
        "https://groups.roblox.com/v1/groups/7370273/roles/51560139/permissions"
    );
}

#[test]
fn membership_management_urls() {
    let c = groups::membership::remove_user(7370273, 123);
    assert_eq!(c.verb, Verb::Delete);
    assert_eq!(c.url, "https://groups.roblox.com/v1/groups/7370273/users/123");

    let c = groups::membership::set_role(7370273, 123, 456);
    assert_eq!(c.verb, Verb::Patch);
    assert_eq!(c.url, "https://groups.roblox.com/v1/groups/7370273/users/123");
    assert_eq!(c.body.unwrap().role_id, 456);

    let c = groups::membership::set_rank(7370273, 123, 456);
    assert_eq!(c.body.unwrap().role_id, 456);
}

#[test]
fn join_request_urls() {
    let c = groups::join_request::get(7370273, 123);
    assert_eq!(c.verb, Verb::Get);
    assert_eq!(
        c.url,
        "https://groups.roblox.com/v1/groups/7370273/join-requests/users/123"
    );
    assert_eq!(groups::join_request::accept(7370273, 123).verb, Verb::Post);
    assert_eq!(groups::join_request::decline(7370273, 123).verb, Verb::Delete);

    let c = groups::join_requests::accept(7370273, vec![1, 2]);
    assert_eq!(c.verb, Verb::Post);
    assert_eq!(
        c.url,
        "https://groups.roblox.com/v1/groups/7370273/join-requests"
    );
    assert_eq!(c.body.unwrap().user_ids, vec![1, 2]);
    let c = groups::join_requests::decline(7370273, vec![3]);
    assert_eq!(c.verb, Verb::Delete);
    assert_eq!(c.body.unwrap().user_ids, vec![3]);
}

#[test]
fn primary_group_urls() {
    assert_eq!(
        groups::primary::primary_group(375760054).url,
        "https://groups.roblox.com/v1/users/375760054/groups/primary/role"
    );
    let c = groups::primary::remove_primary_group();
    assert_eq!(c.verb, Verb::Delete);
    assert_eq!(c.url, "https://groups.roblox.com/v1/user/groups/primary");
    let c = groups::primary::set_primary_group(7370273);
    assert_eq!(c.verb, Verb::Post);
    assert_eq!(
        c.url,
        "https://groups.roblox.com/v1/user/groups/7370273/primary"
    );
    assert_eq!(c.body.unwrap().group_id, 7370273);
}

#[test]
fn revenue_urls() {
    assert_eq!(
        groups::revenue::get_payout_restrictions(7370273).url,
        "https://groups.roblox.com/v1/groups/7370273/payout-restrictions"
    );
    assert_eq!(
        groups::revenue::get_recurring_payouts(7370273).url,
        "https://groups.roblox.com/v1/groups/7370273/payouts"
    );
}

#[test]
fn social_link_urls() {
    assert_eq!(
        groups::social_links::social_links(7370273).url,
        "https://groups.roblox.com/v1/groups/7370273/social-links"
    );
    let link = SocialLink {
        id: None,
        link_type: SocialLinkType::Discord,
        url: "https://discord.example".to_string(),
        title: "Chat".to_string(),
    };
    let c = groups::social_links::add_social_link(7370273, link.clone());
    assert_eq!(c.verb, Verb::Post);
    assert_eq!(
        c.url,
        "https://groups.roblox.com/v1/groups/7370273/social-links"
    );
    assert_eq!(c.body.unwrap(), link);
}

#[test]
fn wall_management_urls() {
    let c = groups::wall::delete_wall_post(7370273, 42);
    assert_eq!(c.verb, Verb::Delete);
    assert_eq!(
        c.url,
        "https://groups.roblox.com/v1/groups/7370273/wall/posts/42"
    );
    let c = groups::wall::delete_wall_posts_by_user(7370273, 123);
    assert_eq!(
        c.url,
        "https://groups.roblox.com/v1/groups/7370273/wall/users/123/posts"
    );
}

#[test]
fn search_urls() {
    let c = groups::search::search("Clanny".to_string(), None);
    assert_eq!(
        c.url,
        "https://groups.roblox.com/v1/groups/search?keyword=Clanny"
    );
    let props = GroupSearchProps {
        prioritize_exact_match: Some(true),
        limit: Some(PageLimit::Limit25),
        cursor: Some("abc".to_string()),
    };
    let c = groups::search::search("Clanny".to_string(), Some(props));
    assert_eq!(
        c.url,
        "https://groups.roblox.com/v1/groups/search?keyword=Clanny&prioritizeExactMatch=true&limit=25&cursor=abc"
    );
    assert_eq!(
        groups::search::exact_search("Clanny Systems".to_string()).url,
        "https://groups.roblox.com/v1/groups/search/lookup?groupName=Clanny Systems"
    );
    assert_eq!(
        groups::search::search_metadata().url,
        "https://groups.roblox.com/v1/groups/search/metadata"
    );
}

#[test]
fn thumbnail_urls() {
    let c = games::get_game_thumbnails(
        123,
        vec![1, 2],
        Some(ThumbnailSize::Size150x150),
        Some(ThumbnailFormat::Png),
        false,
    );
    assert_eq!(
        c.url,
        "https://thumbnails.roblox.com/v1/games/123/thumbnails?thumbnailIds=1,2&size=150x150&format=Png&isCircular=false"
    );
    let c = badges::get_badge_thumbnails(vec![10, 20], true);
    assert_eq!(
        c.url,
        "https://thumbnails.roblox.com/v1/assets?badgeIds=10,20&isCircular=true"
    );
    let c = developer_products::get_developer_product_icons(vec![7], None, None, false);
    assert_eq!(
        c.url,
        "https://thumbnails.roblox.com/v1/developer-products/icons?developerProductIds=7&size=30x30&format=Png&isCircular=false"
    );
    let c = game_passes::get_game_pass_icons(vec![5, 6], Some(ThumbnailSize::Size42x42), Some(ThumbnailFormat::Jpeg), true);
    assert_eq!(
        c.url,
        "https://thumbnails.roblox.com/v1/game-passes?gamePassIds=5,6&size=42x42&format=Jpeg&isCircular=true"
    );
}

#[test]
fn negative_ids_render_with_a_sign() {
    let c = users::users::user_by_id(-5);
    assert_eq!(c.url, "https://users.roblox.com/v1/users/-5");
    let c = groups::groups::group_by_id(i64::MIN);
    assert_eq!(
        c.url,
        "https://groups.roblox.com/v1/groups/-9223372036854775808"
    );
}
