//! Scenarios for the pagination machine.

use rbx_api::util::paging::{get_page, PagedResponse, PageLimit, Paginator, SortOrder};

fn page(items: &[&str], next: Option<&str>) -> PagedResponse<String> {
    PagedResponse {
        next_page_cursor: next.map(|s| s.to_string()),
        previous_page_cursor: None,
        data: items.iter().map(|s| s.to_string()).collect(),
    }
}

#[test]
fn page_limit_values() {
    assert_eq!(PageLimit::All.get_limit(), 20000);
    assert_eq!(PageLimit::Limit10.get_limit(), 10);
    assert_eq!(PageLimit::Limit25.get_limit(), 25);
    assert_eq!(PageLimit::Limit50.get_limit(), 50);
    assert_eq!(PageLimit::Limit100.get_limit(), 100);
}

#[test]
fn sort_order_strings() {
    assert_eq!(SortOrder::Asc.get_sort_order_string(), "Asc");
    assert_eq!(SortOrder::Desc.get_sort_order_string(), "Desc");
}

#[test]
fn bounded_limit_issues_exactly_one_request() {
    // A limit below the page cap: one request, carrying that limit, and
    // exactly that page's items in server order.
    let mut p: Paginator<String> = Paginator::new(
        "https://example.invalid/list".to_string(),
        PageLimit::Limit10,
        None,
    );
    assert_eq!(
        p.next_url(),
        Some("https://example.invalid/list?limit=10".to_string())
    );
    // Ten items and no cursor: the result has ten elements and no second
    // request is asked for.
    let first = page(
        &["a", "b", "c", "d", "e", "f", "g", "h", "i", "j"],
        None,
    );
    p.feed(first);
    assert!(p.done);
    assert_eq!(p.next_url(), None);
    let items = p.into_items();
    assert_eq!(items.len(), 10);
    assert_eq!(items[0], "a");
    assert_eq!(items[9], "j");
}

#[test]
fn bounded_limit_stops_even_with_cursor() {
    // Even when the single page returns a cursor, a bounded limit asks for
    // no further page.
    let mut p: Paginator<String> = Paginator::new(
        "https://example.invalid/list".to_string(),
        PageLimit::Limit25,
        None,
    );
    p.feed(page(&["x"], Some("more")));
    assert!(p.done);
    assert_eq!(p.next_url(), None);
}

#[test]
fn bounded_limit_forwards_caller_cursor() {
    let p: Paginator<String> = Paginator::new(
        "https://example.invalid/list".to_string(),
        PageLimit::Limit50,
        Some("abc".to_string()),
    );
    assert_eq!(
        p.next_url(),
        Some("https://example.invalid/list?cursor=abc&limit=50".to_string())
    );
}

#[test]
fn query_separator_follows_existing_parameters() {
    let p: Paginator<String> = Paginator::new(
        "https://example.invalid/list?sortOrder=Asc".to_string(),
        PageLimit::Limit10,
        None,
    );
    assert_eq!(
        p.next_url(),
        Some("https://example.invalid/list?sortOrder=Asc&limit=10".to_string())
    );
}

#[test]
fn all_pages_follow_cursors_until_omitted() {
    // Three canned pages: the requests follow the returned cursors, stop
    // when a page omits the cursor, and the result keeps page order with
    // no duplicates.
    let mut p: Paginator<String> = get_page(
        "https://example.invalid/list",
        PageLimit::All,
        None,
    );
    assert_eq!(
        p.next_url(),
        Some("https://example.invalid/list?limit=100".to_string())
    );
    p.feed(page(&["a", "b"], Some("c1")));
    assert!(!p.done);
    assert_eq!(
        p.next_url(),
        Some("https://example.invalid/list?cursor=c1&limit=100".to_string())
    );
    p.feed(page(&["c", "d"], Some("c2")));
    assert!(!p.done);
    assert_eq!(
        p.next_url(),
        Some("https://example.invalid/list?cursor=c2&limit=100".to_string())
    );
    p.feed(page(&["e"], None));
    assert!(p.done);
    assert_eq!(p.next_url(), None);
    let items = p.into_items();
    assert_eq!(items, vec!["a", "b", "c", "d", "e"]);
    // No duplicates across the three pages.
    for i in 0..items.len() {
        for j in 0..i {
            assert_ne!(items[i], items[j]);
        }
    }
}

#[test]
fn all_limit_ignores_caller_cursor() {
    // The exhaustive walk always starts from the first page.
    let p: Paginator<String> = get_page(
        "https://example.invalid/list",
        PageLimit::All,
        Some("elsewhere".to_string()),
    );
    assert_eq!(
        p.next_url(),
        Some("https://example.invalid/list?limit=100".to_string())
    );
}

#[test]
fn empty_cursor_adds_no_parameter() {
    let p: Paginator<String> = Paginator {
        base_url: "https://example.invalid/list".to_string(),
        limit: PageLimit::All,
        cursor: Some(String::new()),
        items: Vec::new(),
        done: false,
    };
    assert_eq!(
        p.next_url(),
        Some("https://example.invalid/list?limit=100".to_string())
    );
}
