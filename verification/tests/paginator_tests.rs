use aitiquette::models::{Collection, FetchError, Link};
use aitiquette::paginator::{Paginator, PaginatorState};

fn link(id: i64) -> Link {
    Link {
        id,
        name: format!("link {}", id),
        url: format!("https://example.org/{}", id),
        text_content: None,
        collection: Collection { id: 1, owner_id: 9, name: String::from("inbox") },
        tags: Vec::new(),
    }
}

/// A store double holding `count` seeded links with ids 1..=count, serving
/// pages of at most `page_size` links after the cursor.
fn store_page(count: i64, page_size: usize, cursor: i64) -> Vec<Link> {
    let mut page = Vec::new();
    let mut id = cursor + 1;
    while id <= count && page.len() < page_size {
        page.push(link(id));
        id += 1;
    }
    page
}

#[test]
fn five_links_in_pages_of_two_complete_in_order() {
    let mut paginator = Paginator::new();
    let mut fetches = 0;
    let mut non_empty_fetches = 0;
    loop {
        let cursor = paginator.next_cursor();
        let page = store_page(5, 2, cursor);
        fetches += 1;
        if !page.is_empty() {
            non_empty_fetches += 1;
        }
        paginator.on_page(page);
        if !matches!(paginator.state, PaginatorState::Fetching) {
            break;
        }
    }
    // Three data fetches drain the store; the terminating empty page is one
    // more call of the store.
    assert_eq!(non_empty_fetches, 3);
    assert_eq!(fetches, 4);
    let links = paginator.into_result().unwrap();
    let ids: Vec<i64> = links.iter().map(|l| l.id).collect();
    assert_eq!(ids, vec![1, 2, 3, 4, 5]);
    for window in ids.windows(2) {
        assert!(window[0] < window[1]);
    }
}

#[test]
fn empty_store_completes_after_one_fetch() {
    let mut paginator = Paginator::new();
    let mut fetches = 0;
    loop {
        let cursor = paginator.next_cursor();
        assert_eq!(cursor, 0);
        let page = store_page(0, 2, cursor);
        fetches += 1;
        paginator.on_page(page);
        if !matches!(paginator.state, PaginatorState::Fetching) {
            break;
        }
    }
    assert_eq!(fetches, 1);
    let links = paginator.into_result().unwrap();
    assert!(links.is_empty());
}

#[test]
fn failing_second_page_aborts_without_partial_collection() {
    let mut paginator = Paginator::new();
    // First page succeeds.
    let cursor = paginator.next_cursor();
    assert_eq!(cursor, 0);
    paginator.on_page(store_page(5, 2, cursor));
    assert!(matches!(paginator.state, PaginatorState::Fetching));
    // Second page fails: the whole traversal aborts.
    let error = FetchError::Transport { detail: String::from("connection reset") };
    paginator.on_error(error.clone());
    let result = paginator.into_result();
    match result {
        Ok(_) => panic!("an aborted traversal must not yield links"),
        Err(e) => assert_eq!(e, error),
    }
}

#[test]
fn cursor_follows_last_id_of_each_page() {
    let mut paginator = Paginator::new();
    paginator.on_page(store_page(5, 2, 0));
    assert_eq!(paginator.next_cursor(), 2);
    paginator.on_page(store_page(5, 2, 2));
    assert_eq!(paginator.next_cursor(), 4);
    paginator.on_page(store_page(5, 2, 4));
    assert_eq!(paginator.next_cursor(), 5);
    paginator.on_page(Vec::new());
    assert_eq!(paginator.state, PaginatorState::Done);
}
