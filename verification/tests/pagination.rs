use pinata_gateway::models::PinataFile;
use pinata_gateway::pagination::{drain_pages, file_page, DrainState, Page};
use pinata_gateway::models::{GroupImagesParams, GroupImagesResponse, PinataFilesData};

fn file(id: &str) -> PinataFile {
    PinataFile {
        id: id.to_string(),
        name: format!("{id}.jpg"),
        cid: format!("cid-{id}"),
        size: 10,
        number_of_files: 1,
        mime_type: "image/jpeg".to_string(),
        group_id: "g1".to_string(),
        keyvalues: Vec::new(),
        created_at: "2024-01-01".to_string(),
    }
}

fn page(ids: &[&str], token: Option<&str>) -> Page<PinataFile> {
    Page {
        items: ids.iter().map(|id| file(id)).collect(),
        next_page_token: token.map(|t| t.to_string()),
    }
}

#[test]
fn drain_without_limit_returns_every_item_in_order() {
    let pages = vec![
        page(&["a", "b"], Some("c2")),
        page(&["c", "d", "e"], Some("c3")),
        page(&["f"], None),
    ];
    let (items, fetched) = drain_pages(pages, None);
    let ids: Vec<&str> = items.iter().map(|f| f.id.as_str()).collect();
    assert_eq!(ids, vec!["a", "b", "c", "d", "e", "f"]);
    assert_eq!(fetched, 3);
}

#[test]
fn drain_without_limit_single_page() {
    let pages = vec![page(&["a"], None)];
    let (items, fetched) = drain_pages(pages, None);
    assert_eq!(items.len(), 1);
    assert_eq!(fetched, 1);
}

#[test]
fn drain_keeps_going_over_empty_pages() {
    let pages = vec![page(&[], Some("c2")), page(&[], Some("c3")), page(&["a"], None)];
    let (items, fetched) = drain_pages(pages, None);
    assert_eq!(items.len(), 1);
    assert_eq!(items[0].id, "a");
    assert_eq!(fetched, 3);
}

#[test]
fn drain_with_limit_truncates_and_stops_fetching() {
    let pages = vec![
        page(&["a", "b"], Some("c2")),
        page(&["c", "d", "e"], Some("c3")),
        page(&["f", "g", "h", "i"], None),
    ];
    let (items, fetched) = drain_pages(pages, Some(3));
    let ids: Vec<&str> = items.iter().map(|f| f.id.as_str()).collect();
    assert_eq!(ids, vec!["a", "b", "c"]);
    assert_eq!(fetched, 2);
}

#[test]
fn drain_with_limit_zero_fetches_one_page_and_keeps_nothing() {
    let pages = vec![page(&["a", "b"], Some("c2")), page(&["c"], None)];
    let (items, fetched) = drain_pages(pages, Some(0));
    assert!(items.is_empty());
    assert_eq!(fetched, 1);
}

#[test]
fn drain_with_limit_equal_to_total_returns_everything() {
    let pages = vec![page(&["a", "b"], Some("c2")), page(&["c"], None)];
    let (items, fetched) = drain_pages(pages, Some(3));
    assert_eq!(items.len(), 3);
    assert_eq!(fetched, 2);
}

#[test]
fn drain_state_reports_cursor_between_fetches() {
    let mut st: DrainState<PinataFile> = DrainState::new(None);
    assert!(!st.done);
    assert!(st.cursor.is_none());
    st.absorb(page(&["a"], Some("c2")));
    assert!(!st.done);
    assert_eq!(st.cursor.as_deref(), Some("c2"));
    assert_eq!(st.fetched, 1);
    st.absorb(page(&["b"], None));
    assert!(st.done);
    assert_eq!(st.fetched, 2);
    assert_eq!(st.items.len(), 2);
}

#[test]
fn group_images_with_limit_two_uses_one_upstream_call() {
    // A mocked two-page upstream: the first page holds two files and a
    // cursor, the second three files and none. With a limit of two, the
    // drain must keep exactly the first two files and never ask for the
    // second page.
    let params = GroupImagesParams { group_id: Some("g1".to_string()), limit: Some(2) };
    let group_id = params.effective_group_id();
    let upstream_pages = vec![
        PinataFilesData {
            files: vec![file("a"), file("b")],
            next_page_token: Some("c2".to_string()),
        },
        PinataFilesData {
            files: vec![file("c"), file("d"), file("e")],
            next_page_token: None,
        },
    ];

    // Drive the drain the way the transport loop would, counting calls.
    let mut calls = 0;
    let mut st: DrainState<PinataFile> = DrainState::new(params.limit);
    let mut pages = upstream_pages.into_iter();
    while !st.done {
        let data = pages.next().expect("drain asked for a page past the upstream");
        calls += 1;
        st.absorb(file_page(data));
    }
    assert_eq!(calls, 1);
    assert_eq!(st.fetched, 1);

    let response = GroupImagesResponse::ok(group_id, st.items);
    assert!(response.success);
    assert_eq!(response.group_id, "g1");
    let ids: Vec<&str> = response.images.iter().map(|f| f.id.as_str()).collect();
    assert_eq!(ids, vec!["a", "b"]);
    assert!(response.message.is_none());
}

#[test]
fn group_images_defaults_to_showcase_group() {
    let params = GroupImagesParams { group_id: None, limit: None };
    assert_eq!(params.effective_group_id(), "876d949f-6532-44af-924c-f164e5ac6b1b");
}
