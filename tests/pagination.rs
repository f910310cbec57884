use content_platform::pagination::{total_pages, PaginatedResponse, PaginationParams};

#[test]
fn page_counts_round_up() {
    assert_eq!(total_pages(45, 20), 3);
    assert_eq!(total_pages(40, 20), 2);
    assert_eq!(total_pages(0, 20), 0);
    assert_eq!(total_pages(1, 1), 1);
    assert_eq!(total_pages(u64::MAX, 1), u32::MAX);
    assert_eq!(total_pages(0, 0), 0);
    assert_eq!(total_pages(5, 0), u32::MAX);
}

#[test]
fn paginated_response_keeps_its_inputs() {
    let r = PaginatedResponse::new(vec!["a", "b"], 41, 2, 20);
    assert_eq!(r.items, vec!["a", "b"]);
    assert_eq!(r.total, 41);
    assert_eq!(r.page, 2);
    assert_eq!(r.per_page, 20);
    assert_eq!(r.total_pages, 3);
}

#[test]
fn pagination_defaults() {
    let d = PaginationParams::default();
    assert_eq!(d.page, Some(1));
    assert_eq!(d.per_page, Some(20));
    let none = PaginationParams { page: None, per_page: None };
    assert_eq!(none.page_or_default(), 1);
    assert_eq!(none.per_page_or_default(), 20);
    let some = PaginationParams { page: Some(4), per_page: Some(5) };
    assert_eq!(some.page_or_default(), 4);
    assert_eq!(some.per_page_or_default(), 5);
}
