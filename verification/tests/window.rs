use pagination::engine::Pagination;
use pagination::window::PageItem;
use pagination::window::PaginationConfig;

fn page(number: usize, active: bool) -> PageItem {
    PageItem::Page { number, active }
}

fn ellipsis(target: usize) -> PageItem {
    PageItem::Ellipsis { target }
}

#[test]
fn default_config_is_one_edge_one_sibling() {
    let config = PaginationConfig::default();
    assert_eq!(config.edge_page_count, 1);
    assert_eq!(config.sibling_page_count, 1);
}

#[test]
fn window_truncated_on_both_sides() {
    let mut engine = Pagination::new(20);
    assert!(engine.set_page(10));
    let window = engine.page_window(PaginationConfig {
        edge_page_count: 1,
        sibling_page_count: 2,
    });
    assert!(window.front_truncated);
    assert!(window.rear_truncated);
    assert_eq!(
        window.items,
        vec![
            page(1, false),
            ellipsis(5),
            page(8, false),
            page(9, false),
            page(10, true),
            page(11, false),
            page(12, false),
            ellipsis(15),
            page(20, false),
        ]
    );
}

#[test]
fn window_of_empty_engine_is_empty() {
    let engine = Pagination::new(0);
    let window = engine.page_window(PaginationConfig::default());
    assert!(!window.front_truncated);
    assert!(!window.rear_truncated);
    assert!(window.items.is_empty());
}

#[test]
fn window_with_few_pages_shows_them_all() {
    let engine = Pagination::new(3);
    let window = engine.page_window(PaginationConfig::default());
    assert!(!window.front_truncated);
    assert!(!window.rear_truncated);
    assert_eq!(
        window.items,
        vec![page(1, true), page(2, false), page(3, false)]
    );
}

#[test]
fn window_truncated_at_front_only() {
    let mut engine = Pagination::new(20);
    assert!(engine.set_page(18));
    let window = engine.page_window(PaginationConfig {
        edge_page_count: 1,
        sibling_page_count: 2,
    });
    assert!(window.front_truncated);
    assert!(!window.rear_truncated);
    assert_eq!(
        window.items,
        vec![
            page(1, false),
            ellipsis(13),
            page(14, false),
            page(15, false),
            page(16, false),
            page(17, false),
            page(18, true),
            page(19, false),
            page(20, false),
        ]
    );
}

#[test]
fn window_truncated_at_rear_only() {
    let engine = Pagination::new(20);
    let window = engine.page_window(PaginationConfig {
        edge_page_count: 1,
        sibling_page_count: 2,
    });
    assert!(!window.front_truncated);
    assert!(window.rear_truncated);
    assert_eq!(
        window.items,
        vec![
            page(1, true),
            page(2, false),
            page(3, false),
            page(4, false),
            page(5, false),
            page(6, false),
            page(7, false),
            ellipsis(6),
            page(20, false),
        ]
    );
}

#[test]
fn front_jump_target_stops_at_zero() {
    let mut engine = Pagination::new(10);
    assert!(engine.set_page(3));
    let window = engine.page_window(PaginationConfig {
        edge_page_count: 0,
        sibling_page_count: 0,
    });
    assert!(window.front_truncated);
    assert!(window.rear_truncated);
    assert_eq!(
        window.items,
        vec![ellipsis(0), page(3, true), ellipsis(8)]
    );
}
