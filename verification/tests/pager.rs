use std::collections::VecDeque;

use pagination::PageInfo;
use pagination::Paginator;

pub struct TestId(u64);

pub fn generate_test_ids(start: u64, end: u64) -> VecDeque<TestId> {
    (start..=end).map(TestId).collect()
}

#[test]
fn paginator_should_work() {
    // first page
    let page = PageInfo { cursor: None, page_size: 10 };

    // assume we got 11 items from db
    let mut items = generate_test_ids(1, 11);
    let pager = page.get_pager(&mut items);
    assert!(pager.prev.is_none());
    assert_eq!(pager.next, Some(10));

    {
        let prev_page = page.prev_page(&pager);
        assert!(prev_page.is_none());
    }

    // second page
    let page = page.next_page(&pager).unwrap();
    let mut items = generate_test_ids(11, 21);
    let pager = page.get_pager(&mut items);
    assert_eq!(pager.prev, Some(0));
    assert_eq!(pager.next, Some(20));

    {
        let prev_page = page.prev_page(&pager);
        assert_eq!(prev_page.unwrap().cursor, Some(0));
    }

    // third page
    let page = page.next_page(&pager).unwrap();
    let mut items = generate_test_ids(21, 25);
    let pager = page.get_pager(&mut items);
    assert_eq!(pager.prev, Some(10));
    assert!(pager.next.is_none());

    {
        let prev_page = page.prev_page(&pager);
        assert_eq!(prev_page.unwrap().cursor, Some(10));
    }
}

#[test]
fn pager_pops_only_the_lookahead_row() {
    let page = PageInfo { cursor: None, page_size: 3 };
    let mut items = generate_test_ids(1, 4);
    let pager = page.get_pager(&mut items);
    assert_eq!(pager.next, Some(3));
    assert_eq!(items.len(), 3);
    assert_eq!(pager.total, None);
}

#[test]
fn exact_page_has_no_next() {
    // fetch returned exactly page_size rows: no next page, nothing popped
    let page = PageInfo { cursor: Some(20), page_size: 10 };
    let mut items = generate_test_ids(21, 30);
    let pager = page.get_pager(&mut items);
    assert!(pager.next.is_none());
    assert_eq!(items.len(), 10);
    assert_eq!(pager.prev, Some(10));
    assert!(page.next_page(&pager).is_none());
}

#[test]
fn cursor_zero_has_no_prev() {
    let page = PageInfo { cursor: Some(0), page_size: 10 };
    let mut items = generate_test_ids(1, 11);
    let pager = page.get_pager(&mut items);
    assert!(pager.prev.is_none());
    assert_eq!(pager.next, Some(10));
}

#[test]
fn small_cursor_prev_clamps_to_zero() {
    let page = PageInfo { cursor: Some(5), page_size: 10 };
    let mut items = generate_test_ids(6, 10);
    let pager = page.get_pager(&mut items);
    assert_eq!(pager.prev, Some(0));
    assert!(pager.next.is_none());
}

#[test]
fn container_works_for_vec() {
    let page = PageInfo { cursor: None, page_size: 2 };
    let mut items: Vec<u64> = vec![1, 2, 3];
    let pager = page.get_pager(&mut items);
    assert_eq!(pager.next, Some(2));
    assert_eq!(items.len(), 2);
}
