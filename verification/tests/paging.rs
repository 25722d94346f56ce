use thesis_backend::error::ApiError;
use thesis_backend::model::PaginationQuery;
use thesis_backend::paging::{checked_window, page_window, PageWindow};

#[test]
fn window_defaults_to_first_page_of_twenty() {
    assert_eq!(checked_window(None, None), Some(PageWindow { page: 1, page_size: 20, offset: 0 }));
}

#[test]
fn window_offset_is_pages_before_times_size() {
    assert_eq!(checked_window(Some(3), Some(10)), Some(PageWindow { page: 3, page_size: 10, offset: 20 }));
    assert_eq!(checked_window(Some(2), None), Some(PageWindow { page: 2, page_size: 20, offset: 20 }));
    assert_eq!(checked_window(None, Some(7)), Some(PageWindow { page: 1, page_size: 7, offset: 0 }));
    assert_eq!(checked_window(Some(1), Some(1)), Some(PageWindow { page: 1, page_size: 1, offset: 0 }));
}

#[test]
fn window_of_a_page_or_size_below_one_is_none() {
    assert_eq!(checked_window(Some(0), Some(10)), None);
    assert_eq!(checked_window(Some(-1), Some(-5)), None);
    assert_eq!(checked_window(Some(1), Some(0)), None);
    assert_eq!(checked_window(None, Some(-1)), None);
    assert_eq!(checked_window(Some(i64::MIN), None), None);
}

#[test]
fn window_that_overflows_is_none() {
    assert_eq!(checked_window(Some(i64::MAX), Some(i64::MAX)), None);
    assert_eq!(checked_window(Some(3), Some(i64::MAX)), None);
    assert_eq!(checked_window(Some(i64::MAX), Some(2)), None);
}

#[test]
fn window_at_the_edge_fits() {
    assert_eq!(
        checked_window(Some(2), Some(i64::MAX)),
        Some(PageWindow { page: 2, page_size: i64::MAX, offset: i64::MAX })
    );
    assert_eq!(
        checked_window(Some(i64::MAX), Some(1)),
        Some(PageWindow { page: i64::MAX, page_size: 1, offset: i64::MAX - 1 })
    );
}

#[test]
fn page_window_reads_the_query() {
    let w = page_window(&PaginationQuery { page: Some(5), page_size: Some(4) }).unwrap();
    assert_eq!(w, PageWindow { page: 5, page_size: 4, offset: 16 });
}

#[test]
fn page_window_refuses_a_page_or_size_below_one() {
    for (page, page_size) in [(Some(0), None), (None, Some(0)), (Some(-3), Some(5)), (Some(2), Some(-5))] {
        let e = page_window(&PaginationQuery { page, page_size }).unwrap_err();
        assert!(matches!(e, ApiError::BadRequest(m) if m == "Page and page size must be at least 1"));
    }
}

#[test]
fn page_window_refuses_a_page_that_cannot_be_addressed() {
    for (page, page_size) in [(Some(3), Some(i64::MAX)), (Some(i64::MAX), Some(i64::MAX)), (Some(i64::MAX), Some(2))] {
        let e = page_window(&PaginationQuery { page, page_size }).unwrap_err();
        assert!(matches!(e, ApiError::BadRequest(m) if m == "Page is out of range"));
    }
    let w = page_window(&PaginationQuery { page: Some(2), page_size: Some(i64::MAX) }).unwrap();
    assert_eq!(w.offset, i64::MAX);
    // A page below 1 is told so, however far out it is.
    let e = page_window(&PaginationQuery { page: Some(i64::MIN), page_size: Some(i64::MAX) }).unwrap_err();
    assert!(matches!(e, ApiError::BadRequest(m) if m == "Page and page size must be at least 1"));
}
