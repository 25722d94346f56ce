//! Page arithmetic shared by the list endpoints.

use crate::error::answers;
use crate::error::ApiError;
use crate::error::ApiErrorView;
use crate::model::PaginationQuery;
use vstd::prelude::*;

verus! {

/// The page a list request asks for, with defaults filled in.
#[derive(Debug, Clone, Copy, PartialEq, Eq, Structural)]
pub struct PageWindow {
    pub page: i64,
    pub page_size: i64,
    /// Rows before the page: `(page - 1) * page_size`.
    pub offset: i64,
}

/// The page number of a request: 1 where none is given.
pub open spec fn page_or_default(page: Option<i64>) -> i64 {
    match page {
        Some(p) => p,
        None => 1,
    }
}

/// The page size of a request: 20 where none is given.
pub open spec fn page_size_or_default(page_size: Option<i64>) -> i64 {
    match page_size {
        Some(n) => n,
        None => 20,
    }
}

/// True when page and page size, defaults filled in, are both at least 1.
pub open spec fn page_is_valid(page: Option<i64>, page_size: Option<i64>) -> bool {
    page_or_default(page) >= 1 && page_size_or_default(page_size) >= 1
}

/// The offset of a page, as a mathematical integer.
pub open spec fn page_offset(page: Option<i64>, page_size: Option<i64>) -> int {
    (page_or_default(page) - 1) * page_size_or_default(page_size)
}

/// True when the offset of the page can be held in an `i64`.
pub open spec fn window_fits(page: Option<i64>, page_size: Option<i64>) -> bool {
    page_offset(page, page_size) <= i64::MAX
}

/// True when the rows up to the end of the page can be counted in an `i64`.
pub open spec fn rows_fit(page: Option<i64>, page_size: Option<i64>) -> bool {
    page_offset(page, page_size) + page_size_or_default(page_size) <= i64::MAX
}

/// The text a page below 1 or a page size below 1 is refused with.
pub open spec fn invalid_page_text() -> Seq<char> {
    "Page and page size must be at least 1"@
}

/// The text a page too far out to be addressed is refused with.
pub open spec fn unaddressable_page_text() -> Seq<char> {
    "Page is out of range"@
}

/// The window of a request.  A page below 1 or a page size below 1 is a bad
/// request, and so is a page whose offset cannot be held.
pub open spec fn window_of(
    page: Option<i64>,
    page_size: Option<i64>,
) -> Result<PageWindow, ApiErrorView> {
    if !page_is_valid(page, page_size) {
        Err(ApiErrorView::BadRequest(invalid_page_text()))
    } else if !window_fits(page, page_size) {
        Err(ApiErrorView::BadRequest(unaddressable_page_text()))
    } else {
        Ok(
            PageWindow {
                page: page_or_default(page),
                page_size: page_size_or_default(page_size),
                offset: page_offset(page, page_size) as i64,
            },
        )
    }
}

/// Pages and page sizes from 1 to 2^31 can be addressed, and the rows up to
/// the end of such a page counted.
pub proof fn lemma_small_pages_fit(page: Option<i64>, page_size: Option<i64>)
    requires
        1 <= page_or_default(page) <= 0x8000_0000,
        1 <= page_size_or_default(page_size) <= 0x8000_0000,
    ensures
        page_is_valid(page, page_size),
        window_fits(page, page_size),
        rows_fit(page, page_size),
        0 <= page_offset(page, page_size),
{
    let p = page_or_default(page) as int;
    let n = page_size_or_default(page_size) as int;
    assert(0 <= (p - 1) * n <= 0x4000_0000_0000_0000) by (nonlinear_arith)
        requires
            1 <= p <= 0x8000_0000,
            1 <= n <= 0x8000_0000,
    ;
}

/// The window of a valid page whose offset can be held, `None` for any other
/// request.
pub fn checked_window(page: Option<i64>, page_size: Option<i64>) -> (res: Option<PageWindow>)
    ensures
        res is Some <==> page_is_valid(page, page_size) && window_fits(page, page_size),
        res matches Some(w) ==> w.page == page_or_default(page) && w.page_size
            == page_size_or_default(page_size) && w.offset == page_offset(page, page_size)
            && w.offset >= 0,
{
    let page = match page {
        Some(p) => p,
        None => 1,
    };
    let page_size = match page_size {
        Some(n) => n,
        None => 20,
    };
    if page < 1 || page_size < 1 {
        return None;
    }
    let before: i128 = page as i128 - 1;
    assert(0 <= before * page_size <= 0x4000_0000_0000_0000_0000_0000_0000_0000)
        by (nonlinear_arith)
        requires
            0 <= before <= 0x7fff_ffff_ffff_ffff,
            1 <= page_size <= 0x7fff_ffff_ffff_ffff,
    ;
    let offset: i128 = before * (page_size as i128);
    if offset > i64::MAX as i128 {
        None
    } else {
        Some(PageWindow { page, page_size, offset: offset as i64 })
    }
}

/// The window of a request: a page below 1 or a page size below 1 is a bad
/// request, and so is a page whose offset cannot be held.
pub fn page_window(query: &PaginationQuery) -> (res: Result<PageWindow, ApiError>)
    ensures
        answers(res, window_of(query.page, query.page_size)),
        res matches Ok(w) ==> w.offset >= 0 && w.page_size >= 1,
{
    let page_valid = match query.page {
        Some(p) => p >= 1,
        None => true,
    };
    let size_valid = match query.page_size {
        Some(n) => n >= 1,
        None => true,
    };
    if !page_valid || !size_valid {
        return Err(ApiError::bad_request("Page and page size must be at least 1"));
    }
    match checked_window(query.page, query.page_size) {
        Some(w) => Ok(w),
        None => Err(ApiError::bad_request("Page is out of range")),
    }
}

/// The part of `all` a page shows: what is left after `offset` rows, cut to
/// `page_size` rows.  It is meant for an offset and a page size that are not
/// negative.
pub open spec fn page_of<T>(all: Seq<T>, offset: i64, page_size: i64) -> Seq<T> {
    let skip = if offset > all.len() {
        all.len() as int
    } else {
        offset as int
    };
    let take = if page_size > all.len() - skip {
        all.len() - skip
    } else {
        page_size as int
    };
    all.subrange(skip, skip + take)
}

/// Filtering one element more: the element joins what was kept so far exactly
/// when it meets the predicate.
pub proof fn lemma_filter_step<T>(all: Seq<T>, pred: spec_fn(T) -> bool, i: int)
    requires
        0 <= i < all.len(),
    ensures
        all.take(i + 1).filter(pred) == if pred(all[i]) {
            all.take(i).filter(pred).push(all[i])
        } else {
            all.take(i).filter(pred)
        },
{
    reveal(Seq::filter);
    assert(all.take(i + 1).drop_last() =~= all.take(i));
    assert(all.take(i + 1).last() == all[i]);
}

/// What a prefix keeps of a sequence under a predicate is the beginning of
/// what the whole keeps.
pub proof fn lemma_filter_kept<T>(all: Seq<T>, pred: spec_fn(T) -> bool, i: int)
    requires
        0 <= i <= all.len(),
    ensures
        all.take(i).filter(pred).len() <= all.filter(pred).len(),
        forall|k: int|
            0 <= k < all.take(i).filter(pred).len() ==> #[trigger] all.filter(pred)[k]
                == all.take(i).filter(pred)[k],
    decreases all.len() - i,
{
    if i == all.len() {
        assert(all.take(i) =~= all);
    } else {
        lemma_filter_step(all, pred, i);
        lemma_filter_kept(all, pred, i + 1);
    }
}

} // verus!
