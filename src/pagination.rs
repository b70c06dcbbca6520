//! Which slice of a listing one page shows.

use vstd::prelude::*;

verus! {

/// The page size used when a query asks for none, or for a non-positive one.
pub const DEFAULT_PAGE_SIZE: i64 = 100;

/// One page of a listing of `total_size` items.
#[derive(Clone, Copy, Debug, PartialEq, Eq, Structural)]
pub struct PageWindow {
    pub total_size: i64,
    /// The page shown, from 1.
    pub page: i64,
    pub page_size: i64,
    pub total_pages: i64,
    /// How many items come before the page.
    pub offset: i64,
    pub has_previous_page: bool,
    pub has_next_page: bool,
}

/// Pages needed for `total` items, `size` to a page.
pub open spec fn pages_for(total: int, size: int) -> int {
    (total + size - 1) / size
}

/// `page` brought into `1..=max(total_pages, 1)`.
pub open spec fn clamped_page(page: int, total_pages: int) -> int {
    let last = if total_pages > 1 { total_pages } else { 1 };
    if page < 1 {
        1
    } else if page > last {
        last
    } else {
        page
    }
}

/// The window for `total_size` items shown `page_size` (at least 1) to a page.
pub open spec fn window(total_size: int, page: int, page_size: int) -> PageWindow {
    let total_pages = pages_for(total_size, page_size);
    let p = clamped_page(page, total_pages);
    PageWindow {
        total_size: total_size as i64,
        page: p as i64,
        page_size: page_size as i64,
        total_pages: total_pages as i64,
        offset: ((p - 1) * page_size) as i64,
        has_previous_page: p > 1,
        has_next_page: p < total_pages,
    }
}

impl PageWindow {
    /// The window for a listing of `total_size` items. A page size below 1
    /// counts as 1; a page outside the listing is moved to its nearest end.
    pub fn new(total_size: i64, page: i64, page_size: i64) -> (r: PageWindow)
        requires
            total_size >= 0,
        ensures
            r == window(total_size as int, page as int, if page_size < 1 { 1 } else { page_size as int }),
            r.offset <= r.total_size || r.total_size == 0,
    {
        let size = if page_size < 1 { 1 } else { page_size };
        Self::sized(total_size, page, size)
    }

    /// As `new`, but a page size below 1 means the default size.
    pub fn with_default_size(total_size: i64, page: i64, page_size: i64) -> (r: PageWindow)
        requires
            total_size >= 0,
        ensures
            r == window(total_size as int, page as int, if page_size < 1 { 100 } else { page_size as int }),
    {
        let size = if page_size < 1 { DEFAULT_PAGE_SIZE } else { page_size };
        Self::sized(total_size, page, size)
    }

    fn sized(total_size: i64, page: i64, size: i64) -> (r: PageWindow)
        requires
            total_size >= 0,
            size >= 1,
        ensures
            r == window(total_size as int, page as int, size as int),
            r.offset <= r.total_size || r.total_size == 0,
    {
        proof {
            lemma_pages_bound(total_size as int, size as int);
        }
        let pages = ((total_size as i128 + size as i128 - 1) / size as i128) as i64;
        assert(pages == pages_for(total_size as int, size as int));
        let last = if pages > 1 { pages } else { 1 };
        let p = if page < 1 { 1 } else if page > last { last } else { page };
        proof {
            lemma_offset_bound(total_size as int, size as int, p as int);
        }
        let offset = (p - 1) * size;
        PageWindow {
            total_size,
            page: p,
            page_size: size,
            total_pages: pages,
            offset,
            has_previous_page: p > 1,
            has_next_page: p < pages,
        }
    }
}

proof fn lemma_pages_bound(total: int, size: int)
    requires
        total >= 0,
        size >= 1,
    ensures
        0 <= pages_for(total, size) <= total,
{
    assert(0 <= (total + size - 1) / size) by (nonlinear_arith)
        requires total >= 0, size >= 1;
    if total > 0 {
        assert((total + size - 1) / size <= total) by (nonlinear_arith)
            requires total >= 1, size >= 1;
    } else {
        assert((size - 1) / size == 0) by (nonlinear_arith)
            requires size >= 1;
    }
}

/// The pages before the last one do not hold all the items.
proof fn lemma_offset_bound(total: int, size: int, p: int)
    requires
        total >= 0,
        size >= 1,
        1 <= p,
        p <= pages_for(total, size) || p == 1,
    ensures
        0 <= (p - 1) * size,
        (p - 1) * size <= total || total == 0,
{
    assert(0 <= (p - 1) * size) by (nonlinear_arith)
        requires p >= 1, size >= 1;
    if p > 1 {
        let n = pages_for(total, size);
        let x = total + size - 1;
        vstd::arithmetic::div_mod::lemma_fundamental_div_mod(x, size);
        vstd::arithmetic::div_mod::lemma_mod_pos_bound(x, size);
        assert(size * n <= x);
        assert((n - 1) * size == size * n - size) by (nonlinear_arith);
        assert((p - 1) * size <= (n - 1) * size) by (nonlinear_arith)
            requires p <= n, size >= 1;
    } else {
        assert((p - 1) * size == 0) by (nonlinear_arith)
            requires p == 1;
    }
}

} // verus!
