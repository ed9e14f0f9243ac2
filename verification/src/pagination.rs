//! Turning a page number and a page size into the window of rows to fetch.
//!
//! Pages are numbered from 1. A request may leave either value out, and may
//! send values that make no sense as they stand; every request still gets a
//! window: a missing value takes its default, a page below the first is the
//! first, and the page size is held between 1 and `MAX_PER_PAGE`.

use vstd::prelude::*;

verus! {

/// Page number used when a request names none.
pub const DEFAULT_PAGE: i64 = 1;

/// Page size used when a request names none.
pub const DEFAULT_PER_PAGE: i64 = 10;

/// Largest page size that is ever handed to the store.
pub const MAX_PER_PAGE: i64 = 100;

/// The page number that a request means: the default where it names none,
/// and the first page where it names one below it.
pub open spec fn effective_page(page: Option<i64>) -> int {
    match page {
        None => DEFAULT_PAGE as int,
        Some(p) => if p < 1 {
            1
        } else {
            p as int
        },
    }
}

/// The page size that a request means: the default where it names none, else
/// the size it names, raised to 1 or lowered to `MAX_PER_PAGE` where it lies
/// outside.
pub open spec fn effective_per_page(per_page: Option<i64>) -> int {
    match per_page {
        None => DEFAULT_PER_PAGE as int,
        Some(n) => if n < 1 {
            1
        } else if n > MAX_PER_PAGE {
            MAX_PER_PAGE as int
        } else {
            n as int
        },
    }
}

/// The number of rows before a page: `(page - 1) * per_page`, held at the
/// largest offset that the store can take.
pub open spec fn offset_before(page: int, per_page: int) -> int {
    if (page - 1) * per_page > i64::MAX {
        i64::MAX as int
    } else {
        (page - 1) * per_page
    }
}

/// Whether a request names a page and a size that are taken as they stand:
/// both are there, the page is 1 or more, the size lies between 1 and
/// `MAX_PER_PAGE`, and the rows before the page can be counted by the store.
pub open spec fn is_plain_request(page: Option<i64>, per_page: Option<i64>) -> bool {
    &&& page matches Some(p)
    &&& per_page matches Some(n)
    &&& 1 <= p
    &&& 1 <= n <= MAX_PER_PAGE
    &&& (p - 1) * n <= i64::MAX
}

/// The window of rows that one request asks for.
#[derive(Debug, Clone, Copy, PartialEq, Eq, Structural)]
pub struct PageWindow {
    /// The page, counted from 1.
    pub page: i64,
    /// The number of rows on a full page; the `LIMIT` of the query.
    pub per_page: i64,
    /// The number of rows before the page; the `OFFSET` of the query.
    pub offset: i64,
}

impl PageWindow {
    /// Whether this is the window of the given request.
    pub open spec fn is_window_of(self, page: Option<i64>, per_page: Option<i64>) -> bool {
        &&& self.page == effective_page(page)
        &&& self.per_page == effective_per_page(per_page)
        &&& self.offset == offset_before(effective_page(page), effective_per_page(per_page))
    }

    /// The number of rows that the window holds out of `total` rows in order:
    /// a full page where that many are left after the offset, the rest where
    /// fewer are, none where the offset reaches past the end.
    pub open spec fn rows_in(self, total: int) -> int {
        if self.offset < total {
            if self.per_page <= total - self.offset {
                self.per_page as int
            } else {
                total - self.offset
            }
        } else {
            0
        }
    }

    /// The rows that the window cuts out of `rows` in order: those after the
    /// first `offset`, as far as `per_page` reaches. This is what `LIMIT` and
    /// `OFFSET` mean to the store.
    pub open spec fn cut<T>(self, rows: Seq<T>) -> Seq<T> {
        if 0 <= self.offset < rows.len() && 0 <= self.per_page {
            if self.offset + self.per_page <= rows.len() {
                rows.subrange(self.offset as int, self.offset + self.per_page)
            } else {
                rows.subrange(self.offset as int, rows.len() as int)
            }
        } else {
            Seq::empty()
        }
    }

    /// The window cuts as many rows as `rows_in` counts: a full page where
    /// that many are left after the offset, the rest where fewer are, none
    /// where the offset reaches past the end.
    pub proof fn lemma_cut_holds_rows_in<T>(self, rows: Seq<T>)
        requires
            0 <= self.offset,
            0 <= self.per_page,
        ensures
            self.cut(rows).len() == self.rows_in(rows.len() as int),
            self.cut(rows).len() <= self.per_page,
    {
    }

    /// The window of a request.
    pub fn resolve(page: Option<i64>, per_page: Option<i64>) -> (w: PageWindow)
        ensures
            w.is_window_of(page, per_page),
            1 <= w.page,
            1 <= w.per_page <= MAX_PER_PAGE,
            0 <= w.offset,
            is_plain_request(page, per_page) ==> w.page == page->0 && w.per_page == per_page->0
                && w.offset == (page->0 - 1) * per_page->0,
    {
        let page: i64 = match page {
            None => DEFAULT_PAGE,
            Some(p) => if p < 1 {
                1
            } else {
                p
            },
        };
        let per_page: i64 = match per_page {
            None => DEFAULT_PER_PAGE,
            Some(n) => if n < 1 {
                1
            } else if n > MAX_PER_PAGE {
                MAX_PER_PAGE
            } else {
                n
            },
        };
        let before: i64 = page - 1;
        assert(0 <= before * per_page <= before * 100) by (nonlinear_arith)
            requires
                0 <= before,
                1 <= per_page <= 100,
        ;
        let wide: i128 = (before as i128) * (per_page as i128);
        let offset: i64 = if wide > i64::MAX as i128 {
            i64::MAX
        } else {
            wide as i64
        };
        PageWindow { page, per_page, offset }
    }
}

/// The number of rows of `total` rows in order that lie on page `page` when
/// every page takes `per_page` of them: a full page where that many are left
/// after the pages before, the rest where fewer are, none beyond the end.
pub open spec fn rows_on_page(total: int, per_page: int, page: int) -> int {
    let before = (page - 1) * per_page;
    if before < total {
        if per_page <= total - before {
            per_page
        } else {
            total - before
        }
    } else {
        0
    }
}

/// The number of rows on the pages 1 to `pages`, taken together.
pub open spec fn rows_on_pages(total: int, per_page: int, pages: int) -> int
    decreases pages,
{
    if pages <= 0 {
        0
    } else {
        rows_on_pages(total, per_page, pages - 1) + rows_on_page(total, per_page, pages)
    }
}

/// The page of a request that is taken as it stands holds what is left for
/// it: out of the rows that match, in order, the window of page `page` with
/// `per_page` rows to a page cuts `per_page` rows where that many are left
/// after the `(page - 1) * per_page` rows of the pages before, the rest where
/// fewer are left, and none where the pages before hold them all.
pub proof fn lemma_page_holds_what_is_left<T>(
    w: PageWindow,
    page: i64,
    per_page: i64,
    rows: Seq<T>,
)
    requires
        is_plain_request(Some(page), Some(per_page)),
        w.is_window_of(Some(page), Some(per_page)),
    ensures
        w.per_page == per_page,
        w.offset == (page - 1) * per_page,
        w.cut(rows).len() == rows_on_page(rows.len() as int, per_page as int, page as int),
{
    assert(0 <= (page - 1) * per_page) by (nonlinear_arith)
        requires
            1 <= page,
            1 <= per_page,
    ;
    w.lemma_cut_holds_rows_in(rows);
}

/// Consecutive pages lie side by side: the window of the next page starts
/// where this one ends, so that no row is on two pages and none between
/// two.
pub proof fn lemma_next_page_follows(w: PageWindow, next: PageWindow, page: i64, per_page: i64)
    requires
        is_plain_request(Some(page), Some(per_page)),
        page < i64::MAX,
        is_plain_request(Some((page + 1) as i64), Some(per_page)),
        w.is_window_of(Some(page), Some(per_page)),
        next.is_window_of(Some((page + 1) as i64), Some(per_page)),
    ensures
        next.offset == w.offset + w.per_page,
{
    assert((page + 1 - 1) * per_page == (page - 1) * per_page + per_page) by (nonlinear_arith);
}

/// The pages cut the rows up without loss: the first `pages` pages hold the
/// first `pages * per_page` rows, and all of them where there are no more.
/// With pages enough, the rows on all pages add up to `total`.
pub proof fn lemma_pages_hold_every_row(total: int, per_page: int, pages: int)
    requires
        0 <= total,
        1 <= per_page,
        0 <= pages,
    ensures
        rows_on_pages(total, per_page, pages) == if pages * per_page <= total {
            pages * per_page
        } else {
            total
        },
        pages * per_page >= total ==> rows_on_pages(total, per_page, pages) == total,
    decreases pages,
{
    if pages == 0 {
        assert(pages * per_page == 0) by (nonlinear_arith)
            requires
                pages == 0,
        ;
    } else {
        lemma_pages_hold_every_row(total, per_page, pages - 1);
        assert((pages - 1) * per_page + per_page == pages * per_page) by (nonlinear_arith);
    }
}

} // verus!
