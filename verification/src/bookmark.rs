//! Bookmarks: what is asked of the store for each request, and what its
//! answers mean.
//!
//! The tags of a bookmark are rows of the join table `bookmark_tags`, so a
//! bookmark is written and read in several statements; the caller runs those
//! of one write as one atomic unit.

use vstd::prelude::*;
use crate::error::AppError;
use crate::listing::{plan_listing, ListPlan};
use crate::models::{Bookmark, BookmarkDetail, BookmarkQuery, BookmarkRow, PaginatedBookmarks, Tag};
use crate::pagination::{effective_page, effective_per_page, PageWindow};
use crate::predicate::{Filters, FiltersView, Layout};
use crate::sql::{optional_integer, SqlValue, SqlValueView, Statement};

verus! {

pub const COUNT_BOOKMARKS: &'static str =
    "SELECT COUNT(DISTINCT b.id) FROM bookmarks b LEFT JOIN bookmark_tags bt ON b.id = bt.bookmark_id";

pub const SELECT_BOOKMARKS: &'static str =
    "SELECT DISTINCT b.id, b.content, b.url, b.category_id, c.name as category_name, b.created_at FROM bookmarks b LEFT JOIN categories c ON b.category_id = c.id LEFT JOIN bookmark_tags bt ON b.id = bt.bookmark_id";

pub const NEWEST_FIRST_PAGE: &'static str = " ORDER BY b.created_at DESC, b.id DESC LIMIT ? OFFSET ?";

pub const SELECT_BOOKMARK: &'static str =
    "SELECT b.id, b.content, b.url, b.category_id, c.name as category_name, b.created_at FROM bookmarks b LEFT JOIN categories c ON b.category_id = c.id WHERE b.id = ?";

pub const SELECT_BOOKMARK_TAGS: &'static str =
    "SELECT t.id, t.name FROM tags t JOIN bookmark_tags bt ON t.id = bt.tag_id WHERE bt.bookmark_id = ?";

pub const INSERT_BOOKMARK: &'static str =
    "INSERT INTO bookmarks (content, url, category_id) VALUES (?, ?, ?)";

pub const INSERT_BOOKMARK_TAG: &'static str =
    "INSERT INTO bookmark_tags (bookmark_id, tag_id) VALUES (?, ?)";

pub const UPDATE_BOOKMARK: &'static str =
    "UPDATE bookmarks SET content = ?, url = ?, category_id = ? WHERE id = ?";

pub const DELETE_BOOKMARK_TAGS: &'static str = "DELETE FROM bookmark_tags WHERE bookmark_id = ?";

pub const DELETE_BOOKMARK: &'static str = "DELETE FROM bookmarks WHERE id = ?";

/// A page number or page size of a bookmark listing, as the window reads it.
pub open spec fn widened(n: Option<u32>) -> Option<i64> {
    match n {
        Some(n) => Some(n as i64),
        None => None,
    }
}

fn widen(n: Option<u32>) -> (w: Option<i64>)
    ensures
        w == widened(n),
{
    match n {
        Some(n) => Some(n as i64),
        None => None,
    }
}

impl BookmarkQuery {
    /// The filters of the listing, as the predicate builder reads them.
    pub open spec fn filters_view(&self) -> FiltersView {
        FiltersView {
            search: match self.search {
                Some(s) => Some(s@),
                None => None,
            },
            category_id: match self.category_id {
                Some(c) => Some(c as int),
                None => None,
            },
            tag_id: match self.tag_id {
                Some(t) => Some(t as int),
                None => None,
            },
        }
    }

    /// The filters of the listing.
    pub fn filters(&self) -> (f: Filters)
        ensures
            f@ == self.filters_view(),
    {
        Filters {
            search: match &self.search {
                Some(s) => Some(s.clone()),
                None => None,
            },
            category_id: self.category_id,
            tag_id: self.tag_id,
        }
    }

    /// The window of the listing.
    pub fn window(&self) -> (w: PageWindow)
        ensures
            w.is_window_of(widened(self.page), widened(self.per_page)),
            1 <= w.page <= u32::MAX,
            1 <= w.per_page <= u32::MAX,
            0 <= w.offset,
    {
        PageWindow::resolve(widen(self.page), widen(self.per_page))
    }
}

/// Plans a listing of bookmarks: the query that counts the bookmarks that
/// match the filters, and the query that fetches one page of them, newest
/// first. A bookmark counts once however many of its tags match.
///
/// Both queries carry the same `WHERE` fragment, and the page query binds the
/// values of the count query before its own two.
pub fn list_bookmarks(query: &BookmarkQuery) -> (plan: ListPlan)
    ensures
        plan.window.is_window_of(widened(query.page), widened(query.per_page)),
        plan.is_plan_of(
            COUNT_BOOKMARKS@,
            SELECT_BOOKMARKS@,
            NEWEST_FIRST_PAGE@,
            query.filters_view(),
            Layout::Bookmarks,
            plan.window,
        ),
{
    let window = query.window();
    let filters = query.filters();
    plan_listing(
        COUNT_BOOKMARKS,
        SELECT_BOOKMARKS,
        NEWEST_FIRST_PAGE,
        &filters,
        Layout::Bookmarks,
        window,
    )
}

/// The query for the tags of one bookmark.
pub fn bookmark_tags(bookmark_id: i64) -> (s: Statement)
    ensures
        s@.sql == SELECT_BOOKMARK_TAGS@,
        s@.params == seq![SqlValueView::Integer(bookmark_id as int)],
{
    Statement::with_one(SELECT_BOOKMARK_TAGS, SqlValue::Integer(bookmark_id))
}

/// A bookmark with its tags: the columns of the row, and the tags in the
/// order in which the store returned them.
pub fn bookmark_detail(row: BookmarkRow, tags: Vec<Tag>) -> (detail: BookmarkDetail)
    ensures
        detail == (BookmarkDetail {
            id: row.id,
            content: row.content,
            url: row.url,
            category_id: row.category_id,
            category_name: row.category_name,
            tags: tags,
            created_at: row.created_at,
        }),
{
    BookmarkDetail {
        id: row.id,
        content: row.content,
        url: row.url,
        category_id: row.category_id,
        category_name: row.category_name,
        tags,
        created_at: row.created_at,
    }
}

/// The page that answers a listing of bookmarks: the count as the store gave
/// it, the bookmarks of the page, and the page number and page size that the
/// listing was made with. A page never holds more than `per_page` bookmarks:
/// what the store returned beyond them is dropped.
pub fn list_response(query: &BookmarkQuery, total: u32, bookmarks: Vec<BookmarkDetail>) -> (r:
    PaginatedBookmarks)
    ensures
        r.total == total,
        r.page == effective_page(widened(query.page)),
        r.per_page == effective_per_page(widened(query.per_page)),
        r.bookmarks@.len() <= r.per_page,
        r.bookmarks@ == if bookmarks@.len() <= r.per_page {
            bookmarks@
        } else {
            bookmarks@.take(r.per_page as int)
        },
{
    let window = query.window();
    let mut kept = bookmarks;
    if kept.len() as u64 > window.per_page as u64 {
        kept.truncate(window.per_page as usize);
    }
    PaginatedBookmarks {
        bookmarks: kept,
        total,
        page: window.page as u32,
        per_page: window.per_page as u32,
    }
}

/// The query for one bookmark, with the name of its category.
pub fn get_bookmark(id: i64) -> (s: Statement)
    ensures
        s@.sql == SELECT_BOOKMARK@,
        s@.params == seq![SqlValueView::Integer(id as int)],
{
    Statement::with_one(SELECT_BOOKMARK, SqlValue::Integer(id))
}

/// The answer to a request for one bookmark, from what `get_bookmark` and
/// `bookmark_tags` returned: the bookmark with its tags where the store has
/// the row, `NotFound` where it has none.
pub fn get_bookmark_detail(row: Option<BookmarkRow>, tags: Vec<Tag>) -> (r: Result<
    BookmarkDetail,
    AppError,
>)
    ensures
        match row {
            Some(found) => r == Ok::<BookmarkDetail, AppError>(
                BookmarkDetail {
                    id: found.id,
                    content: found.content,
                    url: found.url,
                    category_id: found.category_id,
                    category_name: found.category_name,
                    tags: tags,
                    created_at: found.created_at,
                },
            ),
            None => r == Err::<BookmarkDetail, AppError>(AppError::NotFound),
        },
{
    match row {
        Some(found) => Ok(bookmark_detail(found, tags)),
        None => Err(AppError::NotFound),
    }
}

/// The values bound when a bookmark is stored: content, link, category.
pub open spec fn insert_values(bookmark: &Bookmark) -> Seq<SqlValueView> {
    seq![
        SqlValueView::Text(bookmark.content@),
        SqlValueView::Text(bookmark.url@),
        optional_integer(bookmark.category_id),
    ]
}

/// The values bound when a bookmark is replaced: content, link, category,
/// and the identifier of the row.
pub open spec fn update_values(id: i64, bookmark: &Bookmark) -> Seq<SqlValueView> {
    seq![
        SqlValueView::Text(bookmark.content@),
        SqlValueView::Text(bookmark.url@),
        optional_integer(bookmark.category_id),
        SqlValueView::Integer(id as int),
    ]
}

/// The statement that stores a new bookmark. The store assigns its
/// identifier and its time of creation; its tags follow with `link_tags`.
pub fn create_bookmark(bookmark: &Bookmark) -> (s: Statement)
    ensures
        s@.sql == INSERT_BOOKMARK@,
        s@.params == insert_values(bookmark),
{
    let mut params: Vec<SqlValue> = Vec::new();
    params.push(SqlValue::text(bookmark.content.as_str()));
    params.push(SqlValue::text(bookmark.url.as_str()));
    params.push(SqlValue::optional(bookmark.category_id));
    assert(params.deep_view() =~= insert_values(bookmark));
    Statement::new(INSERT_BOOKMARK, params)
}

/// What the statement that gives the bookmark `bookmark_id` the tag `tag_id`
/// stands for.
pub open spec fn link_view(bookmark_id: i64, tag_id: i64) -> crate::sql::StatementView {
    crate::sql::StatementView {
        sql: INSERT_BOOKMARK_TAG@,
        params: seq![
            SqlValueView::Integer(bookmark_id as int),
            SqlValueView::Integer(tag_id as int),
        ],
    }
}

/// The statements that give a bookmark its tags: one for each identifier, in
/// their order.
pub fn link_tags(bookmark_id: i64, tag_ids: &Vec<i64>) -> (links: Vec<Statement>)
    ensures
        links@.len() == tag_ids@.len(),
        forall|k: int|
            0 <= k < tag_ids@.len() ==> (#[trigger] links@[k])@ == link_view(
                bookmark_id,
                tag_ids@[k],
            ),
{
    let mut links: Vec<Statement> = Vec::new();
    let mut i: usize = 0;
    while i < tag_ids.len()
        invariant
            i <= tag_ids.len(),
            links@.len() == i,
            forall|k: int|
                0 <= k < i ==> (#[trigger] links@[k])@ == link_view(bookmark_id, tag_ids@[k]),
        decreases tag_ids.len() - i,
    {
        let mut params: Vec<SqlValue> = Vec::new();
        params.push(SqlValue::Integer(bookmark_id));
        params.push(SqlValue::Integer(tag_ids[i]));
        assert(params.deep_view() =~= link_view(bookmark_id, tag_ids@[i as int]).params);
        links.push(Statement::new(INSERT_BOOKMARK_TAG, params));
        i += 1;
    }
    links
}

/// The statement that takes all tags from a bookmark.
pub fn unlink_tags(bookmark_id: i64) -> (s: Statement)
    ensures
        s@.sql == DELETE_BOOKMARK_TAGS@,
        s@.params == seq![SqlValueView::Integer(bookmark_id as int)],
{
    Statement::with_one(DELETE_BOOKMARK_TAGS, SqlValue::Integer(bookmark_id))
}

/// The statement that replaces what the bookmark `id` holds. Whether the
/// bookmark exists shows in the number of rows that it touches; its tags are
/// replaced with `unlink_tags` and `link_tags`.
pub fn update_bookmark(id: i64, bookmark: &Bookmark) -> (s: Statement)
    ensures
        s@.sql == UPDATE_BOOKMARK@,
        s@.params == update_values(id, bookmark),
{
    let mut params: Vec<SqlValue> = Vec::new();
    params.push(SqlValue::text(bookmark.content.as_str()));
    params.push(SqlValue::text(bookmark.url.as_str()));
    params.push(SqlValue::optional(bookmark.category_id));
    params.push(SqlValue::Integer(id));
    assert(params.deep_view() =~= update_values(id, bookmark));
    Statement::new(UPDATE_BOOKMARK, params)
}

/// The statement that removes the bookmark `id` for good, to run after
/// `unlink_tags`. Whether the bookmark existed shows in the number of rows
/// that it touches.
pub fn delete_bookmark(id: i64) -> (s: Statement)
    ensures
        s@.sql == DELETE_BOOKMARK@,
        s@.params == seq![SqlValueView::Integer(id as int)],
{
    Statement::with_one(DELETE_BOOKMARK, SqlValue::Integer(id))
}

} // verus!
