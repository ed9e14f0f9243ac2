//! Favorites: saved links with a description, an optional category and a list
//! of tags, kept in the table `favorites`.
//!
//! The functions here decide what is asked of the store and what its answers
//! mean. Talking to the store is the caller's part.

use vstd::prelude::*;
use crate::decimal::{parse_i64, parsed_i64};
use crate::error::AppError;
use crate::json::{encode_tags, tags_json};
use crate::listing::{plan_listing, ListPlan};
use crate::pagination::PageWindow;
use crate::predicate::{Filters, FiltersView, Layout};
use crate::sql::{optional_integer, SqlValue, SqlValueView, Statement};

verus! {

/// The parameters of a listing.
#[derive(Debug, Clone, PartialEq, Eq)]
pub struct ListFavoriteQuery {
    /// The page, counted from 1.
    pub page: Option<i64>,
    /// The number of favorites on a page.
    pub per_page: Option<i64>,
    /// Text that the description must contain.
    pub search: Option<String>,
    /// Category that the favorite must belong to.
    pub category_id: Option<i64>,
    /// Tag that the favorite must carry.
    pub tag_id: Option<i64>,
}

/// A favorite as the store returns it, with the name of its category.
#[derive(Debug, Clone, PartialEq, Eq)]
pub struct Favorite {
    pub id: i64,
    pub category_id: Option<i64>,
    /// The name of the category, or the label for favorites without one.
    pub category_name: String,
    pub text: String,
    pub url: String,
    /// The tags, as JSON text.
    pub tags: String,
    pub created_at: String,
}

/// One page of a listing.
#[derive(Debug, Clone, PartialEq, Eq)]
pub struct FavoriteResponse {
    /// The number of favorites that match the filters, on all pages.
    pub total: i64,
    /// The favorites on this page.
    pub items: Vec<Favorite>,
}

/// The request to create a favorite.
#[derive(Debug, Clone, PartialEq, Eq)]
pub struct CreateFavorite {
    pub category_id: Option<i64>,
    pub text: String,
    pub url: String,
    pub tags: Vec<String>,
}

/// The request to replace what a favorite holds. Its identifier and its time
/// of creation are not part of it: they never change.
#[derive(Debug, Clone, PartialEq, Eq)]
pub struct UpdateFavorite {
    pub category_id: Option<i64>,
    pub text: String,
    pub url: String,
    pub tags: Vec<String>,
}

pub const COUNT_FAVORITES: &'static str = "SELECT COUNT(*) FROM favorites f";

pub const SELECT_FAVORITES: &'static str =
    "SELECT f.id, f.category_id, COALESCE(c.name, '未分类') as category_name, f.text, f.url, f.tags, f.created_at FROM favorites f LEFT JOIN categories c ON f.category_id = c.id";

pub const NEWEST_FIRST_PAGE: &'static str = " ORDER BY f.created_at DESC, f.id DESC LIMIT ? OFFSET ?";

pub const SELECT_FAVORITE: &'static str =
    "SELECT f.id, f.category_id, COALESCE(c.name, '未分类') as category_name, f.text, f.url, f.tags, f.created_at FROM favorites f LEFT JOIN categories c ON f.category_id = c.id WHERE f.id = ?";

pub const INSERT_FAVORITE: &'static str =
    "INSERT INTO favorites (category_id, text, url, tags, created_at) VALUES (?, ?, ?, ?, ?)";

pub const UPDATE_FAVORITE: &'static str =
    "UPDATE favorites SET category_id = ?, text = ?, url = ?, tags = ? WHERE id = ?";

pub const DELETE_FAVORITE: &'static str = "DELETE FROM favorites WHERE id = ?";

/// The number that a parameter of a request holds: none where the parameter
/// is missing, empty, or not the decimal text of a 64-bit integer.
pub open spec fn number_in(raw: Option<String>) -> Option<i64> {
    match raw {
        Some(text) => parsed_i64(text@),
        None => None,
    }
}

/// The text that a parameter of a request holds: none where the parameter is
/// missing or empty.
pub open spec fn text_in(raw: Option<String>) -> Option<String> {
    match raw {
        Some(text) => if text@.len() > 0 {
            Some(text)
        } else {
            None
        },
        None => None,
    }
}

fn read_number(raw: &Option<String>) -> (n: Option<i64>)
    ensures
        n == number_in(*raw),
{
    match raw {
        Some(text) => parse_i64(text.as_str()),
        None => None,
    }
}

impl ListFavoriteQuery {
    /// Reads the parameters of a listing from the texts that a request
    /// carries. A parameter that is missing, empty or, for a number,
    /// unreadable counts as not given: no text is refused.
    pub fn from_raw(
        page: Option<String>,
        per_page: Option<String>,
        search: Option<String>,
        category_id: Option<String>,
        tag_id: Option<String>,
    ) -> (query: ListFavoriteQuery)
        ensures
            query.page == number_in(page),
            query.per_page == number_in(per_page),
            query.search == text_in(search),
            query.category_id == number_in(category_id),
            query.tag_id == number_in(tag_id),
    {
        ListFavoriteQuery {
            page: read_number(&page),
            per_page: read_number(&per_page),
            search: match search {
                Some(text) => if text.as_str().is_empty() {
                    None
                } else {
                    Some(text)
                },
                None => None,
            },
            category_id: read_number(&category_id),
            tag_id: read_number(&tag_id),
        }
    }

    /// The filters of the listing, as the predicate builder reads them.
    pub open spec fn filters_view(&self) -> FiltersView {
        FiltersView {
            search: match self.search {
                Some(s) => Some(s@),
                None => None,
            },
            category_id: match self.category_id {
                Some(c) => Some(c as int),
                None => None,
            },
            tag_id: match self.tag_id {
                Some(t) => Some(t as int),
                None => None,
            },
        }
    }

    /// The filters of the listing.
    pub fn filters(&self) -> (f: Filters)
        ensures
            f@ == self.filters_view(),
    {
        Filters {
            search: match &self.search {
                Some(s) => Some(s.clone()),
                None => None,
            },
            category_id: self.category_id,
            tag_id: self.tag_id,
        }
    }
}

/// Plans a listing of favorites: the query that counts the favorites that
/// match the filters, and the query that fetches one page of them, newest
/// first.
///
/// Both queries carry the same `WHERE` fragment, and the page query binds the
/// values of the count query before its own two, so that the count is that
/// of the rows from which the page is cut.
pub fn list_favorites(params: &ListFavoriteQuery) -> (plan: ListPlan)
    ensures
        plan.window.is_window_of(params.page, params.per_page),
        plan.is_plan_of(
            COUNT_FAVORITES@,
            SELECT_FAVORITES@,
            NEWEST_FIRST_PAGE@,
            params.filters_view(),
            Layout::Favorites,
            plan.window,
        ),
{
    let window = PageWindow::resolve(params.page, params.per_page);
    let filters = params.filters();
    plan_listing(
        COUNT_FAVORITES,
        SELECT_FAVORITES,
        NEWEST_FIRST_PAGE,
        &filters,
        Layout::Favorites,
        window,
    )
}

/// The number of rows that a page of `per_page` rows keeps out of `len`
/// returned rows.
pub open spec fn kept_rows(len: int, per_page: int) -> int {
    if per_page < 0 {
        0
    } else if len <= per_page {
        len
    } else {
        per_page
    }
}

/// The page that answers a listing: the count as the store gave it, and the
/// rows that it returned for the page. A page never holds more than
/// `window.per_page` rows: what the store returned beyond them is dropped.
pub fn list_response(window: PageWindow, total: i64, rows: Vec<Favorite>) -> (r: FavoriteResponse)
    ensures
        r.total == total,
        r.items@ == rows@.take(kept_rows(rows@.len() as int, window.per_page as int)),
        window.per_page >= 0 ==> r.items@.len() <= window.per_page,
{
    let mut items = rows;
    let cap: u64 = if window.per_page < 0 {
        0
    } else {
        window.per_page as u64
    };
    if items.len() as u64 > cap {
        items.truncate(cap as usize);
    }
    assert(items@ =~= rows@.take(kept_rows(rows@.len() as int, window.per_page as int)));
    FavoriteResponse { total, items }
}

/// The page of a store that answers as asked passes whole: where the store
/// counts `matching.len()` rows and returns those that the window cuts out of
/// `matching`, the response holds that count and exactly those rows, as many
/// as `rows_in` says.
pub proof fn lemma_page_of_a_faithful_store(window: PageWindow, matching: Seq<Favorite>)
    requires
        0 <= window.offset,
        0 <= window.per_page,
    ensures
        ({
            let rows = window.cut(matching);
            &&& rows.take(kept_rows(rows.len() as int, window.per_page as int)) == rows
            &&& rows.len() == window.rows_in(matching.len() as int)
        }),
{
    window.lemma_cut_holds_rows_in(matching);
    let rows = window.cut(matching);
    assert(rows.take(rows.len() as int) =~= rows);
}

/// The values bound when a favorite is stored: category, description, link,
/// tags as JSON text, time of creation.
pub open spec fn insert_values(
    payload: &CreateFavorite,
    tags_text: Seq<char>,
    created_at: Seq<char>,
) -> Seq<SqlValueView> {
    seq![
        optional_integer(payload.category_id),
        SqlValueView::Text(payload.text@),
        SqlValueView::Text(payload.url@),
        SqlValueView::Text(tags_text),
        SqlValueView::Text(created_at),
    ]
}

/// The values bound when a favorite is replaced: category, description,
/// link, tags as JSON text, and the identifier of the row.
pub open spec fn update_values(id: i64, payload: &UpdateFavorite, tags_text: Seq<char>) -> Seq<
    SqlValueView,
> {
    seq![
        optional_integer(payload.category_id),
        SqlValueView::Text(payload.text@),
        SqlValueView::Text(payload.url@),
        SqlValueView::Text(tags_text),
        SqlValueView::Integer(id as int),
    ]
}

/// The statement that stores a new favorite whose tags are already encoded.
/// The store assigns the identifier; `created_at` is bound here, once.
pub fn insert_favorite(payload: &CreateFavorite, tags_text: &str, created_at: &str) -> (s: Statement)
    ensures
        s@.sql == INSERT_FAVORITE@,
        s@.params == insert_values(payload, tags_text@, created_at@),
{
    let mut params: Vec<SqlValue> = Vec::new();
    params.push(SqlValue::optional(payload.category_id));
    params.push(SqlValue::text(payload.text.as_str()));
    params.push(SqlValue::text(payload.url.as_str()));
    params.push(SqlValue::text(tags_text));
    params.push(SqlValue::text(created_at));
    assert(params.deep_view() =~= insert_values(payload, tags_text@, created_at@));
    Statement::new(INSERT_FAVORITE, params)
}

/// Plans the creation of a favorite at the time `created_at`: the statement
/// that stores it, with its tags encoded as JSON text.
///
/// The request succeeds exactly where the encoder takes its list of tags;
/// a list that the encoder refuses makes the request malformed. The caller
/// runs the statement and `get_favorite` for the new identifier as one
/// atomic unit, and answers with the row read back.
pub fn create_favorite(payload: &CreateFavorite, created_at: &str) -> (r: Result<
    Statement,
    AppError,
>)
    ensures
        match tags_json(payload.tags.deep_view()) {
            Some(tags_text) => r matches Ok(s) && s@.sql == INSERT_FAVORITE@ && s@.params
                == insert_values(payload, tags_text, created_at@),
            None => r matches Err(e) && e is BadRequest,
        },
{
    match encode_tags(&payload.tags) {
        Ok(tags_text) => Ok(insert_favorite(payload, tags_text.as_str(), created_at)),
        Err(e) => Err(e),
    }
}

/// The query for one favorite, with the name of its category.
pub fn get_favorite(id: i64) -> (s: Statement)
    ensures
        s@.sql == SELECT_FAVORITE@,
        s@.params == seq![SqlValueView::Integer(id as int)],
{
    Statement::with_one(SELECT_FAVORITE, SqlValue::Integer(id))
}

/// The statement that replaces what the favorite `id` holds, its tags
/// already encoded. It names neither the identifier nor the time of creation
/// among the columns it sets.
pub fn replace_favorite(id: i64, payload: &UpdateFavorite, tags_text: &str) -> (s: Statement)
    ensures
        s@.sql == UPDATE_FAVORITE@,
        s@.params == update_values(id, payload, tags_text@),
{
    let mut params: Vec<SqlValue> = Vec::new();
    params.push(SqlValue::optional(payload.category_id));
    params.push(SqlValue::text(payload.text.as_str()));
    params.push(SqlValue::text(payload.url.as_str()));
    params.push(SqlValue::text(tags_text));
    params.push(SqlValue::Integer(id));
    assert(params.deep_view() =~= update_values(id, payload, tags_text@));
    Statement::new(UPDATE_FAVORITE, params)
}

/// Plans the update of the favorite `id`: the statement that replaces what it
/// holds, with the tags encoded as JSON text.
///
/// The request succeeds exactly where the encoder takes its list of tags;
/// a list that the encoder refuses makes the request malformed, whatever
/// rows there are. Whether the favorite exists shows in the number of rows
/// that the statement touches: see `require_affected`.
pub fn update_favorite(id: i64, payload: &UpdateFavorite) -> (r: Result<Statement, AppError>)
    ensures
        match tags_json(payload.tags.deep_view()) {
            Some(tags_text) => r matches Ok(s) && s@.sql == UPDATE_FAVORITE@ && s@.params
                == update_values(id, payload, tags_text),
            None => r matches Err(e) && e is BadRequest,
        },
{
    match encode_tags(&payload.tags) {
        Ok(tags_text) => Ok(replace_favorite(id, payload, tags_text.as_str())),
        Err(e) => Err(e),
    }
}

/// The statement that removes the favorite `id` for good. Whether it existed
/// shows in the number of rows that the statement touches: see
/// `require_affected`.
pub fn delete_favorite(id: i64) -> (s: Statement)
    ensures
        s@.sql == DELETE_FAVORITE@,
        s@.params == seq![SqlValueView::Integer(id as int)],
{
    Statement::with_one(DELETE_FAVORITE, SqlValue::Integer(id))
}

} // verus!
