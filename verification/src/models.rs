//! Bookmarks: saved links whose tags are rows of a join table, and the
//! catalog entries they point to.

use vstd::prelude::*;

verus! {

/// A category of the catalog. A category that is not stored yet has no
/// identifier.
#[derive(Debug, Clone, PartialEq, Eq)]
pub struct Category {
    pub id: Option<i64>,
    pub name: String,
}

/// A tag of the catalog. A tag that is not stored yet has no identifier.
#[derive(Debug, Clone, PartialEq, Eq)]
pub struct Tag {
    pub id: Option<i64>,
    pub name: String,
}

/// A bookmark as a request sends it: what it holds and the identifiers of
/// its tags.
#[derive(Debug, Clone, PartialEq, Eq)]
pub struct Bookmark {
    pub id: Option<i64>,
    pub content: String,
    pub url: String,
    pub category_id: Option<i64>,
    pub tag_ids: Vec<i64>,
    pub created_at: Option<String>,
}

/// The parameters of a listing of bookmarks.
#[derive(Debug, Clone, PartialEq, Eq)]
pub struct BookmarkQuery {
    /// The page, counted from 1.
    pub page: Option<u32>,
    /// The number of bookmarks on a page.
    pub per_page: Option<u32>,
    /// Text that the content must contain.
    pub search: Option<String>,
    /// Category that the bookmark must belong to.
    pub category_id: Option<i64>,
    /// Tag that the bookmark must carry.
    pub tag_id: Option<i64>,
}

/// One page of a listing of bookmarks.
#[derive(Debug, Clone, PartialEq, Eq)]
pub struct PaginatedBookmarks {
    /// The bookmarks on this page.
    pub bookmarks: Vec<BookmarkDetail>,
    /// The number of bookmarks that match the filters, on all pages.
    pub total: u32,
    /// The page, counted from 1.
    pub page: u32,
    /// The number of bookmarks on a full page.
    pub per_page: u32,
}

/// A bookmark as a response shows it, with the name of its category and its
/// tags.
#[derive(Debug, Clone, PartialEq, Eq)]
pub struct BookmarkDetail {
    pub id: i64,
    pub content: String,
    pub url: String,
    pub category_id: Option<i64>,
    pub category_name: Option<String>,
    pub tags: Vec<Tag>,
    pub created_at: String,
}

/// A bookmark as the store returns it, before its tags are fetched.
#[derive(Debug, Clone, PartialEq, Eq)]
pub struct BookmarkRow {
    pub id: i64,
    pub content: String,
    pub url: String,
    pub category_id: Option<i64>,
    pub category_name: Option<String>,
    pub created_at: String,
}

} // verus!
