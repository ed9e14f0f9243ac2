//! The catalog of tags, kept in the table `tags`.
//!
//! The catalog and the tags that a favorite carries are not tied to each
//! other: a favorite holds its tags as text of its own, and removing a tag
//! from the catalog takes it from no favorite.

use vstd::prelude::*;
use crate::predicate::{contains_pattern, contains_pattern_of};
use crate::sql::{SqlValue, SqlValueView, Statement};

verus! {

/// A tag of the catalog.
#[derive(Debug, Clone, PartialEq, Eq)]
pub struct Tag {
    pub id: i64,
    pub name: String,
}

/// The request to add or rename a tag.
#[derive(Debug, Clone, PartialEq, Eq)]
pub struct CreateTag {
    pub name: String,
}

/// A favorite found by one of its tags.
#[derive(Debug, Clone, PartialEq, Eq)]
pub struct TaggedFavorite {
    pub id: i64,
    /// The name of the category, or the label for favorites without one.
    pub category_name: String,
    pub text: String,
    pub url: String,
    /// The tags, as JSON text.
    pub tags: String,
}

pub const SELECT_TAGS: &'static str = "SELECT DISTINCT id, name FROM tags";

pub const INSERT_TAG: &'static str = "INSERT INTO tags (name) VALUES (?)";

pub const SELECT_TAG: &'static str = "SELECT id, name FROM tags WHERE id = ?";

pub const UPDATE_TAG: &'static str = "UPDATE tags SET name = ? WHERE id = ?";

pub const DELETE_TAG: &'static str = "DELETE FROM tags WHERE id = ?";

pub const SELECT_FAVORITES_BY_TAG: &'static str =
    "SELECT f.id, COALESCE(c.name, '未分类') as category_name, f.text, f.url, f.tags FROM favorites f LEFT JOIN categories c ON f.category_id = c.id WHERE f.tags LIKE ? ESCAPE '\\' ORDER BY f.id DESC";

/// The query for all tags.
pub fn list_tags() -> (s: Statement)
    ensures
        s@.sql == SELECT_TAGS@,
        s@.params == Seq::<SqlValueView>::empty(),
{
    Statement::plain(SELECT_TAGS)
}

/// The statement that adds a tag. The store assigns its identifier.
pub fn create_tag(tag: &CreateTag) -> (s: Statement)
    ensures
        s@.sql == INSERT_TAG@,
        s@.params == seq![SqlValueView::Text(tag.name@)],
{
    Statement::with_one(INSERT_TAG, SqlValue::text(tag.name.as_str()))
}

/// The query for one tag.
pub fn get_tag(id: i64) -> (s: Statement)
    ensures
        s@.sql == SELECT_TAG@,
        s@.params == seq![SqlValueView::Integer(id as int)],
{
    Statement::with_one(SELECT_TAG, SqlValue::Integer(id))
}

/// The statement that renames the tag `id`.
pub fn update_tag(id: i64, tag: &CreateTag) -> (s: Statement)
    ensures
        s@.sql == UPDATE_TAG@,
        s@.params == seq![SqlValueView::Text(tag.name@), SqlValueView::Integer(id as int)],
{
    Statement::with_two(UPDATE_TAG, SqlValue::text(tag.name.as_str()), SqlValue::Integer(id))
}

/// The statement that removes the tag `id` from the catalog.
pub fn delete_tag(id: i64) -> (s: Statement)
    ensures
        s@.sql == DELETE_TAG@,
        s@.params == seq![SqlValueView::Integer(id as int)],
{
    Statement::with_one(DELETE_TAG, SqlValue::Integer(id))
}

/// The query for the favorites whose tags hold `tag_name`, latest
/// identifier first. The name is looked for anywhere in the JSON text of the
/// tags, as it stands: the match is textual, and a wildcard in the name
/// finds a wildcard only.
pub fn get_favorites_by_tag(tag_name: &str) -> (s: Statement)
    ensures
        s@.sql == SELECT_FAVORITES_BY_TAG@,
        s@.params == seq![SqlValueView::Text(contains_pattern(tag_name@))],
{
    Statement::with_one(SELECT_FAVORITES_BY_TAG, SqlValue::Text(contains_pattern_of(tag_name)))
}

} // verus!
