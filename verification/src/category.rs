//! The catalog of categories, kept in the table `categories`. A favorite
//! belongs to one category at most.

use vstd::prelude::*;
use crate::sql::{SqlValue, SqlValueView, Statement};

verus! {

/// A category of the catalog.
#[derive(Debug, Clone, PartialEq, Eq)]
pub struct Category {
    pub id: i64,
    pub name: String,
}

/// The request to add a category.
#[derive(Debug, Clone, PartialEq, Eq)]
pub struct CreateCategory {
    pub name: String,
}

pub const SELECT_CATEGORIES: &'static str = "SELECT id, name FROM categories";

pub const INSERT_CATEGORY: &'static str = "INSERT INTO categories (name) VALUES (?)";

pub const SELECT_CATEGORY: &'static str = "SELECT id, name FROM categories WHERE id = ?";

pub const UPDATE_CATEGORY: &'static str = "UPDATE categories SET name = ? WHERE id = ?";

pub const DELETE_CATEGORY: &'static str = "DELETE FROM categories WHERE id = ?";

/// The query for all categories.
pub fn list_categories() -> (s: Statement)
    ensures
        s@.sql == SELECT_CATEGORIES@,
        s@.params == Seq::<SqlValueView>::empty(),
{
    Statement::plain(SELECT_CATEGORIES)
}

/// The statement that adds a category. The store assigns its identifier.
pub fn create_category(category: &CreateCategory) -> (s: Statement)
    ensures
        s@.sql == INSERT_CATEGORY@,
        s@.params == seq![SqlValueView::Text(category.name@)],
{
    Statement::with_one(INSERT_CATEGORY, SqlValue::text(category.name.as_str()))
}

/// The query for one category.
pub fn get_category(id: i64) -> (s: Statement)
    ensures
        s@.sql == SELECT_CATEGORY@,
        s@.params == seq![SqlValueView::Integer(id as int)],
{
    Statement::with_one(SELECT_CATEGORY, SqlValue::Integer(id))
}

/// The statement that renames the category `id`. The identifier in
/// `category` plays no part: the row is the one that the request names.
pub fn update_category(id: i64, category: &Category) -> (s: Statement)
    ensures
        s@.sql == UPDATE_CATEGORY@,
        s@.params == seq![SqlValueView::Text(category.name@), SqlValueView::Integer(id as int)],
{
    Statement::with_two(
        UPDATE_CATEGORY,
        SqlValue::text(category.name.as_str()),
        SqlValue::Integer(id),
    )
}

/// The statement that removes the category `id`. A favorite that still
/// names it afterwards shows the label for favorites without category.
pub fn delete_category(id: i64) -> (s: Statement)
    ensures
        s@.sql == DELETE_CATEGORY@,
        s@.params == seq![SqlValueView::Integer(id as int)],
{
    Statement::with_one(DELETE_CATEGORY, SqlValue::Integer(id))
}

} // verus!
