//! The core of a favorites service: saved links with a description, an
//! optional category and tags, kept in a relational store.
//!
//! The crate decides; it does not talk to the store. For every request it
//! says which statements to run, with which values bound, and what the
//! answers of the store mean. The caller runs the statements and hands the
//! answers back.
//!
//! - `sql`: statements, as SQL text with placeholders and bound values.
//! - `predicate`: the filters of a listing as a `WHERE` fragment.
//! - `pagination`: page number and page size as `LIMIT` and `OFFSET`.
//! - `listing`: the count query and the page query of a listing, built from
//!   one predicate.
//! - `favorite`, `category`, `tag`: the requests on favorites and on the two
//!   catalogs.
//! - `bookmark`, `models`: the same for bookmarks, whose tags are rows of a
//!   join table.
//! - `migration`: bringing the tables of a store up to date.
//! - `error`: failures, and the responses that carry them.
//! - `json`, `decimal`: tags as JSON text, integers as decimal text.
//! - `config`: the settings of the server.

pub mod bookmark;
pub mod category;
pub mod config;
pub mod decimal;
pub mod error;
pub mod favorite;
pub mod json;
pub mod listing;
pub mod migration;
pub mod models;
pub mod pagination;
pub mod predicate;
pub mod sql;
pub mod tag;
