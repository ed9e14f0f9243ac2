//! Bookmarks, with the statements of the library run against an SQLite store
//! in memory.

use favorites::bookmark::{
    bookmark_detail, bookmark_tags, create_bookmark, delete_bookmark, get_bookmark,
    get_bookmark_detail, link_tags, list_bookmarks, list_response, unlink_tags, update_bookmark,
};
use favorites::error::{require_affected, AppError, STATUS_NOT_FOUND, STATUS_OK};
use favorites::models::{
    Bookmark, BookmarkDetail, BookmarkQuery, BookmarkRow, PaginatedBookmarks, Tag,
};
use favorites::pagination::PageWindow;
use favorites::sql::{SqlValue, Statement};
use rusqlite::types::Value;
use rusqlite::{params_from_iter, Connection};

fn values(statement: &Statement) -> Vec<Value> {
    statement
        .params
        .iter()
        .map(|p| match p {
            SqlValue::Null => Value::Null,
            SqlValue::Integer(n) => Value::Integer(*n),
            SqlValue::Text(s) => Value::Text(s.clone()),
        })
        .collect()
}

fn execute(conn: &Connection, statement: &Statement) -> u64 {
    conn.execute(&statement.sql, params_from_iter(values(statement))).unwrap() as u64
}

fn rows(conn: &Connection, statement: &Statement) -> Vec<BookmarkRow> {
    let mut prepared = conn.prepare(&statement.sql).unwrap();
    let found = prepared
        .query_map(params_from_iter(values(statement)), |row| {
            Ok(BookmarkRow {
                id: row.get(0)?,
                content: row.get(1)?,
                url: row.get(2)?,
                category_id: row.get(3)?,
                category_name: row.get(4)?,
                created_at: row.get(5)?,
            })
        })
        .unwrap();
    found.map(|r| r.unwrap()).collect()
}

fn tags(conn: &Connection, bookmark_id: i64) -> Vec<Tag> {
    let statement = bookmark_tags(bookmark_id);
    let mut prepared = conn.prepare(&statement.sql).unwrap();
    let found = prepared
        .query_map(params_from_iter(values(&statement)), |row| {
            Ok(Tag { id: Some(row.get(0)?), name: row.get(1)? })
        })
        .unwrap();
    found.map(|r| r.unwrap()).collect()
}

/// A store with one category, one tag and one bookmark that carries the tag.
fn init_test() -> Connection {
    let conn = Connection::open_in_memory().unwrap();
    conn.execute_batch(
        "CREATE TABLE categories (id INTEGER PRIMARY KEY, name TEXT NOT NULL UNIQUE);
         CREATE TABLE tags (id INTEGER PRIMARY KEY, name TEXT NOT NULL UNIQUE);
         CREATE TABLE bookmarks (
             id INTEGER PRIMARY KEY,
             content TEXT NOT NULL,
             url TEXT NOT NULL,
             category_id INTEGER,
             created_at TEXT NOT NULL DEFAULT CURRENT_TIMESTAMP
         );
         CREATE TABLE bookmark_tags (bookmark_id INTEGER NOT NULL, tag_id INTEGER NOT NULL);
         INSERT INTO categories (id, name) VALUES (1, 'Test Category');
         INSERT INTO tags (id, name) VALUES (1, 'Test Tag');
         INSERT INTO tags (id, name) VALUES (2, 'Second Tag');
         INSERT INTO bookmarks (id, content, url, category_id) VALUES (1, 'Test Content', 'http://test.com', 1);
         INSERT INTO bookmark_tags (bookmark_id, tag_id) VALUES (1, 1);",
    )
    .unwrap();
    conn
}

fn query() -> BookmarkQuery {
    BookmarkQuery { page: None, per_page: None, search: None, category_id: None, tag_id: None }
}

fn list(conn: &Connection, query: &BookmarkQuery) -> PaginatedBookmarks {
    let plan = list_bookmarks(query);
    let total: u32 = conn
        .query_row(&plan.count.sql, params_from_iter(values(&plan.count)), |row| row.get(0))
        .unwrap();
    let bookmarks = rows(conn, &plan.page)
        .into_iter()
        .map(|row| {
            let found = tags(conn, row.id);
            bookmark_detail(row, found)
        })
        .collect();
    list_response(query, total, bookmarks)
}

fn get(conn: &Connection, id: i64) -> Result<BookmarkDetail, AppError> {
    let row = rows(conn, &get_bookmark(id)).pop();
    get_bookmark_detail(row, tags(conn, id))
}

fn create(conn: &Connection, bookmark: &Bookmark) -> Result<BookmarkDetail, AppError> {
    conn.execute_batch("BEGIN").unwrap();
    execute(conn, &create_bookmark(bookmark));
    let id = conn.last_insert_rowid();
    for link in link_tags(id, &bookmark.tag_ids).iter() {
        execute(conn, link);
    }
    conn.execute_batch("COMMIT").unwrap();
    get(conn, id)
}

fn update(conn: &Connection, id: i64, bookmark: &Bookmark) -> Result<BookmarkDetail, AppError> {
    conn.execute_batch("BEGIN").unwrap();
    if let Err(e) = require_affected(execute(conn, &update_bookmark(id, bookmark))) {
        conn.execute_batch("ROLLBACK").unwrap();
        return Err(e);
    }
    execute(conn, &unlink_tags(id));
    for link in link_tags(id, &bookmark.tag_ids).iter() {
        execute(conn, link);
    }
    conn.execute_batch("COMMIT").unwrap();
    get(conn, id)
}

fn delete(conn: &Connection, id: i64) -> Result<(), AppError> {
    conn.execute_batch("BEGIN").unwrap();
    execute(conn, &unlink_tags(id));
    match require_affected(execute(conn, &delete_bookmark(id))) {
        Ok(()) => {
            conn.execute_batch("COMMIT").unwrap();
            Ok(())
        }
        Err(e) => {
            conn.execute_batch("ROLLBACK").unwrap();
            Err(e)
        }
    }
}

fn status<T>(result: &Result<T, AppError>) -> u16 {
    match result {
        Ok(_) => STATUS_OK,
        Err(e) => e.clone().into_response().0,
    }
}

#[test]
fn test_list_bookmarks() {
    let conn = init_test();
    let result = list(&conn, &query());
    assert!(!result.bookmarks.is_empty());
    assert_eq!(result.bookmarks[0].content, "Test Content");
    assert_eq!(result.bookmarks[0].url, "http://test.com");
    assert!(!result.bookmarks[0].tags.is_empty());
    assert_eq!(result.bookmarks[0].tags[0].name, "Test Tag");
    assert_eq!(result.total, 1);
}

#[test]
fn test_create_bookmark() {
    let conn = init_test();
    let bookmark = Bookmark {
        id: None,
        content: "New Bookmark".to_string(),
        url: "http://example.com".to_string(),
        category_id: Some(1),
        tag_ids: vec![1],
        created_at: None,
    };
    let result = create(&conn, &bookmark);
    assert_eq!(status(&result), STATUS_OK);
    let created = result.unwrap();
    assert_eq!(created.content, "New Bookmark");
    assert_eq!(created.url, "http://example.com");
    assert_eq!(created.category_id, Some(1));
    assert!(!created.tags.is_empty());
    assert_eq!(created.category_name, Some("Test Category".to_string()));
}

#[test]
fn test_search_bookmarks() {
    let conn = init_test();
    let result = list(&conn, &BookmarkQuery { search: Some("Test".to_string()), ..query() });
    assert!(!result.bookmarks.is_empty());
    assert!(result.bookmarks[0].content.contains("Test"));
    let none = list(&conn, &BookmarkQuery { search: Some("nomatch".to_string()), ..query() });
    assert_eq!(none.total, 0);
    assert!(none.bookmarks.is_empty());
}

#[test]
fn test_filter_by_category() {
    let conn = init_test();
    let result = list(&conn, &BookmarkQuery { category_id: Some(1), ..query() });
    assert!(!result.bookmarks.is_empty());
    assert_eq!(result.bookmarks[0].category_id, Some(1));
    let none = list(&conn, &BookmarkQuery { category_id: Some(2), ..query() });
    assert_eq!(none.total, 0);
}

#[test]
fn test_filter_by_tag() {
    let conn = init_test();
    let result = list(&conn, &BookmarkQuery { tag_id: Some(1), ..query() });
    assert!(!result.bookmarks.is_empty());
    assert_eq!(result.bookmarks[0].tags[0].id, Some(1));
    let none = list(&conn, &BookmarkQuery { tag_id: Some(2), ..query() });
    assert_eq!(none.total, 0);
}

#[test]
fn test_update_bookmark() {
    let conn = init_test();
    let bookmark = Bookmark {
        id: Some(1),
        content: "Updated Content".to_string(),
        url: "http://updated.com".to_string(),
        category_id: Some(1),
        tag_ids: vec![1],
        created_at: None,
    };
    let result = update(&conn, 1, &bookmark);
    assert_eq!(status(&result), STATUS_OK);
    let updated = result.unwrap();
    assert_eq!(updated.content, "Updated Content");
    assert_eq!(updated.url, "http://updated.com");
    assert_eq!(status(&update(&conn, 999999, &bookmark)), STATUS_NOT_FOUND);
}

#[test]
fn test_delete_bookmark() {
    let conn = init_test();
    assert_eq!(status(&delete(&conn, 1)), STATUS_OK);
    assert_eq!(status(&get(&conn, 1)), STATUS_NOT_FOUND);
    assert_eq!(delete(&conn, 1), Err(AppError::NotFound));
}

#[test]
fn test_pagination() {
    let conn = init_test();
    let result = list(&conn, &BookmarkQuery { page: Some(1), per_page: Some(5), ..query() });
    assert_eq!(result.page, 1);
    assert_eq!(result.per_page, 5);
    assert_eq!(result.bookmarks.len(), 1);
}

#[test]
fn bookmark_with_two_matching_tags_counts_once() {
    let conn = init_test();
    execute(&conn, &link_tags(1, &vec![2])[0]);
    let result = list(&conn, &query());
    assert_eq!(result.total, 1);
    assert_eq!(result.bookmarks.len(), 1);
    assert_eq!(
        result.bookmarks[0].tags,
        vec![
            Tag { id: Some(1), name: "Test Tag".to_string() },
            Tag { id: Some(2), name: "Second Tag".to_string() }
        ]
    );
}

#[test]
fn update_replaces_the_tags() {
    let conn = init_test();
    let bookmark = Bookmark {
        id: None,
        content: "c".to_string(),
        url: "u".to_string(),
        category_id: None,
        tag_ids: vec![2],
        created_at: None,
    };
    let updated = update(&conn, 1, &bookmark).unwrap();
    assert_eq!(updated.tags, vec![Tag { id: Some(2), name: "Second Tag".to_string() }]);
    assert_eq!(updated.category_id, None);
    assert_eq!(updated.category_name, None);
}

#[test]
fn listing_plan_of_bookmarks() {
    let plan = list_bookmarks(&BookmarkQuery {
        page: Some(2),
        per_page: Some(5),
        search: Some("x".to_string()),
        category_id: Some(3),
        tag_id: Some(4),
    });
    assert_eq!(plan.window, PageWindow { page: 2, per_page: 5, offset: 5 });
    assert_eq!(
        plan.count,
        Statement {
            sql: "SELECT COUNT(DISTINCT b.id) FROM bookmarks b LEFT JOIN bookmark_tags bt ON b.id = bt.bookmark_id WHERE b.content LIKE ? ESCAPE '\\' AND b.category_id = ? AND bt.tag_id = ?".to_string(),
            params: vec![SqlValue::Text("%x%".to_string()), SqlValue::Integer(3), SqlValue::Integer(4)],
        }
    );
    assert_eq!(
        plan.page,
        Statement {
            sql: "SELECT DISTINCT b.id, b.content, b.url, b.category_id, c.name as category_name, b.created_at FROM bookmarks b LEFT JOIN categories c ON b.category_id = c.id LEFT JOIN bookmark_tags bt ON b.id = bt.bookmark_id WHERE b.content LIKE ? ESCAPE '\\' AND b.category_id = ? AND bt.tag_id = ? ORDER BY b.created_at DESC, b.id DESC LIMIT ? OFFSET ?".to_string(),
            params: vec![
                SqlValue::Text("%x%".to_string()),
                SqlValue::Integer(3),
                SqlValue::Integer(4),
                SqlValue::Integer(5),
                SqlValue::Integer(5)
            ],
        }
    );
}

#[test]
fn page_and_size_of_a_response_are_those_the_listing_was_made_with() {
    let r = list_response(&query(), 7, vec![]);
    assert_eq!(r, PaginatedBookmarks { bookmarks: vec![], total: 7, page: 1, per_page: 10 });
    let r = list_response(&BookmarkQuery { page: Some(0), per_page: Some(500), ..query() }, 0, vec![]);
    assert_eq!((r.page, r.per_page), (1, 100));
    let r = list_response(
        &BookmarkQuery { page: Some(u32::MAX), per_page: Some(0), ..query() },
        0,
        vec![],
    );
    assert_eq!((r.page, r.per_page), (u32::MAX, 1));
}

#[test]
fn tags_are_linked_one_statement_each_in_order() {
    assert_eq!(link_tags(9, &vec![]), vec![]);
    assert_eq!(
        link_tags(9, &vec![3, 1, 3]),
        vec![
            Statement {
                sql: "INSERT INTO bookmark_tags (bookmark_id, tag_id) VALUES (?, ?)".to_string(),
                params: vec![SqlValue::Integer(9), SqlValue::Integer(3)],
            },
            Statement {
                sql: "INSERT INTO bookmark_tags (bookmark_id, tag_id) VALUES (?, ?)".to_string(),
                params: vec![SqlValue::Integer(9), SqlValue::Integer(1)],
            },
            Statement {
                sql: "INSERT INTO bookmark_tags (bookmark_id, tag_id) VALUES (?, ?)".to_string(),
                params: vec![SqlValue::Integer(9), SqlValue::Integer(3)],
            },
        ]
    );
}

#[test]
fn detail_is_the_row_with_its_tags() {
    let row = BookmarkRow {
        id: 4,
        content: "c".to_string(),
        url: "u".to_string(),
        category_id: Some(2),
        category_name: Some("n".to_string()),
        created_at: "2024-03-14T12:00:00".to_string(),
    };
    let found = vec![Tag { id: Some(1), name: "Rust".to_string() }];
    let expected = BookmarkDetail {
        id: 4,
        content: "c".to_string(),
        url: "u".to_string(),
        category_id: Some(2),
        category_name: Some("n".to_string()),
        tags: found.clone(),
        created_at: "2024-03-14T12:00:00".to_string(),
    };
    assert_eq!(get_bookmark_detail(Some(row), found.clone()), Ok(expected));
    assert_eq!(get_bookmark_detail(None, found), Err(AppError::NotFound));
}
