use favorites::error::AppError;
use favorites::favorite::{
    create_favorite, delete_favorite, get_favorite, insert_favorite, list_favorites, list_response,
    replace_favorite, update_favorite, CreateFavorite, Favorite, FavoriteResponse,
    ListFavoriteQuery, UpdateFavorite,
};
use favorites::json::encode_tags;
use favorites::pagination::PageWindow;
use favorites::sql::{SqlValue, Statement};

const SELECT: &str = "SELECT f.id, f.category_id, COALESCE(c.name, '未分类') as category_name, f.text, f.url, f.tags, f.created_at FROM favorites f LEFT JOIN categories c ON f.category_id = c.id";

fn text(s: &str) -> SqlValue {
    SqlValue::Text(s.to_string())
}

fn statement(sql: &str, params: Vec<SqlValue>) -> Statement {
    Statement { sql: sql.to_string(), params }
}

fn favorite(id: i64) -> Favorite {
    Favorite {
        id,
        category_id: None,
        category_name: "未分类".to_string(),
        text: format!("favorite {}", id),
        url: "http://x.test".to_string(),
        tags: "[]".to_string(),
        created_at: "2024-03-14 12:00:00".to_string(),
    }
}

#[test]
fn listing_without_parameters() {
    let plan = list_favorites(&ListFavoriteQuery {
        page: None,
        per_page: None,
        search: None,
        category_id: None,
        tag_id: None,
    });
    assert_eq!(plan.window, PageWindow { page: 1, per_page: 10, offset: 0 });
    assert_eq!(plan.count, statement("SELECT COUNT(*) FROM favorites f", vec![]));
    assert_eq!(
        plan.page,
        statement(
            &format!("{} ORDER BY f.created_at DESC, f.id DESC LIMIT ? OFFSET ?", SELECT),
            vec![SqlValue::Integer(10), SqlValue::Integer(0)]
        )
    );
}

#[test]
fn listing_with_every_parameter() {
    let plan = list_favorites(&ListFavoriteQuery {
        page: Some(3),
        per_page: Some(5),
        search: Some("Rust".to_string()),
        category_id: Some(1),
        tag_id: Some(2),
    });
    assert_eq!(plan.window, PageWindow { page: 3, per_page: 5, offset: 10 });
    assert_eq!(
        plan.count,
        statement(
            "SELECT COUNT(*) FROM favorites f WHERE f.text LIKE ? ESCAPE '\\' AND f.category_id = ? AND f.tags LIKE ?",
            vec![text("%Rust%"), SqlValue::Integer(1), text("%\"2\":%")]
        )
    );
    assert_eq!(
        plan.page,
        statement(
            &format!(
                "{} WHERE f.text LIKE ? ESCAPE '\\' AND f.category_id = ? AND f.tags LIKE ? ORDER BY f.created_at DESC, f.id DESC LIMIT ? OFFSET ?",
                SELECT
            ),
            vec![
                text("%Rust%"),
                SqlValue::Integer(1),
                text("%\"2\":%"),
                SqlValue::Integer(5),
                SqlValue::Integer(10)
            ]
        )
    );
}

#[test]
fn count_and_page_share_their_filter() {
    let searches = [None, Some("".to_string()), Some("a b".to_string())];
    let numbers = [None, Some(4)];
    for search in searches.iter() {
        for category_id in numbers.iter() {
            for tag_id in numbers.iter() {
                let plan = list_favorites(&ListFavoriteQuery {
                    page: Some(2),
                    per_page: Some(7),
                    search: search.clone(),
                    category_id: *category_id,
                    tag_id: *tag_id,
                });
                let clause = plan.count.sql.strip_prefix("SELECT COUNT(*) FROM favorites f").unwrap();
                let rest = plan.page.sql.strip_prefix(SELECT).unwrap();
                assert_eq!(
                    rest.strip_suffix(" ORDER BY f.created_at DESC, f.id DESC LIMIT ? OFFSET ?"),
                    Some(clause)
                );
                let shared = plan.count.params.len();
                assert_eq!(plan.page.params[..shared], plan.count.params[..]);
                assert_eq!(
                    plan.page.params[shared..],
                    [SqlValue::Integer(7), SqlValue::Integer(7)]
                );
            }
        }
    }
}

#[test]
fn response_carries_the_count_and_the_rows() {
    let window = PageWindow { page: 1, per_page: 3, offset: 0 };
    let r = list_response(window, 42, vec![favorite(1), favorite(2)]);
    assert_eq!(r, FavoriteResponse { total: 42, items: vec![favorite(1), favorite(2)] });
    let r = list_response(window, 3, vec![favorite(1), favorite(2), favorite(3)]);
    assert_eq!(r.items.len(), 3);
    let r = list_response(window, 0, vec![]);
    assert_eq!(r, FavoriteResponse { total: 0, items: vec![] });
}

#[test]
fn response_never_holds_more_than_a_page() {
    let window = PageWindow { page: 1, per_page: 2, offset: 0 };
    let r = list_response(window, 9, vec![favorite(1), favorite(2), favorite(3)]);
    assert_eq!(r, FavoriteResponse { total: 9, items: vec![favorite(1), favorite(2)] });
    let none = PageWindow { page: 1, per_page: -1, offset: 0 };
    assert_eq!(list_response(none, 9, vec![favorite(1)]).items, vec![]);
}

#[test]
fn tags_are_stored_as_a_json_array_in_their_order() {
    assert_eq!(encode_tags(&vec![]), Ok("[]".to_string()));
    assert_eq!(encode_tags(&vec!["a".to_string(), "b".to_string()]), Ok("[\"a\",\"b\"]".to_string()));
    assert_eq!(encode_tags(&vec!["b".to_string(), "a".to_string()]), Ok("[\"b\",\"a\"]".to_string()));
    assert_eq!(
        encode_tags(&vec!["say \"hi\"".to_string(), "back\\slash".to_string(), "收藏".to_string()]),
        Ok("[\"say \\\"hi\\\"\",\"back\\\\slash\",\"收藏\"]".to_string())
    );
}

#[test]
fn creation_binds_every_field_and_the_time() {
    let payload = CreateFavorite {
        category_id: Some(1),
        text: "Rust guide".to_string(),
        url: "http://x.test".to_string(),
        tags: vec!["rust".to_string(), "guide".to_string()],
    };
    assert_eq!(
        create_favorite(&payload, "2024-03-14 12:00:00"),
        Ok(statement(
            "INSERT INTO favorites (category_id, text, url, tags, created_at) VALUES (?, ?, ?, ?, ?)",
            vec![
                SqlValue::Integer(1),
                text("Rust guide"),
                text("http://x.test"),
                text("[\"rust\",\"guide\"]"),
                text("2024-03-14 12:00:00")
            ]
        ))
    );
    let bare = CreateFavorite { category_id: None, text: String::new(), url: String::new(), tags: vec![] };
    assert_eq!(
        create_favorite(&bare, "now").unwrap().params,
        vec![SqlValue::Null, text(""), text(""), text("[]"), text("now")]
    );
    assert_eq!(
        insert_favorite(&bare, "[\"x\"]", "then").params,
        vec![SqlValue::Null, text(""), text(""), text("[\"x\"]"), text("then")]
    );
}

#[test]
fn update_binds_the_fields_and_then_the_row() {
    let payload = UpdateFavorite {
        category_id: None,
        text: "t".to_string(),
        url: "u".to_string(),
        tags: vec!["a".to_string()],
    };
    let expected = statement(
        "UPDATE favorites SET category_id = ?, text = ?, url = ?, tags = ? WHERE id = ?",
        vec![SqlValue::Null, text("t"), text("u"), text("[\"a\"]"), SqlValue::Integer(7)],
    );
    assert_eq!(update_favorite(7, &payload), Ok::<Statement, AppError>(expected.clone()));
    assert_eq!(replace_favorite(7, &payload, "[\"a\"]"), expected);
    assert!(!expected.sql.contains("created_at"));
    assert!(!expected.sql.contains("SET id"));
}

#[test]
fn one_favorite_is_read_and_removed_by_its_identifier() {
    assert_eq!(
        get_favorite(5),
        statement(&format!("{} WHERE f.id = ?", SELECT), vec![SqlValue::Integer(5)])
    );
    assert_eq!(
        delete_favorite(-5),
        statement("DELETE FROM favorites WHERE id = ?", vec![SqlValue::Integer(-5)])
    );
}

#[test]
fn parameters_are_read_from_the_texts_of_a_request() {
    let s = |t: &str| Some(t.to_string());
    assert_eq!(
        ListFavoriteQuery::from_raw(s("2"), s("5"), s("Rust"), s("1"), s("-3")),
        ListFavoriteQuery {
            page: Some(2),
            per_page: Some(5),
            search: s("Rust"),
            category_id: Some(1),
            tag_id: Some(-3)
        }
    );
    assert_eq!(
        ListFavoriteQuery::from_raw(None, None, None, None, None),
        ListFavoriteQuery { page: None, per_page: None, search: None, category_id: None, tag_id: None }
    );
    assert_eq!(
        ListFavoriteQuery::from_raw(s(""), s(""), s(""), s(""), s("")),
        ListFavoriteQuery { page: None, per_page: None, search: None, category_id: None, tag_id: None }
    );
    assert_eq!(
        ListFavoriteQuery::from_raw(s("two"), s("5x"), s(" "), s("1.0"), s("99999999999999999999")),
        ListFavoriteQuery { page: None, per_page: None, search: s(" "), category_id: None, tag_id: None }
    );
}
