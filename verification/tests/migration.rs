use favorites::migration::{
    classify_favorites, migration_statements, run_migrations, step_statements, FavoritesTable, MigrationStep,
    CREATE_LEDGER, CURRENT_VERSION, SELECT_VERSION,
};
use favorites::sql::{SqlValue, Statement};

fn columns(names: &[&str]) -> Vec<String> {
    names.iter().map(|n| n.to_string()).collect()
}

fn plain(sql: &str) -> Statement {
    Statement { sql: sql.to_string(), params: vec![] }
}

#[test]
fn table_is_judged_by_its_columns() {
    assert_eq!(classify_favorites(&columns(&[])), FavoritesTable::Absent);
    assert_eq!(
        classify_favorites(&columns(&["id", "text", "url", "category_id", "tags"])),
        FavoritesTable::Legacy
    );
    assert_eq!(
        classify_favorites(&columns(&["id", "text", "url", "category_id", "tags", "created_at"])),
        FavoritesTable::Current
    );
    assert_eq!(classify_favorites(&columns(&["created_at"])), FavoritesTable::Current);
    assert_eq!(classify_favorites(&columns(&["created_at", "id"])), FavoritesTable::Current);
    assert_eq!(classify_favorites(&columns(&["created_at_", "Created_at"])), FavoritesTable::Legacy);
}

#[test]
fn new_store_gets_every_table_and_the_version() {
    assert_eq!(
        run_migrations(0, FavoritesTable::Absent),
        vec![
            MigrationStep::CreateCatalogs,
            MigrationStep::CreateFavorites,
            MigrationStep::RecordVersion
        ]
    );
    assert_eq!(
        run_migrations(0, FavoritesTable::Current),
        vec![
            MigrationStep::CreateCatalogs,
            MigrationStep::CreateFavorites,
            MigrationStep::RecordVersion
        ]
    );
    assert_eq!(run_migrations(-1, FavoritesTable::Absent).len(), 3);
}

#[test]
fn legacy_table_is_rebuilt() {
    assert_eq!(
        run_migrations(0, FavoritesTable::Legacy),
        vec![
            MigrationStep::CreateCatalogs,
            MigrationStep::RebuildFavorites,
            MigrationStep::RecordVersion
        ]
    );
}

#[test]
fn recorded_version_leaves_nothing_to_do() {
    assert_eq!(CURRENT_VERSION, 1);
    for table in [FavoritesTable::Absent, FavoritesTable::Legacy, FavoritesTable::Current].iter() {
        assert_eq!(run_migrations(1, *table), vec![]);
        assert_eq!(run_migrations(2, *table), vec![]);
        assert_eq!(run_migrations(i64::MAX, *table), vec![]);
    }
}

#[test]
fn statements_of_each_step() {
    assert_eq!(
        step_statements(MigrationStep::CreateCatalogs, "now"),
        vec![
            plain("CREATE TABLE IF NOT EXISTS categories (id INTEGER PRIMARY KEY AUTOINCREMENT, name TEXT NOT NULL UNIQUE)"),
            plain("CREATE TABLE IF NOT EXISTS tags (id INTEGER PRIMARY KEY AUTOINCREMENT, name TEXT NOT NULL UNIQUE)"),
        ]
    );
    assert_eq!(
        step_statements(MigrationStep::CreateFavorites, "now"),
        vec![plain("CREATE TABLE IF NOT EXISTS favorites (id INTEGER PRIMARY KEY AUTOINCREMENT, text TEXT NOT NULL, url TEXT NOT NULL, category_id INTEGER, tags TEXT NOT NULL, created_at TEXT NOT NULL, FOREIGN KEY (category_id) REFERENCES categories (id))")]
    );
    assert_eq!(
        step_statements(MigrationStep::RebuildFavorites, "2024-03-14 12:00:00"),
        vec![
            plain("CREATE TABLE favorites_new (id INTEGER PRIMARY KEY AUTOINCREMENT, text TEXT NOT NULL, url TEXT NOT NULL, category_id INTEGER, tags TEXT NOT NULL, created_at TEXT NOT NULL, FOREIGN KEY (category_id) REFERENCES categories (id))"),
            Statement {
                sql: "INSERT INTO favorites_new (id, text, url, category_id, tags, created_at) SELECT id, text, url, category_id, tags, ? FROM favorites".to_string(),
                params: vec![SqlValue::Text("2024-03-14 12:00:00".to_string())],
            },
            plain("DROP TABLE favorites"),
            plain("ALTER TABLE favorites_new RENAME TO favorites"),
        ]
    );
    assert_eq!(
        step_statements(MigrationStep::RecordVersion, "now"),
        vec![Statement {
            sql: "INSERT INTO migrations (version) VALUES (?)".to_string(),
            params: vec![SqlValue::Integer(1)],
        }]
    );
}

#[test]
fn statements_of_a_migration_are_those_of_its_steps_in_order() {
    assert_eq!(migration_statements(&vec![], "now"), vec![]);
    let steps = run_migrations(0, FavoritesTable::Legacy);
    let all = migration_statements(&steps, "2024-03-14 12:00:00");
    let mut expected = Vec::new();
    for step in steps.iter() {
        expected.extend(step_statements(*step, "2024-03-14 12:00:00"));
    }
    assert_eq!(all, expected);
    assert_eq!(all.len(), 7);
    assert_eq!(all[0].sql, "CREATE TABLE IF NOT EXISTS categories (id INTEGER PRIMARY KEY AUTOINCREMENT, name TEXT NOT NULL UNIQUE)");
    assert_eq!(all[3].params, vec![SqlValue::Text("2024-03-14 12:00:00".to_string())]);
    assert_eq!(all[6].sql, "INSERT INTO migrations (version) VALUES (?)");
    assert_eq!(migration_statements(&run_migrations(0, FavoritesTable::Absent), "now").len(), 4);
}

#[test]
fn ledger_texts() {
    assert_eq!(CREATE_LEDGER, "CREATE TABLE IF NOT EXISTS migrations (id INTEGER PRIMARY KEY AUTOINCREMENT, version INTEGER NOT NULL UNIQUE, applied_at TIMESTAMP DEFAULT CURRENT_TIMESTAMP)");
    assert_eq!(SELECT_VERSION, "SELECT COALESCE(MAX(version), 0) FROM migrations");
}
