//! Bringing the tables of the store to the layout that the service needs.
//!
//! The store keeps a ledger of the layout versions that were applied to it.
//! On every start the caller makes sure that the ledger exists, reads the
//! version it records and the columns of table `favorites`, and asks
//! `run_migrations` what is left to do. The steps that come back are run as
//! one atomic unit: if one fails, none has happened, and the service does not
//! start.
//!
//! The effect of each step on the layout is written down as a model, and the
//! plan is proved against it: it reaches the current layout, it loses no
//! row, and planning again on what it has reached finds nothing left to do.

use vstd::prelude::*;
use crate::sql::{SqlValue, SqlValueView, Statement, StatementView};

verus! {

/// The version of the layout that the service needs.
pub const CURRENT_VERSION: i64 = 1;

/// The column that older stores lack in table `favorites`.
pub const CREATED_AT: &'static str = "created_at";

pub const CREATE_LEDGER: &'static str =
    "CREATE TABLE IF NOT EXISTS migrations (id INTEGER PRIMARY KEY AUTOINCREMENT, version INTEGER NOT NULL UNIQUE, applied_at TIMESTAMP DEFAULT CURRENT_TIMESTAMP)";

pub const SELECT_VERSION: &'static str = "SELECT COALESCE(MAX(version), 0) FROM migrations";

pub const SELECT_FAVORITES_COLUMNS: &'static str = "SELECT name FROM pragma_table_info('favorites')";

pub const CREATE_CATEGORIES: &'static str =
    "CREATE TABLE IF NOT EXISTS categories (id INTEGER PRIMARY KEY AUTOINCREMENT, name TEXT NOT NULL UNIQUE)";

pub const CREATE_TAGS: &'static str =
    "CREATE TABLE IF NOT EXISTS tags (id INTEGER PRIMARY KEY AUTOINCREMENT, name TEXT NOT NULL UNIQUE)";

pub const CREATE_FAVORITES: &'static str =
    "CREATE TABLE IF NOT EXISTS favorites (id INTEGER PRIMARY KEY AUTOINCREMENT, text TEXT NOT NULL, url TEXT NOT NULL, category_id INTEGER, tags TEXT NOT NULL, created_at TEXT NOT NULL, FOREIGN KEY (category_id) REFERENCES categories (id))";

pub const CREATE_SHADOW: &'static str =
    "CREATE TABLE favorites_new (id INTEGER PRIMARY KEY AUTOINCREMENT, text TEXT NOT NULL, url TEXT NOT NULL, category_id INTEGER, tags TEXT NOT NULL, created_at TEXT NOT NULL, FOREIGN KEY (category_id) REFERENCES categories (id))";

pub const COPY_INTO_SHADOW: &'static str =
    "INSERT INTO favorites_new (id, text, url, category_id, tags, created_at) SELECT id, text, url, category_id, tags, ? FROM favorites";

pub const DROP_FAVORITES: &'static str = "DROP TABLE favorites";

pub const RENAME_SHADOW: &'static str = "ALTER TABLE favorites_new RENAME TO favorites";

pub const RECORD_VERSION: &'static str = "INSERT INTO migrations (version) VALUES (?)";

/// What a store holds under the name `favorites`.
#[derive(Debug, Clone, Copy, PartialEq, Eq, Structural)]
pub enum FavoritesTable {
    /// No such table.
    Absent,
    /// A table from before favorites had a time of creation.
    Legacy,
    /// A table with the column `created_at`.
    Current,
}

/// One step of a migration.
#[derive(Debug, Clone, Copy, PartialEq, Eq, Structural)]
pub enum MigrationStep {
    /// Creates the tables `categories` and `tags` where they are missing.
    CreateCatalogs,
    /// Creates table `favorites` where it is missing.
    CreateFavorites,
    /// Rebuilds a legacy table `favorites` with the column `created_at`:
    /// creates a shadow table, copies every row into it with the time of the
    /// migration as its time of creation, drops the old table and gives its
    /// name to the shadow table.
    RebuildFavorites,
    /// Records in the ledger that the current version is applied.
    RecordVersion,
}

/// The layout of a store, as far as migrations change it.
pub struct Schema {
    /// The versions that the ledger records, in the order of their entry.
    pub ledger: Seq<int>,
    /// Whether the tables `categories` and `tags` exist.
    pub catalogs: bool,
    /// What the store holds under the name `favorites`.
    pub favorites: FavoritesTable,
    /// The times of creation of the rows of `favorites`, in the order of the
    /// rows. A row from before favorites had a time of creation has none.
    pub created: Seq<Option<Seq<char>>>,
}

/// The time of creation of a row after a rebuild at the time `now`: its own
/// where it had one, and `now` where it had none.
pub open spec fn stamped(created: Option<Seq<char>>, now: Seq<char>) -> Option<Seq<char>> {
    match created {
        Some(time) => Some(time),
        None => Some(now),
    }
}

/// The version that a ledger records: the largest of its entries, and 0 for
/// an empty ledger.
pub open spec fn recorded_version(ledger: Seq<int>) -> int
    decreases ledger.len(),
{
    if ledger.len() == 0 {
        0
    } else if ledger.len() == 1 {
        ledger[0]
    } else {
        let before = recorded_version(ledger.drop_last());
        if ledger.last() > before {
            ledger.last()
        } else {
            before
        }
    }
}

/// The number of entries of a ledger that record `version`.
pub open spec fn entries_of(ledger: Seq<int>, version: int) -> nat
    decreases ledger.len(),
{
    if ledger.len() == 0 {
        0
    } else {
        entries_of(ledger.drop_last(), version) + if ledger.last() == version {
            1nat
        } else {
            0nat
        }
    }
}

/// What table `favorites` is, judged by the names of its columns: absent
/// where there are none, current where `created_at` is among them, legacy
/// otherwise.
pub open spec fn table_of_columns(columns: Seq<Seq<char>>) -> FavoritesTable {
    if columns.len() == 0 {
        FavoritesTable::Absent
    } else if columns.contains(CREATED_AT@) {
        FavoritesTable::Current
    } else {
        FavoritesTable::Legacy
    }
}

/// The steps that bring a store to the current layout, given the version
/// that its ledger records and what it holds as `favorites`.
///
/// A ledger that records the current version, or a later one, leaves nothing
/// to do, whatever the tables look like. Otherwise the catalogs are created,
/// table `favorites` is created, or rebuilt where it is a legacy table, and
/// the current version is recorded.
pub open spec fn migration_steps(version: int, favorites: FavoritesTable) -> Seq<MigrationStep> {
    if version >= CURRENT_VERSION {
        Seq::empty()
    } else {
        seq![
            MigrationStep::CreateCatalogs,
            match favorites {
                FavoritesTable::Legacy => MigrationStep::RebuildFavorites,
                _ => MigrationStep::CreateFavorites,
            },
            MigrationStep::RecordVersion,
        ]
    }
}

impl Schema {
    /// The layout after one step, run at the time `now`. Only a rebuild
    /// touches the rows, and it drops none: it gives each row that lacks a
    /// time of creation the time of the migration.
    pub open spec fn after(self, step: MigrationStep, now: Seq<char>) -> Schema {
        match step {
            MigrationStep::CreateCatalogs => Schema { catalogs: true, ..self },
            MigrationStep::CreateFavorites => Schema {
                favorites: match self.favorites {
                    FavoritesTable::Absent => FavoritesTable::Current,
                    kept => kept,
                },
                ..self
            },
            MigrationStep::RebuildFavorites => Schema {
                favorites: match self.favorites {
                    FavoritesTable::Absent => FavoritesTable::Absent,
                    _ => FavoritesTable::Current,
                },
                created: Seq::new(self.created.len(), |k: int| stamped(self.created[k], now)),
                ..self
            },
            MigrationStep::RecordVersion => Schema {
                ledger: self.ledger.push(CURRENT_VERSION as int),
                ..self
            },
        }
    }

    /// The layout after a sequence of steps, taken in order.
    pub open spec fn after_all(self, steps: Seq<MigrationStep>, now: Seq<char>) -> Schema
        decreases steps.len(),
    {
        if steps.len() == 0 {
            self
        } else {
            self.after_all(steps.drop_last(), now).after(steps.last(), now)
        }
    }

    /// The steps that `run_migrations` plans for this layout.
    pub open spec fn plan(self) -> Seq<MigrationStep> {
        migration_steps(recorded_version(self.ledger), self.favorites)
    }

    /// The layout after one run of the migration at the time `now`.
    pub open spec fn migrated(self, now: Seq<char>) -> Schema {
        self.after_all(self.plan(), now)
    }

    /// Whether the layout is the one that the service needs.
    pub open spec fn is_current(self) -> bool {
        &&& recorded_version(self.ledger) >= CURRENT_VERSION
        &&& self.catalogs
        &&& self.favorites == FavoritesTable::Current
    }

    /// The layout after the three steps of a migration that has something to
    /// do.
    proof fn lemma_three_steps(self, now: Seq<char>)
        requires
            recorded_version(self.ledger) < CURRENT_VERSION,
        ensures
            self.plan().len() == 3,
            self.migrated(now) == self.after(self.plan()[0], now).after(
                self.plan()[1],
                now,
            ).after(self.plan()[2], now),
    {
        let steps = self.plan();
        let s1 = self.after(steps[0], now);
        let s2 = s1.after(steps[1], now);
        assert(steps.drop_last().drop_last().drop_last() =~= Seq::<MigrationStep>::empty());
        assert(self.after_all(steps.drop_last().drop_last().drop_last(), now) == self);
        assert(steps.drop_last().drop_last().last() == steps[0]);
        assert(self.after_all(steps.drop_last().drop_last(), now) == s1);
        assert(steps.drop_last().last() == steps[1]);
        assert(self.after_all(steps.drop_last(), now) == s2);
    }

    /// A migration of a store whose ledger is behind reaches the layout that
    /// the service needs, and records the current version once.
    pub proof fn lemma_migration_reaches_current(self, now: Seq<char>)
        requires
            recorded_version(self.ledger) < CURRENT_VERSION,
        ensures
            self.migrated(now).is_current(),
            recorded_version(self.migrated(now).ledger) == CURRENT_VERSION,
            self.migrated(now).ledger == self.ledger.push(CURRENT_VERSION as int),
    {
        self.lemma_three_steps(now);
        assert(self.migrated(now).ledger.drop_last() =~= self.ledger);
    }

    /// A migration is idempotent: on the layout that one run has left,
    /// a second run plans no step, so it changes neither a table, nor a row,
    /// nor the ledger, whenever it runs.
    pub proof fn lemma_migration_idempotent(self, now: Seq<char>, later: Seq<char>)
        ensures
            self.migrated(now).plan() == Seq::<MigrationStep>::empty(),
            self.migrated(now).migrated(later) == self.migrated(now),
    {
        if recorded_version(self.ledger) < CURRENT_VERSION {
            self.lemma_migration_reaches_current(now);
        } else {
            assert(self.plan() =~= Seq::<MigrationStep>::empty());
            assert(self.migrated(now) == self);
        }
        assert(self.migrated(now).plan() =~= Seq::<MigrationStep>::empty());
    }

    /// A migration adds no second entry for a version that the ledger
    /// records already: after any number of runs on a store whose ledger
    /// recorded each version at most once, it still does.
    pub proof fn lemma_ledger_entries_stay_single(
        self,
        version: int,
        now: Seq<char>,
        later: Seq<char>,
    )
        requires
            entries_of(self.ledger, version) <= 1,
        ensures
            entries_of(self.migrated(now).ledger, version) <= 1,
            entries_of(self.migrated(now).migrated(later).ledger, version) == entries_of(
                self.migrated(now).ledger,
                version,
            ),
    {
        self.lemma_migration_idempotent(now, later);
        if recorded_version(self.ledger) < CURRENT_VERSION {
            self.lemma_migration_reaches_current(now);
            lemma_entries_bounded_by_version(self.ledger, CURRENT_VERSION as int);
            assert(self.migrated(now).ledger.drop_last() =~= self.ledger);
        } else {
            assert(self.plan() =~= Seq::<MigrationStep>::empty());
        }
    }

    /// A migration loses no row: the table holds as many rows after it as
    /// before, in their order. Where it rebuilds a legacy table, each row
    /// that lacked a time of creation has the time of the migration, and
    /// each other row keeps its own; otherwise no row is touched.
    pub proof fn lemma_migration_keeps_every_row(self, now: Seq<char>)
        ensures
            self.migrated(now).created.len() == self.created.len(),
            forall|k: int|
                0 <= k < self.created.len() ==> #[trigger] self.migrated(now).created[k] == if self.plan().contains(
                    MigrationStep::RebuildFavorites,
                ) {
                    stamped(self.created[k], now)
                } else {
                    self.created[k]
                },
            self.plan().contains(MigrationStep::RebuildFavorites) <==> recorded_version(
                self.ledger,
            ) < CURRENT_VERSION && self.favorites == FavoritesTable::Legacy,
    {
        if recorded_version(self.ledger) < CURRENT_VERSION {
            self.lemma_three_steps(now);
            let steps = self.plan();
            if self.favorites == FavoritesTable::Legacy {
                assert(steps[1] == MigrationStep::RebuildFavorites);
            } else {
                assert forall|k: int| 0 <= k < steps.len() implies steps[k]
                    != MigrationStep::RebuildFavorites by {}
            }
        } else {
            assert(self.plan() =~= Seq::<MigrationStep>::empty());
        }
    }
}

/// A ledger holds no entry for a version above the one it records.
pub proof fn lemma_entries_bounded_by_version(ledger: Seq<int>, version: int)
    requires
        recorded_version(ledger) < version,
        version > 0,
    ensures
        entries_of(ledger, version) == 0,
    decreases ledger.len(),
{
    if ledger.len() > 0 {
        lemma_entries_bounded_by_version(ledger.drop_last(), version);
    }
}

/// Tells what table `favorites` is from the names of its columns, as the
/// store lists them (no names where there is no such table).
pub fn classify_favorites(columns: &Vec<String>) -> (table: FavoritesTable)
    ensures
        table == table_of_columns(columns.deep_view()),
{
    if columns.len() == 0 {
        return FavoritesTable::Absent;
    }
    let wanted = String::from_str(CREATED_AT);
    let mut i: usize = 0;
    while i < columns.len()
        invariant
            i <= columns.len(),
            wanted@ == CREATED_AT@,
            forall|k: int| 0 <= k < i ==> columns.deep_view()[k] != CREATED_AT@,
        decreases columns.len() - i,
    {
        if columns[i] == wanted {
            assert(columns.deep_view()[i as int] == CREATED_AT@);
            return FavoritesTable::Current;
        }
        i += 1;
    }
    FavoritesTable::Legacy
}

/// Plans the migration of a store whose ledger records `version` and which
/// holds `favorites` under that name: the steps to run, in order, as one
/// atomic unit. No step is left where the ledger records the current
/// version.
pub fn run_migrations(version: i64, favorites: FavoritesTable) -> (steps: Vec<MigrationStep>)
    ensures
        steps@ == migration_steps(version as int, favorites),
{
    let mut steps: Vec<MigrationStep> = Vec::new();
    if version < CURRENT_VERSION {
        steps.push(MigrationStep::CreateCatalogs);
        match favorites {
            FavoritesTable::Legacy => steps.push(MigrationStep::RebuildFavorites),
            _ => steps.push(MigrationStep::CreateFavorites),
        }
        steps.push(MigrationStep::RecordVersion);
    }
    steps
}

/// What a statement without values stands for.
pub open spec fn plain_view(sql: Seq<char>) -> StatementView {
    StatementView { sql, params: Seq::empty() }
}

/// What the statements of one step stand for, in the order in which they
/// run. The copy into the shadow table binds the time of the migration, the
/// entry into the ledger binds the current version; the others bind nothing.
pub open spec fn step_views(step: MigrationStep, now: Seq<char>) -> Seq<StatementView> {
    match step {
        MigrationStep::CreateCatalogs => seq![
            plain_view(CREATE_CATEGORIES@),
            plain_view(CREATE_TAGS@),
        ],
        MigrationStep::CreateFavorites => seq![plain_view(CREATE_FAVORITES@)],
        MigrationStep::RebuildFavorites => seq![
            plain_view(CREATE_SHADOW@),
            StatementView { sql: COPY_INTO_SHADOW@, params: seq![SqlValueView::Text(now)] },
            plain_view(DROP_FAVORITES@),
            plain_view(RENAME_SHADOW@),
        ],
        MigrationStep::RecordVersion => seq![
            StatementView {
                sql: RECORD_VERSION@,
                params: seq![SqlValueView::Integer(CURRENT_VERSION as int)],
            },
        ],
    }
}

/// What the statements of a sequence of steps stand for: those of each step,
/// in the order of the steps.
pub open spec fn plan_views(steps: Seq<MigrationStep>, now: Seq<char>) -> Seq<StatementView>
    decreases steps.len(),
{
    if steps.len() == 0 {
        Seq::empty()
    } else {
        plan_views(steps.drop_last(), now) + step_views(steps.last(), now)
    }
}

/// The statements of one step, in the order in which they run; `now` is the
/// time of the migration.
pub fn step_statements(step: MigrationStep, now: &str) -> (statements: Vec<Statement>)
    ensures
        statements.deep_view() == step_views(step, now@),
{
    let mut statements: Vec<Statement> = Vec::new();
    match step {
        MigrationStep::CreateCatalogs => {
            statements.push(Statement::plain(CREATE_CATEGORIES));
            statements.push(Statement::plain(CREATE_TAGS));
        },
        MigrationStep::CreateFavorites => {
            statements.push(Statement::plain(CREATE_FAVORITES));
        },
        MigrationStep::RebuildFavorites => {
            statements.push(Statement::plain(CREATE_SHADOW));
            statements.push(Statement::with_one(COPY_INTO_SHADOW, SqlValue::text(now)));
            statements.push(Statement::plain(DROP_FAVORITES));
            statements.push(Statement::plain(RENAME_SHADOW));
        },
        MigrationStep::RecordVersion => {
            statements.push(Statement::with_one(RECORD_VERSION, SqlValue::Integer(CURRENT_VERSION)));
        },
    }
    assert(statements.deep_view() =~= step_views(step, now@));
    statements
}

/// The statements of a whole migration: those of every step, in the order of
/// the steps. They are run as one atomic unit; `now` is the time of the
/// migration.
pub fn migration_statements(steps: &Vec<MigrationStep>, now: &str) -> (statements: Vec<Statement>)
    ensures
        statements.deep_view() == plan_views(steps@, now@),
{
    let mut statements: Vec<Statement> = Vec::new();
    let mut i: usize = 0;
    assert(steps@.take(0) =~= Seq::<MigrationStep>::empty());
    while i < steps.len()
        invariant
            i <= steps.len(),
            statements.deep_view() == plan_views(steps@.take(i as int), now@),
        decreases steps.len() - i,
    {
        let ghost before = statements.deep_view();
        let mut part = step_statements(steps[i], now);
        let ghost added = part.deep_view();
        statements.append(&mut part);
        proof {
            let taken = steps@.take(i + 1);
            assert(taken.drop_last() =~= steps@.take(i as int));
            assert(taken.last() == steps@[i as int]);
            assert(statements.deep_view() =~= before + added);
        }
        i += 1;
    }
    assert(steps@.take(steps.len() as int) =~= steps@);
    statements
}

} // verus!
