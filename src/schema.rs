use vstd::prelude::*;

verus! {

/// The highest migration step that the library knows.
pub const LATEST_VERSION: i32 = 2;

/// Every known migration step, ascending: 1, 2, ...
pub open spec fn all_steps() -> Seq<i32> {
    Seq::new(LATEST_VERSION as nat, |i: int| (i + 1) as i32)
}

/// The steps that run on a store whose highest applied version is `current`:
/// each known step above it, in ascending order.
pub open spec fn pending_steps(current: i32) -> Seq<i32> {
    all_steps().filter(|v: i32| current < v)
}

/// The highest recorded version once `steps` have run on a store at `current`.
pub open spec fn version_after(current: i32, steps: Seq<i32>) -> i32 {
    if steps.len() == 0 {
        current
    } else {
        steps.last()
    }
}

/// The migration steps to run, in order, on a store whose highest applied
/// version is `current` (0 for a new store).
pub fn run_migrations(current: i32) -> (r: Vec<i32>)
    ensures
        r@ == pending_steps(current),
{
    let mut r: Vec<i32> = Vec::new();
    let mut v: i32 = 1;
    while v <= LATEST_VERSION
        invariant
            1 <= v <= LATEST_VERSION + 1,
            r@ == all_steps().subrange(0, v - 1).filter(|w: i32| current < w),
        decreases LATEST_VERSION + 1 - v,
    {
        proof {
            reveal(Seq::filter);
            assert(all_steps().subrange(0, v as int).drop_last() =~= all_steps().subrange(
                0,
                v - 1,
            ));
        }
        if current < v {
            r.push(v);
        }
        v = v + 1;
    }
    proof {
        assert(all_steps().subrange(0, LATEST_VERSION as int) =~= all_steps());
    }
    r
}

/// Turns on the engine's enforcement of foreign keys, on which the cascades rest.
pub const ENABLE_FOREIGN_KEYS: &'static str = "PRAGMA foreign_keys = ON;";

/// The table of applied migration steps.
pub const CREATE_VERSION_TABLE: &'static str = "CREATE TABLE IF NOT EXISTS schema_version (
    version INTEGER PRIMARY KEY
)";

/// The highest applied step, 0 where none is.
pub const CURRENT_VERSION: &'static str = "SELECT COALESCE(MAX(version), 0) FROM schema_version";

/// Records one applied step; its parameter is the step's number.
pub const RECORD_VERSION: &'static str = "INSERT INTO schema_version (version) VALUES (?)";

pub const CREATE_PROJECTS: &'static str = "CREATE TABLE IF NOT EXISTS projects (
    id TEXT PRIMARY KEY,
    name TEXT NOT NULL,
    description TEXT,
    created_at TEXT NOT NULL,
    updated_at TEXT NOT NULL
)";

pub const CREATE_COLUMNS: &'static str = "CREATE TABLE IF NOT EXISTS columns (
    id TEXT PRIMARY KEY,
    project_id TEXT NOT NULL,
    title TEXT NOT NULL,
    position INTEGER NOT NULL,
    background_color TEXT,
    created_at TEXT NOT NULL,
    updated_at TEXT NOT NULL,
    FOREIGN KEY (project_id) REFERENCES projects(id) ON DELETE CASCADE
)";

pub const CREATE_CARDS: &'static str = "CREATE TABLE IF NOT EXISTS cards (
    id TEXT PRIMARY KEY,
    project_id TEXT NOT NULL,
    column_id TEXT NOT NULL,
    title TEXT NOT NULL,
    description TEXT,
    position INTEGER NOT NULL,
    completed INTEGER DEFAULT 0,
    created_at TEXT NOT NULL,
    updated_at TEXT NOT NULL,
    FOREIGN KEY (project_id) REFERENCES projects(id) ON DELETE CASCADE,
    FOREIGN KEY (column_id) REFERENCES columns(id) ON DELETE CASCADE
)";

pub const CREATE_ACTIVITIES: &'static str = "CREATE TABLE IF NOT EXISTS activities (
    id TEXT PRIMARY KEY,
    project_id TEXT NOT NULL,
    type TEXT NOT NULL,
    card_id TEXT,
    column_id TEXT,
    from_column_id TEXT,
    to_column_id TEXT,
    title TEXT NOT NULL,
    description TEXT,
    timestamp TEXT NOT NULL,
    FOREIGN KEY (project_id) REFERENCES projects(id) ON DELETE CASCADE
)";

pub const CREATE_SETTINGS: &'static str = "CREATE TABLE IF NOT EXISTS settings (
    key TEXT PRIMARY KEY,
    value TEXT NOT NULL
)";

pub const INDEX_CARDS_PROJECT: &'static str = "CREATE INDEX IF NOT EXISTS idx_cards_project_id ON cards(project_id)";

pub const INDEX_CARDS_COLUMN: &'static str = "CREATE INDEX IF NOT EXISTS idx_cards_column_id ON cards(column_id)";

pub const INDEX_COLUMNS_PROJECT: &'static str = "CREATE INDEX IF NOT EXISTS idx_columns_project_id ON columns(project_id)";

pub const INDEX_ACTIVITIES_PROJECT: &'static str = "CREATE INDEX IF NOT EXISTS idx_activities_project_id ON activities(project_id)";

pub const ADD_PRIORITY: &'static str = "ALTER TABLE cards ADD COLUMN priority TEXT DEFAULT 'low'";

pub const ADD_START_DATE: &'static str = "ALTER TABLE cards ADD COLUMN start_date TEXT";

pub const ADD_DUE_DATE: &'static str = "ALTER TABLE cards ADD COLUMN due_date TEXT";

/// The statements of migration step `version`: step 1 creates the tables and
/// their indexes, with each column and card deleted along with its project,
/// and each card with its column; step 2 adds a card's priority and dates.
pub open spec fn step_sql(version: i32) -> Seq<Seq<char>> {
    if version == 1 {
        seq![CREATE_PROJECTS@, CREATE_COLUMNS@, CREATE_CARDS@, CREATE_ACTIVITIES@, CREATE_SETTINGS@, INDEX_CARDS_PROJECT@, INDEX_CARDS_COLUMN@, INDEX_COLUMNS_PROJECT@, INDEX_ACTIVITIES_PROJECT@]
    } else if version == 2 {
        seq![ADD_PRIORITY@, ADD_START_DATE@, ADD_DUE_DATE@]
    } else {
        Seq::empty()
    }
}

/// The statements that migration step `version` runs.
pub fn migration_sql(version: i32) -> (r: Vec<String>)
    ensures
        r@.map_values(|s: String| s@) == step_sql(version),
{
    let mut r: Vec<String> = Vec::new();
    if version == 1 {
        r.push(CREATE_PROJECTS.to_owned());
        r.push(CREATE_COLUMNS.to_owned());
        r.push(CREATE_CARDS.to_owned());
        r.push(CREATE_ACTIVITIES.to_owned());
        r.push(CREATE_SETTINGS.to_owned());
        r.push(INDEX_CARDS_PROJECT.to_owned());
        r.push(INDEX_CARDS_COLUMN.to_owned());
        r.push(INDEX_COLUMNS_PROJECT.to_owned());
        r.push(INDEX_ACTIVITIES_PROJECT.to_owned());
    } else if version == 2 {
        r.push(ADD_PRIORITY.to_owned());
        r.push(ADD_START_DATE.to_owned());
        r.push(ADD_DUE_DATE.to_owned());
    }
    assert(r@.map_values(|s: String| s@) =~= step_sql(version));
    r
}

/// Migrating is idempotent: once the pending steps have run, none is pending,
/// so a second run changes nothing and leaves the same highest version, which
/// is the latest known version or `current` where that was higher.
pub proof fn lemma_migrations_idempotent(current: i32)
    ensures
        version_after(current, pending_steps(current)) == if current < LATEST_VERSION {
            LATEST_VERSION
        } else {
            current
        },
        pending_steps(version_after(current, pending_steps(current))).len() == 0,
        version_after(
            version_after(current, pending_steps(current)),
            pending_steps(version_after(current, pending_steps(current))),
        ) == version_after(current, pending_steps(current)),
{
    reveal_with_fuel(Seq::filter, 3);
    let s = all_steps();
    assert(s.len() == 2 && s[0] == 1 && s[1] == 2);
    assert(s.drop_last() =~= seq![1i32]);
    assert(s.drop_last().drop_last() =~= Seq::<i32>::empty());
    let after = version_after(current, pending_steps(current));
    assert(after >= 2);
    assert(pending_steps(after).len() == 0);
}

} // verus!
