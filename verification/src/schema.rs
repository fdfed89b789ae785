//! The database schema's version bookkeeping: which migration steps a
//! database at a given `user_version` still needs.

use vstd::prelude::*;

use crate::text::{str_eq, texts};

verus! {

/// The current schema version, stored in SQLite's `user_version`.
pub const SCHEMA_VERSION: i64 = 2;

/// The migration steps to run.
pub struct MigrationPlan {
    /// Create the base tables (a fresh database).
    pub create_tables: bool,
    /// Add the `history.command` column. Decided from the table itself,
    /// not the version counter, so a counter that ran ahead still heals.
    pub add_command_column: bool,
    /// Record the current version.
    pub set_version: bool,
}

/// The steps for a database at version `current` whose history table has
/// (or lacks) the `command` column.
pub fn migration_plan(current: i64, has_command_column: bool) -> (p: MigrationPlan)
    ensures
        p.create_tables == (current < 1),
        p.add_command_column == !has_command_column,
        p.set_version == (current < SCHEMA_VERSION),
{
    MigrationPlan {
        create_tables: current < 1,
        add_command_column: !has_command_column,
        set_version: current < SCHEMA_VERSION,
    }
}

/// Whether a table's column names include `column`.
pub fn has_column_named(names: &Vec<String>, column: &str) -> (r: bool)
    ensures
        r == texts(names@).contains(column@),
{
    let mut i: usize = 0;
    while i < names.len()
        invariant
            i <= names@.len(),
            forall|j: int| 0 <= j < i ==> names@[j]@ != column@,
        decreases names@.len() - i,
    {
        if str_eq(names[i].as_str(), column) {
            assert(texts(names@)[i as int] == column@);
            return true;
        }
        i = i + 1;
    }
    assert forall|j: int| 0 <= j < texts(names@).len() implies texts(names@)[j] != column@ by {
        assert(texts(names@)[j] == names@[j]@);
    }
    false
}

} // verus!
