//! The explicit schema contract a Core checks at startup: the canonical
//! migration version and the tables, columns and indexes it requires.
//! Applying migrations remains an explicit operator action.
use vstd::prelude::*;

verus! {

/// Migration version of the canonical M0 schema.
pub const M0_CANONICAL_SCHEMA_VERSION: i64 = 14;

/// Errors found while validating the canonical schema.
#[derive(Clone, Debug, PartialEq, Eq)]
pub enum MigrationError {
    /// The migration ledger does not contain the canonical schema version.
    MissingMigration { version: i64 },
    /// A canonical table is absent.
    MissingTable {
        /// Canonical table name.
        table: &'static str,
    },
    /// A canonical column is absent.
    MissingColumn {
        /// Canonical table name.
        table: &'static str,
        /// Canonical column name.
        column: &'static str,
    },
    /// A scheduler or outbox index is absent.
    MissingIndex {
        /// Canonical index name.
        index: &'static str,
    },
}

/// Views of a list of names.
pub open spec fn name_views(names: Seq<&'static str>) -> Seq<Seq<char>> {
    names.map_values(|n: &'static str| n@)
}

/// Canonical tables.
pub open spec fn table_names() -> Seq<Seq<char>> {
    seq![
        "projects"@,
        "employees"@,
        "pipelines"@,
        "pipeline_versions"@,
        "tasks"@,
        "task_dependencies"@,
        "queue_entries"@,
        "leases"@,
        "runs"@,
        "artifacts"@,
        "event_log"@,
        "outbox"@,
        "idempotency_keys"@,
        "consumer_dedupe"@,
        "executor_artifact_receipts"@,
    ]
}

/// Canonical columns as (table, column).
pub open spec fn column_names() -> Seq<(Seq<char>, Seq<char>)> {
    seq![
        ("projects"@, "revision"@),
        ("projects"@, "next_task_sequence"@),
        ("projects"@, "canonical_snapshot"@),
        ("pipeline_versions"@, "definition"@),
        ("tasks"@, "task_key"@),
        ("tasks"@, "pipeline_id"@),
        ("tasks"@, "pipeline_version_id"@),
        ("tasks"@, "current_stage_id"@),
        ("tasks"@, "lifecycle"@),
        ("tasks"@, "revision"@),
        ("tasks"@, "resume_to_lifecycle"@),
        ("tasks"@, "canonical_snapshot"@),
        ("artifacts"@, "body_json"@),
        ("artifacts"@, "producer"@),
        ("artifacts"@, "canonical_snapshot"@),
        ("runs"@, "employee_id"@),
        ("runs"@, "lease_fencing_token"@),
        ("runs"@, "environment_epoch"@),
        ("runs"@, "last_sequence"@),
        ("runs"@, "desired_state"@),
        ("runs"@, "observed_state"@),
        ("event_log"@, "reason"@),
        ("executor_artifact_receipts"@, "message_id"@),
        ("executor_artifact_receipts"@, "run_id"@),
        ("executor_artifact_receipts"@, "lease_fencing_token"@),
        ("executor_artifact_receipts"@, "environment_epoch"@),
        ("executor_artifact_receipts"@, "artifact_id"@),
    ]
}

/// Scheduler, outbox and receipt indexes.
pub open spec fn index_names() -> Seq<Seq<char>> {
    seq![
        "queue_entries_runnable_order_idx"@,
        "outbox_ready_idx"@,
        "outbox_leased_reclaim_idx"@,
        "leases_active_task_idx"@,
        "executor_artifact_receipts_scope_message_idx"@,
    ]
}

/// The canonical tables, in checking order.
pub fn required_tables() -> (res: Vec<&'static str>)
    ensures
        name_views(res@) == table_names(),
{
    let res = vec![
        "projects",
        "employees",
        "pipelines",
        "pipeline_versions",
        "tasks",
        "task_dependencies",
        "queue_entries",
        "leases",
        "runs",
        "artifacts",
        "event_log",
        "outbox",
        "idempotency_keys",
        "consumer_dedupe",
        "executor_artifact_receipts",
    ];
    assert(name_views(res@) =~= table_names());
    res
}

/// The canonical columns, in checking order.
pub fn required_columns() -> (res: Vec<(&'static str, &'static str)>)
    ensures
        res@.map_values(|c: (&'static str, &'static str)| (c.0@, c.1@)) == column_names(),
{
    let res = vec![
        ("projects", "revision"),
        ("projects", "next_task_sequence"),
        ("projects", "canonical_snapshot"),
        ("pipeline_versions", "definition"),
        ("tasks", "task_key"),
        ("tasks", "pipeline_id"),
        ("tasks", "pipeline_version_id"),
        ("tasks", "current_stage_id"),
        ("tasks", "lifecycle"),
        ("tasks", "revision"),
        ("tasks", "resume_to_lifecycle"),
        ("tasks", "canonical_snapshot"),
        ("artifacts", "body_json"),
        ("artifacts", "producer"),
        ("artifacts", "canonical_snapshot"),
        ("runs", "employee_id"),
        ("runs", "lease_fencing_token"),
        ("runs", "environment_epoch"),
        ("runs", "last_sequence"),
        ("runs", "desired_state"),
        ("runs", "observed_state"),
        ("event_log", "reason"),
        ("executor_artifact_receipts", "message_id"),
        ("executor_artifact_receipts", "run_id"),
        ("executor_artifact_receipts", "lease_fencing_token"),
        ("executor_artifact_receipts", "environment_epoch"),
        ("executor_artifact_receipts", "artifact_id"),
    ];
    assert(res@.map_values(|c: (&'static str, &'static str)| (c.0@, c.1@)) =~= column_names());
    res
}

/// The required indexes, in checking order.
pub fn required_indexes() -> (res: Vec<&'static str>)
    ensures
        name_views(res@) == index_names(),
{
    let res = vec![
        "queue_entries_runnable_order_idx",
        "outbox_ready_idx",
        "outbox_leased_reclaim_idx",
        "leases_active_task_idx",
        "executor_artifact_receipts_scope_message_idx",
    ];
    assert(name_views(res@) =~= index_names());
    res
}

/// No canonical table is required twice.
pub proof fn lemma_table_names_distinct()
    ensures
        forall|i: int, j: int|
            0 <= i < j < table_names().len() ==> table_names()[i] != table_names()[j],
{
    reveal_strlit("projects");
    reveal_strlit("employees");
    reveal_strlit("pipelines");
    reveal_strlit("pipeline_versions");
    reveal_strlit("tasks");
    reveal_strlit("task_dependencies");
    reveal_strlit("queue_entries");
    reveal_strlit("leases");
    reveal_strlit("runs");
    reveal_strlit("artifacts");
    reveal_strlit("event_log");
    reveal_strlit("outbox");
    reveal_strlit("idempotency_keys");
    reveal_strlit("consumer_dedupe");
    reveal_strlit("executor_artifact_receipts");
    assert forall|i: int, j: int| 0 <= i < j < table_names().len() implies table_names()[i]
        != table_names()[j] by {
        if table_names()[i] == table_names()[j] {
            assert(table_names()[i].len() == table_names()[j].len());
            assert(table_names()[i][0] == table_names()[j][0]);
            assert(table_names()[i][table_names()[i].len() - 1] == table_names()[j][table_names()[j].len() - 1]);
        }
    }
}

/// The migration ledger must exist and record the canonical version as applied.
pub fn migration_ledger_result(ledger_exists: bool, applied: bool) -> (res: Result<(), MigrationError>)
    ensures
        ledger_exists && applied ==> res is Ok,
        !(ledger_exists && applied) ==> res == Err::<(), MigrationError>(
            MigrationError::MissingMigration { version: M0_CANONICAL_SCHEMA_VERSION },
        ),
{
    if ledger_exists && applied {
        Ok(())
    } else {
        Err(MigrationError::MissingMigration { version: M0_CANONICAL_SCHEMA_VERSION })
    }
}

/// Whether item `i` of a checking order was found.
pub open spec fn present_at(present: Seq<bool>, i: int) -> bool {
    0 <= i < present.len() && present[i]
}

/// Every one of the first `n` items was found.
pub open spec fn all_present(present: Seq<bool>, n: int) -> bool {
    forall|i: int| 0 <= i < n ==> present_at(present, i)
}

/// Item `i` is the first of the first `n` items that was not found.
pub open spec fn first_absent(present: Seq<bool>, n: int, i: int) -> bool {
    &&& 0 <= i < n
    &&& !present_at(present, i)
    &&& all_present(present, i)
}

fn first_missing(present: &Vec<bool>, n: usize) -> (res: Option<usize>)
    ensures
        res is None <==> all_present(present@, n as int),
        res matches Some(i) ==> first_absent(present@, n as int, i as int),
{
    let mut i: usize = 0;
    while i < n
        invariant
            i <= n,
            all_present(present@, i as int),
        decreases n - i,
    {
        if i >= present.len() || !present[i] {
            assert(!present_at(present@, i as int));
            return Some(i);
        }
        i += 1;
    }
    None
}

/// The schema verdict from what the catalog lookups found, each list in the
/// checking order of `required_tables`, `required_columns` and
/// `required_indexes` (a missing entry counts as absent). Tables are checked
/// first, then columns, then indexes; the first absent item is reported.
pub fn schema_verdict(
    tables_present: &Vec<bool>,
    columns_present: &Vec<bool>,
    indexes_present: &Vec<bool>,
) -> (res: Result<(), MigrationError>)
    ensures
        res is Ok <==> (all_present(tables_present@, table_names().len() as int) && all_present(
            columns_present@,
            column_names().len() as int,
        ) && all_present(indexes_present@, index_names().len() as int)),
        forall|i: int|
            first_absent(tables_present@, table_names().len() as int, i) ==> (res matches Err(
                MigrationError::MissingTable { table },
            ) && table@ == table_names()[i]),
        all_present(tables_present@, table_names().len() as int) ==> forall|i: int|
            first_absent(columns_present@, column_names().len() as int, i) ==> (res matches Err(
                MigrationError::MissingColumn { table, column },
            ) && (table@, column@) == column_names()[i]),
        all_present(tables_present@, table_names().len() as int) && all_present(
            columns_present@,
            column_names().len() as int,
        ) ==> forall|i: int|
            first_absent(indexes_present@, index_names().len() as int, i) ==> (res matches Err(
                MigrationError::MissingIndex { index },
            ) && index@ == index_names()[i]),
{
    let tables = required_tables();
    let columns = required_columns();
    let indexes = required_indexes();
    proof {
        assert(tables@.len() == table_names().len());
        assert(columns@.len() == column_names().len());
        assert(indexes@.len() == index_names().len());
    }
    if let Some(i) = first_missing(tables_present, tables.len()) {
        proof {
            assert(name_views(tables@)[i as int] == tables@[i as int]@);
            assert forall|j: int| first_absent(tables_present@, table_names().len() as int, j)
                implies j == i by {
                if j < i {
                    assert(present_at(tables_present@, j));
                } else if j > i {
                    assert(present_at(tables_present@, i as int));
                }
            }
        }
        return Err(MigrationError::MissingTable { table: tables[i] });
    }
    if let Some(i) = first_missing(columns_present, columns.len()) {
        proof {
            assert(columns@.map_values(|c: (&'static str, &'static str)| (c.0@, c.1@))[i as int]
                == (columns@[i as int].0@, columns@[i as int].1@));
            assert forall|j: int| first_absent(columns_present@, column_names().len() as int, j)
                implies j == i by {
                if j < i {
                    assert(present_at(columns_present@, j));
                } else if j > i {
                    assert(present_at(columns_present@, i as int));
                }
            }
        }
        return Err(MigrationError::MissingColumn { table: columns[i].0, column: columns[i].1 });
    }
    if let Some(i) = first_missing(indexes_present, indexes.len()) {
        proof {
            assert(name_views(indexes@)[i as int] == indexes@[i as int]@);
            assert forall|j: int| first_absent(indexes_present@, index_names().len() as int, j)
                implies j == i by {
                if j < i {
                    assert(present_at(indexes_present@, j));
                } else if j > i {
                    assert(present_at(indexes_present@, i as int));
                }
            }
        }
        return Err(MigrationError::MissingIndex { index: indexes[i] });
    }
    Ok(())
}

} // verus!
