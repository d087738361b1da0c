use std::collections::BTreeSet;

use forge_storage::read::RUN_COLUMNS;
use forge_storage::schema::{
    migration_ledger_result, required_columns, required_indexes, required_tables, schema_verdict,
    MigrationError, M0_CANONICAL_SCHEMA_VERSION,
};

#[test]
fn schema_contract_has_unique_required_table_names() {
    let tables = required_tables();
    let names = tables.iter().copied().collect::<BTreeSet<_>>();

    assert_eq!(names.len(), tables.len());
}

#[test]
fn schema_contract_names_scheduler_and_outbox_indexes() {
    let names = required_indexes().into_iter().collect::<BTreeSet<_>>();

    assert!(names.contains("queue_entries_runnable_order_idx"));
    assert!(names.contains("outbox_ready_idx"));
    assert!(names.contains("outbox_leased_reclaim_idx"));
    assert!(names.contains("executor_artifact_receipts_scope_message_idx"));
}

#[test]
fn schema_contract_covers_task_artifact_and_run_columns() {
    let names = required_columns().into_iter().collect::<BTreeSet<_>>();

    assert!(names.contains(&("tasks", "lifecycle")));
    assert!(names.contains(&("artifacts", "body_json")));
    assert!(names.contains(&("runs", "lease_fencing_token")));
    assert!(names.contains(&("executor_artifact_receipts", "environment_epoch")));
}

#[test]
fn run_projection_query_keeps_the_fencing_and_state_columns() {
    assert!(RUN_COLUMNS.contains("lease_fencing_token"));
    assert!(RUN_COLUMNS.contains("desired_state"));
}

#[test]
fn schema_lists_have_their_documented_sizes() {
    assert_eq!(required_tables().len(), 15);
    assert_eq!(required_columns().len(), 27);
    assert_eq!(required_indexes().len(), 5);
    assert_eq!(required_tables()[0], "projects");
}

#[test]
fn migration_ledger_must_hold_the_canonical_version() {
    assert!(migration_ledger_result(true, true).is_ok());
    assert_eq!(
        migration_ledger_result(false, true),
        Err(MigrationError::MissingMigration {
            version: M0_CANONICAL_SCHEMA_VERSION
        })
    );
    assert_eq!(
        migration_ledger_result(true, false),
        Err(MigrationError::MissingMigration { version: 14 })
    );
}

#[test]
fn schema_verdict_reports_the_first_missing_item_in_checking_order() {
    let tables = vec![true; required_tables().len()];
    let columns = vec![true; required_columns().len()];
    let indexes = vec![true; required_indexes().len()];
    assert_eq!(schema_verdict(&tables, &columns, &indexes), Ok(()));

    let mut no_runs = tables.clone();
    no_runs[8] = false;
    no_runs[10] = false;
    let mut no_column = columns.clone();
    no_column[0] = false;
    assert_eq!(
        schema_verdict(&no_runs, &no_column, &indexes),
        Err(MigrationError::MissingTable { table: "runs" })
    );
    assert_eq!(
        schema_verdict(&tables, &no_column, &vec![]),
        Err(MigrationError::MissingColumn { table: "projects", column: "revision" })
    );
    let mut no_index = indexes.clone();
    no_index[1] = false;
    assert_eq!(
        schema_verdict(&tables, &columns, &no_index),
        Err(MigrationError::MissingIndex { index: "outbox_ready_idx" })
    );
    assert_eq!(
        schema_verdict(&tables[..3].to_vec(), &columns, &indexes),
        Err(MigrationError::MissingTable { table: "pipeline_versions" })
    );
}
