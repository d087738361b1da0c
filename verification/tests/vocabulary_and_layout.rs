use forge_storage::evidence::files::snapshot_key;
use forge_storage::evidence::layout::{
    check_pending_entry, check_release_target, check_spool_entry, chunk_file_name,
    evidence_object_key, receipt_file_name, run_directory_name, sort_pending, uuid_string,
    ChunkStream, PendingReceipt, SpoolEntryMetadata,
};
use forge_storage::evidence::EvidenceError;
use forge_storage::{QueueState, RunDesiredState, RunObservedState};

#[test]
fn state_vocabulary_reads_back_what_it_writes() {
    for state in [
        QueueState::Queued,
        QueueState::Leased,
        QueueState::Cancelled,
        QueueState::Completed,
        QueueState::DeadLetter,
    ] {
        assert_eq!(QueueState::from_text(state.as_str()), Some(state));
    }
    for state in [
        RunDesiredState::ProvisionRequested,
        RunDesiredState::Running,
        RunDesiredState::StopRequested,
        RunDesiredState::ForceStopRequested,
        RunDesiredState::Stopped,
        RunDesiredState::Failed,
    ] {
        assert_eq!(RunDesiredState::from_text(state.as_str()), Some(state));
    }
    for state in [
        RunObservedState::Unknown,
        RunObservedState::Provisioning,
        RunObservedState::Running,
        RunObservedState::Stopping,
        RunObservedState::Stopped,
        RunObservedState::Failed,
        RunObservedState::Lost,
    ] {
        assert_eq!(RunObservedState::from_text(state.as_str()), Some(state));
    }
}

#[test]
fn state_vocabulary_uses_snake_case_schema_values() {
    assert_eq!(QueueState::DeadLetter.as_str(), "dead_letter");
    assert_eq!(RunDesiredState::ForceStopRequested.as_str(), "force_stop_requested");
    assert_eq!(RunObservedState::Lost.as_str(), "lost");
    assert_eq!(RunObservedState::from_text("Running"), None);
    assert_eq!(RunDesiredState::from_text("stopping"), None);
    assert_eq!(QueueState::from_text(""), None);
}

#[test]
fn uuid_text_matches_the_uuid_crate() {
    for id in [uuid::Uuid::now_v7(), uuid::Uuid::from_u128(0x0123_4567_89ab_4def_8123_4567_89ab_cdef), uuid::Uuid::nil(), uuid::Uuid::max()] {
        assert_eq!(uuid_string(id.as_u128()), id.to_string());
    }
    let id = uuid::Uuid::parse_str("0190f2a4-7b3c-7d21-8e4f-0123456789ab").unwrap();
    assert_eq!(run_directory_name(id.as_u128()), "0190f2a4-7b3c-7d21-8e4f-0123456789ab");
    assert_eq!(chunk_file_name(id.as_u128()), "0190f2a4-7b3c-7d21-8e4f-0123456789ab.chunk");
    assert_eq!(receipt_file_name(id.as_u128()), "0190f2a4-7b3c-7d21-8e4f-0123456789ab.json");
}

#[test]
fn pending_receipt_must_sit_under_its_own_run_and_identity() {
    let run = uuid::Uuid::now_v7();
    let id = uuid::Uuid::now_v7();
    let receipt = PendingReceipt {
        pending_upload: true,
        size_bytes: 1024 * 1024,
        run_id: run.as_u128(),
        id: id.as_u128(),
    };
    let (dir, stem) = (run.to_string(), id.to_string());
    assert_eq!(check_pending_entry(&dir, &stem, &receipt), Ok(()));
    assert_eq!(check_pending_entry(&stem, &dir, &receipt), Err(EvidenceError::InvalidMetadata));
    assert_eq!(
        check_pending_entry(&dir.to_uppercase(), &stem, &receipt),
        Err(EvidenceError::InvalidMetadata)
    );
    let large = PendingReceipt { size_bytes: 1024 * 1024 + 1, ..receipt };
    assert_eq!(check_pending_entry(&dir, &stem, &large), Err(EvidenceError::InvalidMetadata));
    let stored = PendingReceipt { pending_upload: false, ..receipt };
    assert_eq!(check_pending_entry(&dir, &stem, &stored), Err(EvidenceError::InvalidMetadata));
}

#[test]
fn pending_chunks_are_ordered_by_creation_then_identity() {
    let entries = vec![(5i128, 2u128, "c"), (1, 9, "a"), (5, 1, "b"), (7, 0, "d")];
    let sorted = sort_pending(entries);
    let names: Vec<&str> = sorted.iter().map(|entry| entry.2).collect();
    assert_eq!(names, vec!["a", "b", "c", "d"]);
    assert!(sort_pending::<u8>(Vec::new()).is_empty());
}

#[test]
fn spool_entries_must_be_owner_only() {
    let dir = SpoolEntryMetadata { uid: 1000, mode: 0o040700, is_dir: true, is_file: false, nlink: 2 };
    assert_eq!(check_spool_entry(&dir, 1000, true), Ok(()));
    assert_eq!(check_spool_entry(&dir, 1001, true), Err(EvidenceError::UnsafeSpool));
    assert_eq!(check_spool_entry(&dir, 1000, false), Err(EvidenceError::UnsafeSpool));
    let open = SpoolEntryMetadata { mode: 0o040755, ..dir };
    assert_eq!(check_spool_entry(&open, 1000, true), Err(EvidenceError::UnsafeSpool));
    let file = SpoolEntryMetadata { uid: 1000, mode: 0o100600, is_dir: false, is_file: true, nlink: 1 };
    assert_eq!(check_spool_entry(&file, 1000, false), Ok(()));
    let linked = SpoolEntryMetadata { nlink: 2, ..file };
    assert_eq!(check_spool_entry(&linked, 1000, false), Err(EvidenceError::UnsafeSpool));
    let symlink = SpoolEntryMetadata { is_file: false, ..file };
    assert_eq!(check_spool_entry(&symlink, 1000, false), Err(EvidenceError::UnsafeSpool));
}

#[test]
fn chunk_keys_follow_the_layout_and_always_parse() {
    let project = uuid::Uuid::parse_str("01890a5d-ac96-774b-bcce-b302099a8057").unwrap();
    let run = uuid::Uuid::parse_str("01890a5d-ac96-7000-8000-000000000001").unwrap();
    let id = uuid::Uuid::parse_str("01890a5d-ac96-7fff-bfff-ffffffffffff").unwrap();
    let key = evidence_object_key(project.as_u128(), run.as_u128(), ChunkStream::Stderr, id.as_u128());
    assert_eq!(key, format!("evidence/{project}/{run}/stderr/{id}.chunk"));
    assert!(object_store::path::Path::parse(&key).is_ok());
    let key = evidence_object_key(0, u128::MAX, ChunkStream::Stdout, 0);
    assert_eq!(
        key,
        "evidence/00000000-0000-0000-0000-000000000000/ffffffff-ffff-ffff-ffff-ffffffffffff/stdout/00000000-0000-0000-0000-000000000000.chunk"
    );
    assert!(object_store::path::Path::parse(&key).is_ok());
}

#[test]
fn snapshot_keys_are_accepted_exactly_when_the_object_store_parses_them() {
    for key in [
        "file-snapshots/a/b.bin",
        "file-snapshots/a/b.bin/",
        "file-snapshots//b",
        "file-snapshots/./b",
        "file-snapshots/../b",
        "file-snapshots/.hidden/..x",
        "file-snapshots/a/..",
        "file-snapshots/a/.",
        "file-snapshots/a\u{7f}b",
        "file-snapshots/a\tb",
        "file-snapshots/",
        "file-snapshots//",
        "/file-snapshots/a",
    ] {
        let parsed = object_store::path::Path::parse(key).is_ok();
        let prefixed = key.starts_with("file-snapshots/");
        assert_eq!(snapshot_key(key, 1, 10).is_ok(), prefixed && parsed, "{key:?}");
    }
    assert!(snapshot_key("file-snapshots/a", 11, 10).is_err());
}

#[test]
fn release_names_only_the_spooled_chunk() {
    let (run, id) = (0x0189_0a5d_ac96_774b_bcce_b302_099a_8057u128, 7u128);
    let directory = run_directory_name(run);
    let file = chunk_file_name(id);
    assert_eq!(check_release_target(true, true, &directory, &file, run, id), Ok(()));
    assert_eq!(
        check_release_target(false, true, &directory, &file, run, id),
        Err(EvidenceError::InvalidMetadata)
    );
    assert_eq!(
        check_release_target(true, false, &directory, &file, run, id),
        Err(EvidenceError::InvalidMetadata)
    );
    assert_eq!(
        check_release_target(true, true, &directory, &receipt_file_name(id), run, id),
        Err(EvidenceError::InvalidMetadata)
    );
    assert_eq!(
        check_release_target(true, true, &file, &file, run, id),
        Err(EvidenceError::InvalidMetadata)
    );
}
