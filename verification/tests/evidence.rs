use forge_storage::evidence::files::{snapshot_key, validate_bytes, validate_stored_snapshot};
use forge_storage::evidence::spool::ScannedRunDirectory;
use forge_storage::evidence::upload::{
    create_follow_up, existing_size_matches, s3_config_is_valid, CreateFollowUp, CreateOutcome,
    S3EvidenceConfig,
};
use forge_storage::evidence::{
    digest, ChunkWrite, EvidenceCollector, EvidenceError, EvidenceRedaction, SpoolIncident,
    SpoolLimits, SpoolUsage,
};

fn redaction() -> EvidenceRedaction {
    EvidenceRedaction::new(
        "exact-literals/v1".to_owned(),
        vec![b"synthetic-secret".to_vec()],
    )
    .expect("valid synthetic policy")
}

#[test]
fn overlapping_secret_prefix_waits_for_longer_secret() {
    let mut redact = EvidenceRedaction::new(
        "test/v1".to_owned(),
        vec![b"synthetic".to_vec(), b"synthetic-secret".to_vec()],
    )
    .expect("policy");
    assert!(redact.push(b"synthetic-", false).is_empty());
    assert_eq!(redact.push(b"secret", true), b"[redacted]");
}

#[test]
fn secret_order_does_not_change_redaction() {
    let secrets = vec![b"abc".to_vec(), b"xyz".to_vec(), b"ab".to_vec(), b"abcdef".to_vec()];
    let mut reversed = secrets.clone();
    reversed.reverse();
    let input = b"..abcdefg abc ab xyzab x";
    let mut first = EvidenceRedaction::new("order/v1".to_owned(), secrets).expect("policy");
    let mut second = EvidenceRedaction::new("order/v1".to_owned(), reversed).expect("policy");
    let one = first.push(input, true);
    let two = second.push(input, true);
    assert_eq!(one, two);
    assert_eq!(one, b"..[redacted]g [redacted] [redacted] [redacted][redacted] x".to_vec());
}

#[test]
fn secret_order_does_not_change_any_push() {
    let secrets = vec![b"abc".to_vec(), b"xyz".to_vec(), b"ab".to_vec(), b"abcdef".to_vec()];
    let mut reversed = secrets.clone();
    reversed.reverse();
    let mut first = EvidenceRedaction::new("order/v1".to_owned(), secrets).expect("policy");
    let mut second = EvidenceRedaction::new("order/v1".to_owned(), reversed).expect("policy");
    for read in [&b"..ab"[..], b"cde", b"fg a", b"bc ab x", b"yza", b"b x"] {
        assert_eq!(first.push(read, false), second.push(read, false));
    }
    assert_eq!(first.push(b"", true), second.push(b"", true));
}

#[test]
fn many_non_final_pushes_redact_as_one_push() {
    let bytes = b"a synthetic-secret, synthetic-secret and synthetic-secrets";
    let whole = redaction().push(bytes, true);
    for step in 1..=bytes.len() {
        let mut redactor = redaction();
        let mut out = Vec::new();
        for read in bytes.chunks(step) {
            out.extend(redactor.push(read, false));
        }
        out.extend(redactor.push(b"", true));
        assert_eq!(out, whole, "reads of {step} bytes");
    }
    assert_eq!(whole, b"a [redacted], [redacted] and [redacted]s".to_vec());
}

fn bodies(chunks: Vec<ChunkWrite>) -> Vec<u8> {
    let mut out = Vec::new();
    for chunk in chunks {
        out.extend(chunk.bytes);
    }
    out
}

#[test]
fn redacts_secrets_across_every_read_and_object_boundary() {
    let bytes = b"before synthetic-secret after";
    for split in 0..=bytes.len() {
        let mut collector = EvidenceCollector::new(5, redaction());
        let mut chunks = collector.push(&bytes[..split]);
        chunks.extend(collector.push(&bytes[split..]));
        chunks.extend(collector.finish());
        let mut sequence = 0;
        for chunk in &chunks {
            sequence += 1;
            assert_eq!(chunk.sequence, sequence);
            assert!(!chunk.bytes.is_empty() && chunk.bytes.len() <= 5);
        }
        assert_eq!(bodies(chunks), b"before [redacted] after", "split {split}");
    }
}

#[test]
fn overlapping_secrets_prefer_the_longest_match() {
    let mut redact = EvidenceRedaction::new(
        "test/v1".to_owned(),
        vec![b"ab".to_vec(), b"abcd".to_vec()],
    )
    .unwrap();
    assert_eq!(redact.push(b"xabcdyab", true), b"x[redacted]y[redacted]");
}

#[test]
fn pending_prefix_is_flushed_verbatim_when_it_never_completes() {
    let mut redact = redaction();
    assert_eq!(redact.push(b"a synthetic", false), b"a ");
    assert_eq!(redact.push(b"-sec", false), b"");
    assert_eq!(redact.push(b"", true), b"synthetic-sec");
}

#[test]
fn redaction_policy_validation() {
    assert!(EvidenceRedaction::new(String::new(), vec![b"s".to_vec()]).is_err());
    assert!(EvidenceRedaction::new("bad ref".to_owned(), vec![b"s".to_vec()]).is_err());
    assert!(EvidenceRedaction::new("a".repeat(257), vec![b"s".to_vec()]).is_err());
    assert!(EvidenceRedaction::new("a".repeat(256), vec![b"s".to_vec()]).is_ok());
    assert!(EvidenceRedaction::new("p".to_owned(), vec![Vec::new()]).is_err());
    assert!(EvidenceRedaction::new("p".to_owned(), vec![vec![1; 16_385]]).is_err());
    assert!(EvidenceRedaction::new("p".to_owned(), vec![vec![1]; 129]).is_err());
    assert!(EvidenceRedaction::new("p".to_owned(), vec![vec![1; 16_384]; 8]).is_ok());
    assert!(EvidenceRedaction::new("p".to_owned(), vec![vec![1; 16_384]; 9]).is_err());
    assert!(EvidenceRedaction::new("p".to_owned(), Vec::new()).is_ok());
    let policy = EvidenceRedaction::new("exact-literals/v1".to_owned(), Vec::new()).unwrap();
    assert_eq!(policy.reference(), "exact-literals/v1");
}

/// Writes the chunks of one push the way the spool does: each chunk is
/// reserved before it is written, and the first refused reservation is
/// reported to the collector and stops the rest of that push.
fn spool_write(
    usage: &mut SpoolUsage,
    limits: SpoolLimits,
    run: u128,
    collector: &mut EvidenceCollector,
    chunks: Vec<ChunkWrite>,
) -> Vec<ChunkWrite> {
    let mut written = Vec::new();
    for chunk in chunks {
        match usage.reserve(limits, run, chunk.bytes.len() as u64) {
            Ok(()) => written.push(chunk),
            Err(error) => {
                collector.record_write_failure(error);
                break;
            }
        }
    }
    written
}

#[test]
fn overflow_signals_stop_once_and_keeps_consuming_without_growing_spool() {
    let limits = SpoolLimits { per_run_bytes: 1100, global_bytes: 2000, chunk_bytes: 256 };
    let mut usage = SpoolUsage::new();
    let run = 7;
    let mut collector = EvidenceCollector::new(256, redaction());
    let chunks = collector.push(&vec![b'x'; 4096]);
    let written = spool_write(&mut usage, limits, run, &mut collector, chunks);
    let first = collector.signals(written, 4096);
    assert!(first.evidence_incomplete && first.stop_required);
    assert_eq!(first.incident, Some(SpoolIncident::CapacityExhausted));
    assert_eq!(first.consumed_bytes, 4096);
    let used = usage.total();
    for _ in 0..8 {
        let chunks = collector.push(&vec![b'x'; 4096]);
        let drained = spool_write(&mut usage, limits, run, &mut collector, chunks);
        assert!(drained.is_empty());
        let signals = collector.signals(drained, 4096);
        assert!(signals.chunks.is_empty());
        assert_eq!(signals.consumed_bytes, 4096);
    }
    assert_eq!(usage.total(), used);
    assert!(used <= 1100);
    assert_eq!(usage.run(run), used);
}

#[test]
fn other_write_failures_are_write_failed_incidents() {
    let mut collector = EvidenceCollector::new(4, redaction());
    collector.record_write_failure(EvidenceError::SpoolIo);
    assert_eq!(
        collector.signals(Vec::<ChunkWrite>::new(), 0).incident,
        Some(SpoolIncident::WriteFailed)
    );
}

#[test]
fn spool_limits_validation_and_defaults() {
    let limits = SpoolLimits::default();
    assert_eq!(limits.per_run_bytes, 256 * 1024 * 1024);
    assert_eq!(limits.global_bytes, 2 * 1024 * 1024 * 1024);
    assert_eq!(limits.chunk_bytes, 64 * 1024);
    assert!(limits.validate().is_ok());
    let bad = SpoolLimits {
        per_run_bytes: 10,
        global_bytes: 9,
        chunk_bytes: 1,
    };
    assert_eq!(bad.validate(), Err(EvidenceError::InvalidConfiguration));
    let bad = SpoolLimits {
        chunk_bytes: 1024 * 1024 + 1,
        ..SpoolLimits::default()
    };
    assert!(bad.validate().is_err());
    let bad = SpoolLimits {
        per_run_bytes: 0,
        ..SpoolLimits::default()
    };
    assert!(bad.validate().is_err());
}

#[test]
fn global_cap_applies_to_independent_runs_and_survives_restart() {
    let limits = SpoolLimits { per_run_bytes: 2000, global_bytes: 2000, chunk_bytes: 256 };
    let run = uuid::Uuid::parse_str(RUN_V7).unwrap().as_u128();
    let mut usage = SpoolUsage::new();
    let mut files = Vec::new();
    for _ in 0..3 {
        let mut collector = EvidenceCollector::new(256, redaction());
        let chunks = collector.push(&[b'x'; 256]);
        for chunk in spool_write(&mut usage, limits, run, &mut collector, chunks) {
            files.push(chunk.bytes.len() as u64);
        }
    }
    let mut collector = EvidenceCollector::new(256, redaction());
    let chunks = collector.push(&vec![b'x'; 2048]);
    for chunk in spool_write(&mut usage, limits, run, &mut collector, chunks) {
        files.push(chunk.bytes.len() as u64);
    }
    assert!(collector.signals(Vec::<ChunkWrite>::new(), 2048).stop_required);
    let used = usage.total();
    assert!(used <= 2000);
    assert_eq!(used, files.iter().sum::<u64>());
    // Restart: the accounting is rebuilt from the files retained on disk.
    let dirs = vec![ScannedRunDirectory { name: RUN_V7.to_owned(), file_sizes: files }];
    let mut recovered = SpoolUsage::from_scan(&dirs).expect("recover spool");
    assert_eq!(recovered.total(), used);
    assert_eq!(recovered.run(run), used);
    let mut collector = EvidenceCollector::new(256, redaction());
    let chunks = collector.push(&[b'x'; 256]);
    assert!(spool_write(&mut recovered, limits, 2, &mut collector, chunks).is_empty());
    assert!(collector.signals(Vec::<ChunkWrite>::new(), 256).stop_required);
    assert_eq!(recovered.total(), used);
}

#[test]
fn per_run_cap_applies_within_global_room() {
    let limits = SpoolLimits {
        per_run_bytes: 1100,
        global_bytes: 2000,
        chunk_bytes: 256,
    };
    let mut usage = SpoolUsage::new();
    assert!(usage.reserve(limits, 7, 1000).is_ok());
    assert_eq!(usage.reserve(limits, 7, 101), Err(EvidenceError::SpoolCapacity));
    assert!(usage.reserve(limits, 7, 100).is_ok());
    assert!(usage.reserve(limits, 8, 900).is_ok());
}

#[test]
fn releasing_a_reservation_restores_the_accounting() {
    let limits = SpoolLimits {
        per_run_bytes: 1000,
        global_bytes: 3000,
        chunk_bytes: 256,
    };
    let mut usage = SpoolUsage::new();
    assert!(usage.reserve(limits, 1, 700).is_ok());
    assert!(usage.reserve(limits, 2, 200).is_ok());
    assert!(usage.reserve(limits, 2, 300).is_ok());
    usage.release(2, 300);
    assert_eq!(usage.total(), 900);
    assert_eq!(usage.run(1), 700);
    assert_eq!(usage.run(2), 200);
    assert!(usage.reserve(limits, 3, 50).is_ok());
    usage.release(3, 50);
    assert_eq!(usage.run(3), 0);
    assert_eq!(usage.total(), 900);
}

const RUN_V7: &str = "01890a5d-ac96-774b-bcce-b302099a8057";

#[test]
fn restart_scan_counts_retained_files() {
    let dirs = vec![ScannedRunDirectory {
        name: RUN_V7.to_owned(),
        file_sizes: vec![100, 23],
    }];
    let usage = SpoolUsage::from_scan(&dirs).unwrap();
    assert_eq!(usage.total(), 123);
    let id = uuid::Uuid::parse_str(RUN_V7).unwrap().as_u128();
    assert_eq!(usage.run(id), 123);
    let bad_name = vec![ScannedRunDirectory {
        name: "not-a-run".to_owned(),
        file_sizes: vec![],
    }];
    assert!(matches!(
        SpoolUsage::from_scan(&bad_name),
        Err(EvidenceError::UnsafeSpool)
    ));
    let v4 = vec![ScannedRunDirectory {
        name: "67e55044-10b1-426f-9247-bb680e5fe0c8".to_owned(),
        file_sizes: vec![],
    }];
    assert!(matches!(SpoolUsage::from_scan(&v4), Err(EvidenceError::UnsafeSpool)));
    let overflow = vec![ScannedRunDirectory {
        name: RUN_V7.to_owned(),
        file_sizes: vec![u64::MAX, 1],
    }];
    assert!(matches!(
        SpoolUsage::from_scan(&overflow),
        Err(EvidenceError::SpoolCapacity)
    ));
}

#[test]
fn digest_is_lowercase_sha256_hex() {
    assert_eq!(
        digest(b"abc"),
        "ba7816bf8f01cfea414140de5dae2223b00361a396177a9cb410ff61f20015ad"
    );
    assert_eq!(
        digest(b""),
        "e3b0c44298fc1c149afbf4c8996fb92427ae41e4649b934ca495991b7852b855"
    );
}

#[test]
fn binary_and_empty_snapshots_are_byte_exact() {
    for bytes in [Vec::new(), vec![0u8, 255, 1, 0]] {
        let sha = digest(&bytes);
        assert!(validate_bytes(bytes.len() as u64, &sha, &bytes).is_ok());
        assert_eq!(
            validate_bytes(bytes.len() as u64, &sha, &[42]),
            Err(EvidenceError::IntegrityMismatch)
        );
        assert!(validate_stored_snapshot(bytes.len() as u64, bytes.len() as u64, &sha, 1024, &bytes).is_ok());
        assert!(validate_stored_snapshot(bytes.len() as u64 + 1, bytes.len() as u64, &sha, 1024, &bytes).is_err());
    }
}

#[test]
fn snapshot_keys_are_scoped_and_bounded() {
    assert!(snapshot_key("file-snapshots/p/a/abc", 10, 100).is_ok());
    assert_eq!(
        snapshot_key("other/p/a/abc", 10, 100),
        Err(EvidenceError::InvalidMetadata)
    );
    assert!(snapshot_key("file-snapshots/p/a/abc", 101, 100).is_err());
    assert!(snapshot_key("file-snapshots/p//abc", 1, 100).is_err());
    assert!(snapshot_key("file-snapshots/../abc", 1, 100).is_err());
}

fn config(endpoint: &str, allow_http: bool) -> S3EvidenceConfig {
    S3EvidenceConfig {
        endpoint: endpoint.to_owned(),
        region: "us-east-1".to_owned(),
        bucket: "evidence".to_owned(),
        access_key_id: "key".to_owned(),
        secret_access_key: "SECRET-REDACTED".to_owned(),
        allow_http,
    }
}

#[test]
fn s3_configuration_rules() {
    assert!(s3_config_is_valid(&config("https://s3.example", false)));
    assert!(!s3_config_is_valid(&config("http://127.0.0.1:9000", false)));
    assert!(s3_config_is_valid(&config("http://127.0.0.1:9000", true)));
    assert!(!s3_config_is_valid(&config("https://user@s3.example", false)));
    assert!(!s3_config_is_valid(&config("https://s3.example/?x", false)));
    assert!(!s3_config_is_valid(&config("ftp://s3.example", true)));
    let mut empty = config("https://s3.example", false);
    empty.bucket = String::new();
    assert!(!s3_config_is_valid(&empty));
}

#[test]
fn conditional_create_outcomes() {
    assert_eq!(create_follow_up(CreateOutcome::Created), Ok(CreateFollowUp::Confirmed));
    assert_eq!(
        create_follow_up(CreateOutcome::AlreadyExists),
        Ok(CreateFollowUp::VerifyExisting)
    );
    assert_eq!(
        create_follow_up(CreateOutcome::Failed),
        Err(EvidenceError::ObjectStoreUnavailable)
    );
    assert_eq!(existing_size_matches(4, 5), Err(EvidenceError::IntegrityMismatch));
    assert!(existing_size_matches(5, 5).is_ok());
}

#[test]
fn a_run_directory_named_by_the_spool_reads_back_as_its_run() {
    let run = uuid::Uuid::now_v7().as_u128();
    let dirs = vec![ScannedRunDirectory {
        name: forge_storage::evidence::layout::run_directory_name(run),
        file_sizes: vec![7, 8],
    }];
    let usage = SpoolUsage::from_scan(&dirs).expect("scan");
    assert_eq!(usage.run(run), 15);
    assert_eq!(usage.total(), 15);
}
