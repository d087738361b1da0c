//! Canonical knowledge page revisions and their durable projection intents.
use vstd::prelude::*;

use crate::error::StorageError;
use crate::evidence::{digest, hex, sha256_of};
use crate::text::text_equals;

verus! {

/// Canonical object represented by one immutable projection identity.
#[derive(Clone, Copy, Debug, PartialEq, Eq, Structural)]
pub enum KnowledgeProjectionKind {
    /// A knowledge page revision.
    KnowledgePage,
    /// A derived memory revision.
    DerivedMemory,
}

/// The storage text of a projection kind.
pub open spec fn kind_text(kind: KnowledgeProjectionKind) -> Seq<char> {
    match kind {
        KnowledgeProjectionKind::KnowledgePage => "knowledge_page"@,
        KnowledgeProjectionKind::DerivedMemory => "derived_memory"@,
    }
}

impl KnowledgeProjectionKind {
    /// The storage text of this kind.
    pub fn as_str(&self) -> (res: &'static str)
        ensures
            res@ == kind_text(*self),
    {
        match self {
            KnowledgeProjectionKind::KnowledgePage => "knowledge_page",
            KnowledgeProjectionKind::DerivedMemory => "derived_memory",
        }
    }

    /// Reads a stored projection kind; any other text is rejected.
    pub fn from_storage(text: &str) -> (res: Result<Self, StorageError>)
        ensures
            text@ == "knowledge_page"@ ==> res == Ok::<Self, StorageError>(
                KnowledgeProjectionKind::KnowledgePage,
            ),
            text@ == "derived_memory"@ ==> res == Ok::<Self, StorageError>(
                KnowledgeProjectionKind::DerivedMemory,
            ),
            text@ != "knowledge_page"@ && text@ != "derived_memory"@ ==> (res matches Err(
                StorageError::InvalidInput { reason },
            ) && reason@ == "unknown projection kind"@),
    {
        proof {
            reveal_strlit("knowledge_page");
            reveal_strlit("derived_memory");
            assert("knowledge_page"@[0] != "derived_memory"@[0]);
        }
        if text_equals(text, "knowledge_page") {
            Ok(KnowledgeProjectionKind::KnowledgePage)
        } else if text_equals(text, "derived_memory") {
            Ok(KnowledgeProjectionKind::DerivedMemory)
        } else {
            Err(StorageError::InvalidInput { reason: "unknown projection kind".to_owned() })
        }
    }
}

/// Distinct kinds have distinct storage texts, so reading back the storage
/// text of a kind (`from_storage(kind.as_str())`) gives that same kind.
pub proof fn lemma_kind_text_injective(a: KnowledgeProjectionKind, b: KnowledgeProjectionKind)
    ensures
        kind_text(a) == kind_text(b) ==> a == b,
{
    reveal_strlit("knowledge_page");
    reveal_strlit("derived_memory");
    assert("knowledge_page"@[0] != "derived_memory"@[0]);
}

/// A projection batch holds 1 to 100 items.
pub fn validate_limit(limit: u32) -> (res: Result<(), StorageError>)
    ensures
        1 <= limit <= 100 ==> res is Ok,
        !(1 <= limit <= 100) ==> (res matches Err(StorageError::InvalidInput { reason }) && reason@
            == "projection batch must contain 1 to 100 items"@),
{
    if limit < 1 || limit > 100 {
        return Err(
            StorageError::InvalidInput {
                reason: "projection batch must contain 1 to 100 items".to_owned(),
            },
        );
    }
    Ok(())
}

/// The stored content hash must be the lowercase SHA-256 of the page markdown.
pub fn validate_digest(markdown: &str, hash: &str) -> (res: Result<(), StorageError>)
    ensures
        hash@ == hex(sha256_of(vstd::utf8::encode_utf8(markdown@))) ==> res is Ok,
        hash@ != hex(sha256_of(vstd::utf8::encode_utf8(markdown@))) ==> (res matches Err(
            StorageError::InvalidInput { reason },
        ) && reason@ == "knowledge content hash mismatch"@),
{
    let calculated = digest(markdown.as_bytes());
    if !text_equals(hash, calculated.as_str()) {
        return Err(StorageError::InvalidInput { reason: "knowledge content hash mismatch".to_owned() });
    }
    Ok(())
}

/// How a page revision is written.
#[derive(Clone, Copy, Debug, PartialEq, Eq, Structural)]
pub enum RevisionWrite {
    /// The first revision creates the head row.
    Insert,
    /// A later revision updates the head guarded by the previous revision.
    Update,
}

/// A revision must be exactly the successor of the previous one; revision one
/// creates the page, later revisions update it.
pub fn knowledge_revision_write(previous_revision: u64, revision: u64) -> (res: Result<
    RevisionWrite,
    StorageError,
>)
    ensures
        previous_revision == u64::MAX ==> res == Err::<RevisionWrite, StorageError>(
            StorageError::IntegerOutOfRange { field: "knowledge.revision" },
        ),
        previous_revision < u64::MAX && revision != previous_revision + 1 ==> res == Err::<
            RevisionWrite,
            StorageError,
        >(StorageError::StaleRevision { aggregate: "knowledge_page" }),
        previous_revision < u64::MAX && revision == previous_revision + 1 ==> res == Ok::<
            RevisionWrite,
            StorageError,
        >(if previous_revision == 0 { RevisionWrite::Insert } else { RevisionWrite::Update }),
{
    if previous_revision == u64::MAX {
        return Err(StorageError::IntegerOutOfRange { field: "knowledge.revision" });
    }
    if revision != previous_revision + 1 {
        return Err(StorageError::StaleRevision { aggregate: "knowledge_page" });
    }
    if previous_revision == 0 {
        Ok(RevisionWrite::Insert)
    } else {
        Ok(RevisionWrite::Update)
    }
}

/// A head write must touch exactly one row.
pub fn knowledge_head_written(rows_affected: u64) -> (res: Result<(), StorageError>)
    ensures
        rows_affected == 1 ==> res is Ok,
        rows_affected != 1 ==> res == Err::<(), StorageError>(
            StorageError::StaleRevision { aggregate: "knowledge_page" },
        ),
{
    if rows_affected != 1 {
        Err(StorageError::StaleRevision { aggregate: "knowledge_page" })
    } else {
        Ok(())
    }
}

/// How a derived memory revision is written.
#[derive(Clone, Copy, Debug, PartialEq, Eq, Structural)]
pub enum DerivedMemoryWrite {
    /// The stored entry is exactly this one: an exact retry writes nothing.
    Unchanged,
    /// Revision one creates the entry.
    Insert,
    /// The successor of the stored revision updates the entry.
    Update,
}

/// The stored head of a derived memory entry, compared with a new revision.
#[derive(Clone, Copy, Debug)]
pub struct StoredMemoryHead {
    /// The stored revision.
    pub revision: u64,
    /// The stored entry equals the new one in every field.
    pub identical: bool,
    /// The stored entry has the same subject (scope and Task) as the new one.
    pub same_subject: bool,
}

/// Exact retries are no-ops; changed content under an existing immutable
/// revision, a changed subject, or a revision that is not the direct
/// successor is refused. Without a stored entry only revision one is accepted.
pub fn derived_memory_write(previous: Option<StoredMemoryHead>, revision: u64) -> (res: Result<
    DerivedMemoryWrite,
    StorageError,
>)
    ensures
        previous is None && revision == 1 ==> res == Ok::<DerivedMemoryWrite, StorageError>(
            DerivedMemoryWrite::Insert,
        ),
        previous is None && revision != 1 ==> res == Err::<DerivedMemoryWrite, StorageError>(
            StorageError::StaleRevision { aggregate: "derived_memory" },
        ),
        previous matches Some(p) && p.identical ==> res == Ok::<DerivedMemoryWrite, StorageError>(
            DerivedMemoryWrite::Unchanged,
        ),
        previous matches Some(p) && !p.identical && !p.same_subject ==> res == Err::<
            DerivedMemoryWrite,
            StorageError,
        >(StorageError::StaleRevision { aggregate: "derived_memory" }),
        previous matches Some(p) && !p.identical && p.same_subject && p.revision == u64::MAX ==> res
            == Err::<DerivedMemoryWrite, StorageError>(
            StorageError::IntegerOutOfRange { field: "memory.revision" },
        ),
        previous matches Some(p) && !p.identical && p.same_subject && p.revision < u64::MAX
            && revision != p.revision + 1 ==> res == Err::<DerivedMemoryWrite, StorageError>(
            StorageError::StaleRevision { aggregate: "derived_memory" },
        ),
        previous matches Some(p) && !p.identical && p.same_subject && p.revision < u64::MAX
            && revision == p.revision + 1 ==> res == Ok::<DerivedMemoryWrite, StorageError>(
            DerivedMemoryWrite::Update,
        ),
{
    match previous {
        None => {
            if revision != 1 {
                Err(StorageError::StaleRevision { aggregate: "derived_memory" })
            } else {
                Ok(DerivedMemoryWrite::Insert)
            }
        },
        Some(p) => {
            if p.identical {
                return Ok(DerivedMemoryWrite::Unchanged);
            }
            if !p.same_subject {
                return Err(StorageError::StaleRevision { aggregate: "derived_memory" });
            }
            match p.revision.checked_add(1) {
                None => Err(StorageError::IntegerOutOfRange { field: "memory.revision" }),
                Some(next) => if revision != next {
                    Err(StorageError::StaleRevision { aggregate: "derived_memory" })
                } else {
                    Ok(DerivedMemoryWrite::Update)
                },
            }
        },
    }
}

/// A derived memory head write must touch exactly one row; otherwise another
/// writer moved the revision first.
pub fn derived_memory_head_written(rows_affected: u64) -> (res: Result<(), StorageError>)
    ensures
        rows_affected == 1 ==> res is Ok,
        rows_affected != 1 ==> res == Err::<(), StorageError>(
            StorageError::StaleRevision { aggregate: "derived_memory" },
        ),
{
    if rows_affected != 1 {
        Err(StorageError::StaleRevision { aggregate: "derived_memory" })
    } else {
        Ok(())
    }
}

} // verus!
