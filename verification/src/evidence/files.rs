//! Byte-preserving snapshot bodies are checked against their immutable size and
//! digest on every write and read; they never pass through redaction.
use vstd::prelude::*;

use super::{EvidenceError, digest, hex, sha256_of};

verus! {

/// An ASCII control character (`char::is_ascii_control`): U+0000..=U+001F or U+007F.
pub open spec fn ascii_control(c: char) -> bool {
    (c as u32) <= 0x1f || (c as u32) == 0x7f
}

/// `t` (non-empty) split at `/` yields only segments that are non-empty, not
/// `.` or `..`, and free of ASCII control characters.
pub open spec fn segments_valid(t: Seq<char>) -> bool {
    &&& t.len() > 0
    &&& t[0] != '/'
    &&& t.last() != '/'
    &&& forall|i: int| 0 <= i < t.len() - 1 ==> !(#[trigger] t[i] == '/' && t[i + 1] == '/')
    &&& forall|i: int| 0 <= i < t.len() ==> !ascii_control(#[trigger] t[i])
    &&& forall|i: int|
        0 <= i < t.len() && #[trigger] t[i] == '.' && (i == 0 || t[i - 1] == '/') ==> {
            &&& i + 1 < t.len() && t[i + 1] != '/'
            &&& (t[i + 1] == '.' ==> i + 2 < t.len() && t[i + 2] != '/')
        }
}

/// Whether `object_store::path::Path::parse` accepts a key: one leading `/`
/// is dropped; an empty remainder is the root; otherwise one trailing `/` is
/// dropped and every `/`-separated segment must be valid.
pub open spec fn object_path_accepts(key: Seq<char>) -> bool {
    let s = if key.len() > 0 && key[0] == '/' {
        key.drop_first()
    } else {
        key
    };
    if s.len() == 0 {
        true
    } else {
        let t = if s.last() == '/' {
            s.drop_last()
        } else {
            s
        };
        segments_valid(t)
    }
}

/// Asks `object_store::path::Path::parse` whether it accepts a key. Its source
/// strips one leading `/` (an empty rest is the root path), then one trailing
/// `/`, and refuses any segment that is empty, `.` or `..`, or holds an ASCII
/// control character; the contract states exactly that rule.
#[verifier::external_body]
pub(crate) fn object_path_is_valid(key: &str) -> (res: bool)
    ensures
        res == object_path_accepts(key@),
{
    object_store::path::Path::parse(key).is_ok()
}

/// `p` is a prefix of `s`.
pub open spec fn has_prefix(s: Seq<char>, p: Seq<char>) -> bool {
    p.len() <= s.len() && s.subrange(0, p.len() as int) == p
}

/// Byte content matches an immutable size and lowercase SHA-256 digest.
pub open spec fn content_matches(size_bytes: u64, sha256: Seq<char>, bytes: Seq<u8>) -> bool {
    bytes.len() == size_bytes && hex(sha256_of(bytes)) == sha256
}

/// Checks bytes against their immutable size and digest.
pub fn validate_bytes(size_bytes: u64, sha256: &String, bytes: &[u8]) -> (res: Result<
    (),
    EvidenceError,
>)
    ensures
        content_matches(size_bytes, sha256@, bytes@) ==> res is Ok,
        !content_matches(size_bytes, sha256@, bytes@) ==> res == Err::<(), EvidenceError>(
            EvidenceError::IntegrityMismatch,
        ),
{
    if bytes.len() as u64 != size_bytes {
        return Err(EvidenceError::IntegrityMismatch);
    }
    let actual = digest(bytes);
    if !(actual == *sha256) {
        return Err(EvidenceError::IntegrityMismatch);
    }
    Ok(())
}

fn key_has_prefix(key: &str, prefix: &str) -> (res: bool)
    ensures
        res == has_prefix(key@, prefix@),
{
    let n = prefix.unicode_len();
    if n > key.unicode_len() {
        return false;
    }
    let mut i: usize = 0;
    while i < n
        invariant
            n == prefix@.len(),
            n <= key@.len(),
            i <= n,
            forall|k: int| 0 <= k < i ==> key@[k] == prefix@[k],
        decreases n - i,
    {
        if key.get_char(i) != prefix.get_char(i) {
            assert(key@.subrange(0, n as int)[i as int] != prefix@[i as int]);
            return false;
        }
        i += 1;
    }
    assert(key@.subrange(0, n as int) =~= prefix@);
    true
}

/// Snapshot keys live under `file-snapshots/`, within the snapshot size limit,
/// and are accepted by the object store's path rules.
pub open spec fn snapshot_key_valid(object_key: Seq<char>, size_bytes: u64, max_bytes: u64) -> bool {
    has_prefix(object_key, "file-snapshots/"@) && size_bytes <= max_bytes && object_path_accepts(
        object_key,
    )
}

/// Validates the object key of a snapshot file before any object-store call.
pub fn snapshot_key(object_key: &str, size_bytes: u64, max_snapshot_bytes: u64) -> (res: Result<
    (),
    EvidenceError,
>)
    ensures
        snapshot_key_valid(object_key@, size_bytes, max_snapshot_bytes) ==> res is Ok,
        !snapshot_key_valid(object_key@, size_bytes, max_snapshot_bytes) ==> res == Err::<
            (),
            EvidenceError,
        >(EvidenceError::InvalidMetadata),
{
    if !key_has_prefix(object_key, "file-snapshots/") || size_bytes > max_snapshot_bytes {
        return Err(EvidenceError::InvalidMetadata);
    }
    if !object_path_is_valid(object_key) {
        return Err(EvidenceError::InvalidMetadata);
    }
    Ok(())
}

/// Checks a stored snapshot object read back from the store: its stored size
/// must be the recorded one and within the limit, and its bytes must match.
pub fn validate_stored_snapshot(
    stored_size: u64,
    size_bytes: u64,
    sha256: &String,
    max_snapshot_bytes: u64,
    bytes: &[u8],
) -> (res: Result<(), EvidenceError>)
    ensures
        (stored_size == size_bytes && stored_size <= max_snapshot_bytes && content_matches(
            size_bytes,
            sha256@,
            bytes@,
        )) ==> res is Ok,
        !(stored_size == size_bytes && stored_size <= max_snapshot_bytes && content_matches(
            size_bytes,
            sha256@,
            bytes@,
        )) ==> res == Err::<(), EvidenceError>(EvidenceError::IntegrityMismatch),
{
    if stored_size != size_bytes || stored_size > max_snapshot_bytes {
        return Err(EvidenceError::IntegrityMismatch);
    }
    validate_bytes(size_bytes, sha256, bytes)
}

} // verus!
