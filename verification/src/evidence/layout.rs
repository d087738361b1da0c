//! On-disk layout of the local evidence spool: one owner-only directory per
//! Run, named by the Run's UUID, holding `<id>.chunk` redacted bodies and their
//! `<id>.json` receipts. A receipt is written only after its body is durable.
use vstd::prelude::*;
use vstd::seq_lib::*;
use vstd::string::StringExecFns;

use super::{hex_digit, hex_text, EvidenceError};
use super::files::{ascii_control, object_path_accepts, segments_valid};

verus! {

broadcast use vstd::seq_lib::group_seq_properties;

/// Byte `i` (0 = most significant) of a UUID held as its big-endian 128-bit value.
pub open spec fn uuid_byte(bits: u128, i: int) -> u8 {
    ((bits >> ((120 - 8 * i) as u128)) & 0xffu128) as u8
}

/// The first `n` bytes of a UUID in hyphenated lowercase form: two hex digits
/// per byte, with a hyphen before bytes 4, 6, 8 and 10.
pub open spec fn uuid_text_prefix(bits: u128, n: nat) -> Seq<char>
    decreases n,
{
    if n == 0 {
        Seq::empty()
    } else {
        let i = n - 1;
        let b = uuid_byte(bits, i);
        uuid_text_prefix(bits, (n - 1) as nat) + (if i == 4 || i == 6 || i == 8 || i == 10 {
            seq!['-']
        } else {
            Seq::empty()
        }) + seq![hex_digit(b >> 4u8), hex_digit(b & 0xfu8)]
    }
}

/// The hyphenated lowercase text of a UUID (`Uuid`'s `Display`), 8-4-4-4-12
/// hex digits.
pub open spec fn uuid_text(bits: u128) -> Seq<char> {
    uuid_text_prefix(bits, 16)
}

/// Writes a UUID in hyphenated lowercase form.
pub fn uuid_string(bits: u128) -> (res: String)
    ensures
        res@ == uuid_text(bits),
{
    proof {
        reveal_strlit("-");
        assert("-"@ =~= seq!['-']);
    }
    let mut res = String::new();
    let mut i: usize = 0;
    while i < 16
        invariant
            i <= 16,
            "-"@ == seq!['-'],
            res@ == uuid_text_prefix(bits, i as nat),
        decreases 16 - i,
    {
        let shift: u128 = 120 - 8 * (i as u128);
        let b: u8 = ((bits >> shift) & 0xffu128) as u8;
        assert(b == uuid_byte(bits, i as int));
        let ghost before = res@;
        if i == 4 || i == 6 || i == 8 || i == 10 {
            res.append("-");
        }
        assert(res@ == before + (if i == 4 || i == 6 || i == 8 || i == 10 {
            seq!['-']
        } else {
            Seq::<char>::empty()
        }));
        assert(b >> 4u8 < 16u8 && b & 0xfu8 < 16u8) by (bit_vector);
        let ghost mid = res@;
        res.append(hex_text(b >> 4u8));
        res.append(hex_text(b & 0xfu8));
        assert(res@ == mid + seq![hex_digit(b >> 4u8), hex_digit(b & 0xfu8)]);
        i += 1;
    }
    res
}

/// Name of the spool directory of a Run.
pub fn run_directory_name(run_id: u128) -> (res: String)
    ensures
        res@ == uuid_text(run_id),
{
    uuid_string(run_id)
}

/// File name of a redacted chunk body.
pub fn chunk_file_name(id: u128) -> (res: String)
    ensures
        res@ == uuid_text(id) + ".chunk"@,
{
    let mut res = uuid_string(id);
    res.append(".chunk");
    res
}

/// File name of a chunk's immutable receipt.
pub fn receipt_file_name(id: u128) -> (res: String)
    ensures
        res@ == uuid_text(id) + ".json"@,
{
    let mut res = uuid_string(id);
    res.append(".json");
    res
}

/// Largest body a pending receipt may describe.
pub const MAX_PENDING_CHUNK_BYTES: u64 = 1048576;

/// What a stored receipt says about its chunk.
#[derive(Clone, Copy, Debug)]
pub struct PendingReceipt {
    /// The receipt is still in the pending-upload location.
    pub pending_upload: bool,
    /// Body size the receipt commits to.
    pub size_bytes: u64,
    /// Run the evidence belongs to.
    pub run_id: u128,
    /// Evidence object identity.
    pub id: u128,
}

/// A receipt found at `<directory>/<stem>.json` is a pending local chunk only
/// if it is still pending upload, describes at most one MiB, and sits in its
/// own Run's directory under its own identity.
pub open spec fn pending_entry_consistent(directory: Seq<char>, stem: Seq<char>, receipt: PendingReceipt) -> bool {
    &&& receipt.pending_upload
    &&& receipt.size_bytes <= MAX_PENDING_CHUNK_BYTES
    &&& directory == uuid_text(receipt.run_id)
    &&& stem == uuid_text(receipt.id)
}

/// Checks where a receipt was found against what it says; any mismatch is
/// invalid metadata, never a completed chunk.
pub fn check_pending_entry(directory: &str, stem: &str, receipt: &PendingReceipt) -> (res: Result<
    (),
    EvidenceError,
>)
    ensures
        res is Ok <==> pending_entry_consistent(directory@, stem@, *receipt),
        res is Err ==> res == Err::<(), EvidenceError>(EvidenceError::InvalidMetadata),
{
    if !receipt.pending_upload || receipt.size_bytes > MAX_PENDING_CHUNK_BYTES {
        return Err(EvidenceError::InvalidMetadata);
    }
    let run = uuid_string(receipt.run_id);
    let id = uuid_string(receipt.id);
    if !crate::text::text_equals(directory, run.as_str()) || !crate::text::text_equals(
        stem,
        id.as_str(),
    ) {
        return Err(EvidenceError::InvalidMetadata);
    }
    Ok(())
}

/// Order of pending chunks: by creation time (Unix nanoseconds), then identity.
pub open spec fn pending_key_le(a: (i128, u128), b: (i128, u128)) -> bool {
    a.0 < b.0 || (a.0 == b.0 && a.1 <= b.1)
}

/// The ordering key of a pending entry.
pub open spec fn pending_key<T>(entry: (i128, u128, T)) -> (i128, u128) {
    (entry.0, entry.1)
}

/// Entries in non-decreasing key order.
pub open spec fn pending_sorted<T>(entries: Seq<(i128, u128, T)>) -> bool {
    forall|a: int, b: int|
        0 <= a < b < entries.len() ==> pending_key_le(
            pending_key(#[trigger] entries[a]),
            pending_key(#[trigger] entries[b]),
        )
}

/// Orders pending entries (creation time, identity, payload) as they are
/// handed to the uploader: a stable sort by creation time, then identity.
pub fn sort_pending<T>(entries: Vec<(i128, u128, T)>) -> (res: Vec<(i128, u128, T)>)
    ensures
        pending_sorted(res@),
        res@.to_multiset() == entries@.to_multiset(),
{
    broadcast use vstd::multiset::group_multiset_axioms;

    let ghost input = entries@;
    let mut rest = entries;
    let mut sorted: Vec<(i128, u128, T)> = Vec::new();
    proof {
        assert(sorted@.to_multiset() =~= vstd::multiset::Multiset::empty());
    }
    while rest.len() > 0
        invariant
            pending_sorted(sorted@),
            sorted@.to_multiset().add(rest@.to_multiset()) == input.to_multiset(),
        decreases rest@.len(),
    {
        let ghost old_rest = rest@;
        let ghost old_sorted = sorted@;
        let e = rest.remove(0);
        let mut j: usize = 0;
        while j < sorted.len() && (sorted[j].0 < e.0 || (sorted[j].0 == e.0 && sorted[j].1 <= e.1))
            invariant
                j <= sorted@.len(),
                sorted@ == old_sorted,
                forall|k: int|
                    0 <= k < j ==> pending_key_le(pending_key(#[trigger] sorted@[k]), pending_key(e)),
            decreases sorted@.len() - j,
        {
            j += 1;
        }
        proof {
            assert forall|k: int| j <= k < sorted@.len() implies !pending_key_le(
                pending_key(#[trigger] sorted@[k]),
                pending_key(e),
            ) by {
                assert(pending_key_le(pending_key(sorted@[j as int]), pending_key(sorted@[k]))
                    || j == k);
            }
        }
        sorted.insert(j, e);
        proof {
            to_multiset_insert(old_sorted, j as int, e);
            to_multiset_remove(old_rest, 0);
            assert(old_rest[0] == e);
            assert forall|a: int, b: int| 0 <= a < b < sorted@.len() implies pending_key_le(
                pending_key(#[trigger] sorted@[a]),
                pending_key(#[trigger] sorted@[b]),
            ) by {
                if a < j && b < j {
                    assert(old_sorted[a] == sorted@[a]);
                    assert(old_sorted[b] == sorted@[b]);
                } else if a < j && b == j {
                    assert(old_sorted[a] == sorted@[a]);
                } else if a < j {
                    assert(old_sorted[a] == sorted@[a]);
                    assert(old_sorted[b - 1] == sorted@[b]);
                } else if a == j {
                    assert(old_sorted[b - 1] == sorted@[b]);
                } else {
                    assert(old_sorted[a - 1] == sorted@[a]);
                    assert(old_sorted[b - 1] == sorted@[b]);
                }
            }
            assert(sorted@.to_multiset().add(rest@.to_multiset()) =~= input.to_multiset());
        }
    }
    proof {
        assert(rest@.to_multiset() =~= vstd::multiset::Multiset::empty());
        assert(sorted@.to_multiset().add(rest@.to_multiset()) =~= sorted@.to_multiset());
    }
    sorted
}

/// Owner-only permissions: `0o700` for a directory, `0o600` for a file.
pub open spec fn owner_only_mode(mode: u32, directory: bool) -> bool {
    (mode & 0o777u32) == if directory {
        0o700u32
    } else {
        0o600u32
    }
}

/// What `symlink_metadata` reported for a spool path.
#[derive(Clone, Copy, Debug)]
pub struct SpoolEntryMetadata {
    /// Owning user.
    pub uid: u32,
    /// Permission bits and file type bits.
    pub mode: u32,
    /// The entry is a real directory (not a symlink).
    pub is_dir: bool,
    /// The entry is a regular file (not a symlink).
    pub is_file: bool,
    /// Number of hard links.
    pub nlink: u64,
}

/// A spool entry is safe when the current user owns it with owner-only
/// permissions and it is a real directory, or a regular file with one link.
pub open spec fn spool_entry_safe(meta: SpoolEntryMetadata, effective_uid: u32, directory: bool) -> bool {
    &&& meta.uid == effective_uid
    &&& owner_only_mode(meta.mode, directory)
    &&& if directory {
        meta.is_dir
    } else {
        meta.is_file && meta.nlink == 1
    }
}

/// Checks the ownership, permissions and kind of a spool entry.
pub fn check_spool_entry(meta: &SpoolEntryMetadata, effective_uid: u32, directory: bool) -> (res:
    Result<(), EvidenceError>)
    ensures
        res is Ok <==> spool_entry_safe(*meta, effective_uid, directory),
        res is Err ==> res == Err::<(), EvidenceError>(EvidenceError::UnsafeSpool),
{
    let expected: u32 = if directory {
        0o700
    } else {
        0o600
    };
    let kind_ok = if directory {
        meta.is_dir
    } else {
        meta.is_file && meta.nlink == 1
    };
    if meta.uid != effective_uid || meta.mode & 0o777 != expected || !kind_ok {
        return Err(EvidenceError::UnsafeSpool);
    }
    Ok(())
}


/// A character that can sit anywhere inside an object-key segment: not the
/// delimiter, not a dot, not an ASCII control character.
pub open spec fn inner_key_char(c: char) -> bool {
    c != '/' && c != '.' && !ascii_control(c)
}

proof fn lemma_hex_digit_is_inner(n: u8)
    requires
        n < 16,
    ensures
        inner_key_char(hex_digit(n)),
{
    if n < 10 {
        assert((hex_digit(n) as u32) == 48 + n);
    } else {
        assert((hex_digit(n) as u32) == 87 + n);
    }
}


proof fn lemma_uuid_text_is_inner(bits: u128, n: nat)
    requires
        n <= 16,
    ensures
        forall|i: int|
            0 <= i < uuid_text_prefix(bits, n).len() ==> inner_key_char(
                #[trigger] uuid_text_prefix(bits, n)[i],
            ),
        n > 0 ==> uuid_text_prefix(bits, n).len() > 0,
    decreases n,
{
    if n > 0 {
        lemma_uuid_text_is_inner(bits, (n - 1) as nat);
        let k = n - 1;
        let b = uuid_byte(bits, k);
        assert(b >> 4u8 < 16u8 && b & 0xfu8 < 16u8) by (bit_vector);
        lemma_hex_digit_is_inner(b >> 4u8);
        lemma_hex_digit_is_inner(b & 0xfu8);
        assert(('-' as u32) == 45);
        let prev = uuid_text_prefix(bits, (n - 1) as nat);
        let mid: Seq<char> = if k == 4 || k == 6 || k == 8 || k == 10 {
            seq!['-']
        } else {
            Seq::empty()
        };
        let tail = seq![hex_digit(b >> 4u8), hex_digit(b & 0xfu8)];
        assert(uuid_text_prefix(bits, n) == prev + mid + tail);
        assert forall|i: int|
            0 <= i < uuid_text_prefix(bits, n).len() implies inner_key_char(
            #[trigger] uuid_text_prefix(bits, n)[i],
        ) by {
            if i < prev.len() {
                assert(uuid_text_prefix(bits, n)[i] == prev[i]);
            } else if i < prev.len() + mid.len() {
                assert(uuid_text_prefix(bits, n)[i] == mid[i - prev.len()]);
            } else {
                assert(uuid_text_prefix(bits, n)[i] == tail[i - prev.len() - mid.len()]);
            }
        }
    }
}

/// A non-empty text without delimiters or control characters that does not
/// start with a dot is one valid object-key segment.
proof fn lemma_single_segment(t: Seq<char>)
    requires
        t.len() > 0,
        t[0] != '.',
        forall|i: int| 0 <= i < t.len() ==> (#[trigger] t[i]) != '/' && !ascii_control(t[i]),
    ensures
        segments_valid(t),
{
    assert(t.last() == t[t.len() - 1]);
}

/// Two valid keys joined by one delimiter form a valid key.
proof fn lemma_join_segments(a: Seq<char>, b: Seq<char>)
    requires
        segments_valid(a),
        segments_valid(b),
    ensures
        segments_valid(a + seq!['/'] + b),
{
    let t = a + seq!['/'] + b;
    let n: int = a.len() as int;
    assert(t[n] == '/');
    assert forall|i: int| 0 <= i < t.len() implies (i < n ==> t[i] == a[i]) && (i > n ==> t[i] == b[i
        - n - 1]) by {}
    assert(t[0] == a[0]);
    assert(t.last() == b.last());
    assert forall|i: int| 0 <= i < t.len() - 1 implies !(#[trigger] t[i] == '/' && t[i + 1] == '/') by {
        if i < n - 1 {
            assert(t[i] == a[i] && t[i + 1] == a[i + 1]);
        } else if i == n - 1 {
            assert(t[i] == a.last());
        } else if i == n {
            assert(t[i + 1] == b[0]);
        } else {
            assert(t[i] == b[i - n - 1] && t[i + 1] == b[i - n]);
        }
    }
    assert forall|i: int| 0 <= i < t.len() implies !ascii_control(#[trigger] t[i]) by {
        if i < n {
            assert(t[i] == a[i]);
        } else if i > n {
            assert(t[i] == b[i - n - 1]);
        } else {
            assert(('/' as u32) == 47);
        }
    }
    assert forall|i: int|
        0 <= i < t.len() && #[trigger] t[i] == '.' && (i == 0 || t[i - 1] == '/') implies {
        &&& i + 1 < t.len() && t[i + 1] != '/'
        &&& (t[i + 1] == '.' ==> i + 2 < t.len() && t[i + 2] != '/')
    } by {
        if i < n {
            assert(t[i] == a[i]);
            if i > 0 {
                assert(t[i - 1] == a[i - 1]);
            }
            assert(i + 1 < n);
            assert(t[i + 1] == a[i + 1]);
            if a[i + 1] == '.' {
                assert(i + 2 < n);
                assert(t[i + 2] == a[i + 2]);
            }
        } else {
            assert(i > n);
            let j = i - n - 1;
            assert(t[i] == b[j]);
            if j > 0 {
                assert(t[i - 1] == b[j - 1]);
            }
            assert(j + 1 < b.len());
            assert(t[i + 1] == b[j + 1]);
            if b[j + 1] == '.' {
                assert(t[i + 2] == b[j + 2]);
            }
        }
    }
}

/// The output stream a chunk belongs to.
#[derive(Clone, Copy, Debug, PartialEq, Eq, Structural)]
pub enum ChunkStream {
    Stdout,
    Stderr,
}

/// The name of a stream inside object keys.
pub open spec fn stream_text(stream: ChunkStream) -> Seq<char> {
    match stream {
        ChunkStream::Stdout => "stdout"@,
        ChunkStream::Stderr => "stderr"@,
    }
}

/// Object key of an uploaded chunk:
/// `evidence/<project>/<run>/<stream>/<id>.chunk`, each identity in
/// hyphenated lowercase UUID form.
pub open spec fn evidence_key_text(project_id: u128, run_id: u128, stream: ChunkStream, id: u128) -> Seq<
    char,
> {
    "evidence"@ + seq!['/'] + uuid_text(project_id) + seq!['/'] + uuid_text(run_id) + seq!['/']
        + stream_text(stream) + seq!['/'] + uuid_text(id) + ".chunk"@
}

/// Builds the object key of an uploaded chunk; the object store always accepts it.
pub fn evidence_object_key(project_id: u128, run_id: u128, stream: ChunkStream, id: u128) -> (res:
    String)
    ensures
        res@ == evidence_key_text(project_id, run_id, stream, id),
        object_path_accepts(res@),
{
    proof {
        reveal_strlit("evidence");
        reveal_strlit("/");
        reveal_strlit("stdout");
        reveal_strlit("stderr");
        reveal_strlit(".chunk");
        assert("/"@ =~= seq!['/']);
    }
    let mut res = String::new();
    res.append("evidence");
    res.append("/");
    res.append(uuid_string(project_id).as_str());
    res.append("/");
    res.append(uuid_string(run_id).as_str());
    res.append("/");
    match stream {
        ChunkStream::Stdout => res.append("stdout"),
        ChunkStream::Stderr => res.append("stderr"),
    }
    res.append("/");
    res.append(chunk_file_name(id).as_str());
    proof {
        assert(res@ =~= evidence_key_text(project_id, run_id, stream, id));
        lemma_evidence_key_is_accepted(project_id, run_id, stream, id);
    }
    res
}

/// Every chunk key passes `object_store::path::Path::parse`.
proof fn lemma_evidence_key_is_accepted(project_id: u128, run_id: u128, stream: ChunkStream, id: u128)
    ensures
        object_path_accepts(evidence_key_text(project_id, run_id, stream, id)),
{
    reveal_strlit("evidence");
    reveal_strlit("stdout");
    reveal_strlit("stderr");
    reveal_strlit(".chunk");
    assert(('e' as u32) == 101 && ('v' as u32) == 118 && ('i' as u32) == 105 && ('d' as u32) == 100
        && ('n' as u32) == 110 && ('c' as u32) == 99 && ('s' as u32) == 115 && ('t' as u32) == 116
        && ('o' as u32) == 111 && ('u' as u32) == 117 && ('r' as u32) == 114 && ('h' as u32) == 104
        && ('k' as u32) == 107 && ('.' as u32) == 46);
    lemma_single_segment("evidence"@);
    lemma_uuid_text_is_inner(project_id, 16);
    lemma_uuid_text_is_inner(run_id, 16);
    lemma_uuid_text_is_inner(id, 16);
    lemma_single_segment(uuid_text(project_id));
    lemma_single_segment(uuid_text(run_id));
    lemma_single_segment(stream_text(stream));
    let last = uuid_text(id) + ".chunk"@;
    assert forall|i: int| 0 <= i < last.len() implies (#[trigger] last[i]) != '/' && !ascii_control(
        last[i],
    ) by {
        if i < uuid_text(id).len() {
            assert(last[i] == uuid_text(id)[i]);
        } else {
            assert(last[i] == ".chunk"@[i - uuid_text(id).len()]);
        }
    }
    assert(last[0] == uuid_text(id)[0]);
    lemma_single_segment(last);
    let k1 = "evidence"@ + seq!['/'] + uuid_text(project_id);
    lemma_join_segments("evidence"@, uuid_text(project_id));
    let k2 = k1 + seq!['/'] + uuid_text(run_id);
    lemma_join_segments(k1, uuid_text(run_id));
    let k3 = k2 + seq!['/'] + stream_text(stream);
    lemma_join_segments(k2, stream_text(stream));
    let k4 = k3 + seq!['/'] + last;
    lemma_join_segments(k3, last);
    let key = evidence_key_text(project_id, run_id, stream, id);
    assert(key =~= k4);
    assert(key[0] == 'e');
    assert(key.last() == 'k');
}


/// A release names exactly the chunk the spool holds: the Stored receipt is
/// the pending receipt moved to the stored location, and the body sits at
/// `<root>/<run>/<id>.chunk` (`parent_is_root`: the directory holding the
/// Run directory is the spool root).
pub open spec fn release_target_valid(
    stored_is_pending_stored: bool,
    parent_is_root: bool,
    directory: Seq<char>,
    file: Seq<char>,
    run_id: u128,
    id: u128,
) -> bool {
    &&& stored_is_pending_stored
    &&& parent_is_root
    &&& directory == uuid_text(run_id)
    &&& file == uuid_text(id) + ".chunk"@
}

/// Checks that an upload acknowledgement releases the right local chunk;
/// anything else is invalid metadata and deletes nothing.
pub fn check_release_target(
    stored_is_pending_stored: bool,
    parent_is_root: bool,
    directory: &str,
    file: &str,
    run_id: u128,
    id: u128,
) -> (res: Result<(), EvidenceError>)
    ensures
        res is Ok <==> release_target_valid(
            stored_is_pending_stored,
            parent_is_root,
            directory@,
            file@,
            run_id,
            id,
        ),
        res is Err ==> res == Err::<(), EvidenceError>(EvidenceError::InvalidMetadata),
{
    if !stored_is_pending_stored || !parent_is_root {
        return Err(EvidenceError::InvalidMetadata);
    }
    let run = run_directory_name(run_id);
    let chunk = chunk_file_name(id);
    if !crate::text::text_equals(directory, run.as_str()) || !crate::text::text_equals(
        file,
        chunk.as_str(),
    ) {
        return Err(EvidenceError::InvalidMetadata);
    }
    Ok(())
}

} // verus!
