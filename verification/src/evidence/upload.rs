//! Object-store adapter rules: configuration checks and the meaning of a
//! conditional create. The object store calls themselves are made by the caller.
use vstd::prelude::*;

use super::files::{content_matches, validate_bytes};
use super::EvidenceError;

verus! {

/// Explicit credentials/configuration for the storage adapter. This type does
/// not implement Debug or serialization, so secrets cannot enter diagnostics.
pub struct S3EvidenceConfig {
    /// `https://` endpoint (or `http://` with `allow_http`).
    pub endpoint: String,
    /// Region name.
    pub region: String,
    /// Bucket name.
    pub bucket: String,
    /// Access key identity.
    pub access_key_id: String,
    /// Secret access key.
    pub secret_access_key: String,
    /// Explicit opt-in for the loopback MinIO deployment.
    pub allow_http: bool,
}

/// `p` is a byte prefix of `s`.
pub open spec fn bytes_prefix(s: Seq<u8>, p: Seq<u8>) -> bool {
    p.len() <= s.len() && s.subrange(0, p.len() as int) == p
}

/// `https://` as bytes.
pub open spec fn https_scheme() -> Seq<u8> {
    seq![0x68u8, 0x74u8, 0x74u8, 0x70u8, 0x73u8, 0x3au8, 0x2fu8, 0x2fu8]
}

/// `http://` as bytes.
pub open spec fn http_scheme() -> Seq<u8> {
    seq![0x68u8, 0x74u8, 0x74u8, 0x70u8, 0x3au8, 0x2fu8, 0x2fu8]
}

/// An endpoint carries no userinfo, query or fragment (`@`, `?`, `#`), and
/// uses `https://`, or `http://` when HTTP was explicitly allowed.
pub open spec fn endpoint_valid(endpoint: Seq<u8>, allow_http: bool) -> bool {
    &&& forall|i: int|
        0 <= i < endpoint.len() ==> #[trigger] endpoint[i] != 0x40u8 && endpoint[i] != 0x3fu8
            && endpoint[i] != 0x23u8
    &&& (bytes_prefix(endpoint, https_scheme()) || (allow_http && bytes_prefix(
        endpoint,
        http_scheme(),
    )))
}

/// A usable configuration: all names and credentials non-empty and a valid endpoint.
pub open spec fn config_valid(config: &S3EvidenceConfig) -> bool {
    &&& config.access_key_id@.len() > 0
    &&& config.secret_access_key@.len() > 0
    &&& config.bucket@.len() > 0
    &&& config.region@.len() > 0
    &&& endpoint_valid(vstd::utf8::encode_utf8(config.endpoint@), config.allow_http)
}

fn has_byte_prefix(s: &[u8], p: &[u8]) -> (res: bool)
    ensures
        res == bytes_prefix(s@, p@),
{
    if p.len() > s.len() {
        return false;
    }
    let mut i: usize = 0;
    while i < p.len()
        invariant
            p@.len() <= s@.len(),
            i <= p@.len(),
            forall|k: int| 0 <= k < i ==> s@[k] == p@[k],
        decreases p@.len() - i,
    {
        if s[i] != p[i] {
            assert(s@.subrange(0, p@.len() as int)[i as int] != p@[i as int]);
            return false;
        }
        i += 1;
    }
    assert(s@.subrange(0, p@.len() as int) =~= p@);
    true
}

/// Checks an S3 configuration before a client is built from it.
pub fn s3_config_is_valid(config: &S3EvidenceConfig) -> (res: bool)
    ensures
        res == config_valid(config),
{
    if config.access_key_id.as_str().is_empty() || config.secret_access_key.as_str().is_empty()
        || config.bucket.as_str().is_empty() || config.region.as_str().is_empty() {
        return false;
    }
    let e = config.endpoint.as_str().as_bytes();
    let mut i: usize = 0;
    while i < e.len()
        invariant
            i <= e@.len(),
            e@ == vstd::utf8::encode_utf8(config.endpoint@),
            forall|k: int|
                0 <= k < i ==> #[trigger] e@[k] != 0x40u8 && e@[k] != 0x3fu8 && e@[k] != 0x23u8,
        decreases e@.len() - i,
    {
        if e[i] == 0x40 || e[i] == 0x3f || e[i] == 0x23 {
            assert(!(e@[i as int] != 0x40u8 && e@[i as int] != 0x3fu8 && e@[i as int] != 0x23u8));
            return false;
        }
        i += 1;
    }
    let https: [u8; 8] = [0x68, 0x74, 0x74, 0x70, 0x73, 0x3a, 0x2f, 0x2f];
    let http: [u8; 7] = [0x68, 0x74, 0x74, 0x70, 0x3a, 0x2f, 0x2f];
    assert(https@ =~= https_scheme());
    assert(http@ =~= http_scheme());
    has_byte_prefix(e, https.as_slice()) || (config.allow_http && has_byte_prefix(
        e,
        http.as_slice(),
    ))
}

/// How a conditional create (`PutMode::Create`) of an evidence object ended.
#[derive(Clone, Copy, Debug, PartialEq, Eq, Structural)]
pub enum CreateOutcome {
    /// The object was created.
    Created,
    /// An object already exists under the key.
    AlreadyExists,
    /// The store failed or did not answer in time.
    Failed,
}

/// What the uploader does after a conditional create.
#[derive(Clone, Copy, Debug, PartialEq, Eq, Structural)]
pub enum CreateFollowUp {
    /// The new object is confirmed; the Stored receipt may be returned.
    Confirmed,
    /// The existing object must be read back and compared first.
    VerifyExisting,
}

/// Immutable objects are never overwritten: an existing object is accepted
/// only after its content is verified; any other failure leaves local evidence.
pub fn create_follow_up(outcome: CreateOutcome) -> (res: Result<CreateFollowUp, EvidenceError>)
    ensures
        outcome == CreateOutcome::Created ==> res == Ok::<CreateFollowUp, EvidenceError>(
            CreateFollowUp::Confirmed,
        ),
        outcome == CreateOutcome::AlreadyExists ==> res == Ok::<CreateFollowUp, EvidenceError>(
            CreateFollowUp::VerifyExisting,
        ),
        outcome == CreateOutcome::Failed ==> res == Err::<CreateFollowUp, EvidenceError>(
            EvidenceError::ObjectStoreUnavailable,
        ),
{
    match outcome {
        CreateOutcome::Created => Ok(CreateFollowUp::Confirmed),
        CreateOutcome::AlreadyExists => Ok(CreateFollowUp::VerifyExisting),
        CreateOutcome::Failed => Err(EvidenceError::ObjectStoreUnavailable),
    }
}

/// Checks an object that already exists under an evidence key: its stored
/// size must be the receipt's before its bytes are even compared.
pub fn existing_size_matches(stored_size: u64, size_bytes: u64) -> (res: Result<(), EvidenceError>)
    ensures
        stored_size == size_bytes ==> res is Ok,
        stored_size != size_bytes ==> res == Err::<(), EvidenceError>(
            EvidenceError::IntegrityMismatch,
        ),
{
    if stored_size != size_bytes {
        Err(EvidenceError::IntegrityMismatch)
    } else {
        Ok(())
    }
}

/// Checks the bytes of an existing object against the receipt's digest.
pub fn existing_content_matches(size_bytes: u64, sha256: &String, bytes: &[u8]) -> (res: Result<
    (),
    EvidenceError,
>)
    ensures
        content_matches(size_bytes, sha256@, bytes@) ==> res is Ok,
        !content_matches(size_bytes, sha256@, bytes@) ==> res == Err::<(), EvidenceError>(
            EvidenceError::IntegrityMismatch,
        ),
{
    validate_bytes(size_bytes, sha256, bytes)
}

} // verus!
