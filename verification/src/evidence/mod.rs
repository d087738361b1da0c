//! Bounded local evidence collection: exact-byte secret redaction, chunking,
//! spool capacity accounting and content digests.
use vstd::prelude::*;
use vstd::string::StringExecFns;
use sha2::Digest;

pub mod redaction;
pub mod spool;
pub mod stream;
pub mod files;
pub mod layout;
pub mod upload;

pub use redaction::EvidenceRedaction;
pub use spool::{SpoolLimits, SpoolUsage};
pub use stream::{ChunkWrite, EvidenceCollector, SpoolAppend, SpoolIncident};

verus! {

/// Stable adapter failures: provider URLs, credentials and raw output are never
/// incorporated into error text or debug output.
#[derive(Clone, Copy, Debug, PartialEq, Eq, Structural)]
pub enum EvidenceError {
    /// Evidence configuration is invalid.
    InvalidConfiguration,
    /// Evidence scope or immutable metadata is invalid.
    InvalidMetadata,
    /// The evidence spool must be an owner-only directory without symlinks.
    UnsafeSpool,
    /// The evidence spool is already in use.
    SpoolBusy,
    /// Evidence spool I/O failed.
    SpoolIo,
    /// The evidence spool capacity was exhausted.
    SpoolCapacity,
    /// Evidence content does not match its immutable receipt.
    IntegrityMismatch,
    /// Evidence object storage is unavailable.
    ObjectStoreUnavailable,
}

/// The SHA-256 digest that `sha2::Sha256::digest` computes for some bytes.
pub uninterp spec fn sha256_of(data: Seq<u8>) -> Seq<u8>;

/// Computes SHA-256 with `sha2::Sha256::digest`. The contract names the
/// 32-byte result; the hash function itself is not restated.
#[verifier::external_body]
fn sha256(bytes: &[u8]) -> (res: Vec<u8>)
    ensures
        res@ == sha256_of(bytes@),
        res@.len() == 32,
{
    sha2::Sha256::digest(bytes).to_vec()
}

/// Lowercase hexadecimal digit of a value below 16.
pub open spec fn hex_digit(n: u8) -> char {
    if n < 10 {
        (48 + n) as char
    } else {
        (87 + n) as char
    }
}

/// Lowercase hexadecimal text of some bytes, two digits per byte.
pub open spec fn hex(data: Seq<u8>) -> Seq<char>
    decreases data.len(),
{
    if data.len() == 0 {
        Seq::empty()
    } else {
        hex(data.drop_last()) + seq![hex_digit(data.last() >> 4u8), hex_digit(data.last() & 0xfu8)]
    }
}

/// The one-character text of a hexadecimal digit.
fn hex_text(n: u8) -> (res: &'static str)
    requires
        n < 16,
    ensures
        res@ == seq![hex_digit(n)],
{
    proof {
        reveal_strlit("0");
        reveal_strlit("1");
        reveal_strlit("2");
        reveal_strlit("3");
        reveal_strlit("4");
        reveal_strlit("5");
        reveal_strlit("6");
        reveal_strlit("7");
        reveal_strlit("8");
        reveal_strlit("9");
        reveal_strlit("a");
        reveal_strlit("b");
        reveal_strlit("c");
        reveal_strlit("d");
        reveal_strlit("e");
        reveal_strlit("f");
    }
    let res = match n {
        0 => "0",
        1 => "1",
        2 => "2",
        3 => "3",
        4 => "4",
        5 => "5",
        6 => "6",
        7 => "7",
        8 => "8",
        9 => "9",
        10 => "a",
        11 => "b",
        12 => "c",
        13 => "d",
        14 => "e",
        _ => "f",
    };
    assert(res@ =~= seq![hex_digit(n)]);
    res
}

/// The lowercase hexadecimal SHA-256 digest of some bytes, as recorded in
/// evidence receipts.
pub fn digest(bytes: &[u8]) -> (res: String)
    ensures
        res@ == hex(sha256_of(bytes@)),
{
    let sum = sha256(bytes);
    let mut res = String::new();
    let mut i: usize = 0;
    while i < sum.len()
        invariant
            i <= sum@.len(),
            res@ == hex(sum@.subrange(0, i as int)),
        decreases sum@.len() - i,
    {
        let b = sum[i];
        assert(b >> 4u8 < 16u8 && b & 0xfu8 < 16u8) by (bit_vector);
        res.append(hex_text(b >> 4));
        res.append(hex_text(b & 0xf));
        proof {
            assert(sum@.subrange(0, i + 1).drop_last() =~= sum@.subrange(0, i as int));
            assert(res@ =~= hex(sum@.subrange(0, i + 1)));
        }
        i += 1;
    }
    assert(sum@.subrange(0, sum@.len() as int) =~= sum@);
    res
}

} // verus!
