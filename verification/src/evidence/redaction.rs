//! Exact-byte secret redaction over a byte stream delivered in arbitrary reads.
use vstd::prelude::*;
use vstd::seq_lib::*;

use super::EvidenceError;
use zeroize::Zeroize;

verus! {

broadcast use vstd::seq_lib::group_seq_properties;

/// The bytes written in place of a redacted secret: `[redacted]`.
pub open spec fn marker() -> Seq<u8> {
    seq![0x5bu8, 0x72u8, 0x65u8, 0x64u8, 0x61u8, 0x63u8, 0x74u8, 0x65u8, 0x64u8, 0x5du8]
}

/// `p` is a prefix of `s`.
pub open spec fn starts_with(s: Seq<u8>, p: Seq<u8>) -> bool {
    p.len() <= s.len() && s.subrange(0, p.len() as int) == p
}

/// The first secret at index `from` or later that is a prefix of `r`.
pub open spec fn first_match_from(secrets: Seq<Seq<u8>>, r: Seq<u8>, from: int) -> Option<int>
    decreases secrets.len() - from,
{
    if from < 0 || from >= secrets.len() {
        None
    } else if starts_with(r, secrets[from]) {
        Some(from)
    } else {
        first_match_from(secrets, r, from + 1)
    }
}

/// The first secret (in policy order) that is a prefix of `r`.
pub open spec fn first_match(secrets: Seq<Seq<u8>>, r: Seq<u8>) -> Option<int> {
    first_match_from(secrets, r, 0)
}

/// `r` is a proper prefix of some secret: a longer match may still arrive.
pub open spec fn awaits_more(secrets: Seq<Seq<u8>>, r: Seq<u8>) -> bool {
    exists|i: int|
        0 <= i < secrets.len() && #[trigger] secrets[i].len() > r.len() && starts_with(
            secrets[i],
            r,
        )
}

/// Number of input bytes consumed by one redaction step at the start of `r`.
pub open spec fn step_len(secrets: Seq<Seq<u8>>, r: Seq<u8>) -> int {
    match first_match(secrets, r) {
        Some(i) => if secrets[i].len() > 0 {
            secrets[i].len() as int
        } else {
            1
        },
        None => 1,
    }
}

/// Output of one redaction step at the start of a non-empty `r`.
pub open spec fn step_out(secrets: Seq<Seq<u8>>, r: Seq<u8>) -> Seq<u8> {
    match first_match(secrets, r) {
        Some(_) => marker(),
        None => seq![r[0]],
    }
}

/// Whole-stream redaction: at each position the first matching secret is
/// replaced by the marker, otherwise one byte is copied.
pub open spec fn redact(secrets: Seq<Seq<u8>>, s: Seq<u8>) -> Seq<u8>
    decreases s.len(),
{
    if s.len() == 0 {
        Seq::empty()
    } else {
        proof {
            lemma_step_len_bounds(secrets, s);
        }
        step_out(secrets, s) + redact(secrets, s.skip(step_len(secrets, s)))
    }
}

/// The part of `s` whose redaction no later byte can change: steps are taken
/// until the remaining input is a proper prefix of some secret. Returns the
/// output and the number of input bytes consumed.
pub open spec fn settled(secrets: Seq<Seq<u8>>, s: Seq<u8>) -> (Seq<u8>, nat)
    decreases s.len(),
{
    if s.len() == 0 || awaits_more(secrets, s) {
        (Seq::empty(), 0)
    } else {
        proof {
            lemma_step_len_bounds(secrets, s);
        }
        let rest = settled(secrets, s.skip(step_len(secrets, s)));
        (step_out(secrets, s) + rest.0, (step_len(secrets, s) + rest.1) as nat)
    }
}

/// Secrets are sorted by non-increasing length, so the first match is a longest match.
pub open spec fn sorted_by_length_desc(secrets: Seq<Seq<u8>>) -> bool {
    forall|a: int, b: int| 0 <= a < b < secrets.len() ==> secrets[a].len() >= secrets[b].len()
}

/// Sum of the secret lengths.
pub open spec fn total_len(secrets: Seq<Seq<u8>>) -> nat
    decreases secrets.len(),
{
    if secrets.len() == 0 {
        0
    } else {
        secrets[0].len() + total_len(secrets.drop_first())
    }
}

/// A policy reference byte: ASCII letter, digit, or one of `._:/-`.
pub open spec fn reference_byte(b: u8) -> bool {
    (0x30 <= b <= 0x39) || (0x41 <= b <= 0x5a) || (0x61 <= b <= 0x7a) || b == 0x2e || b == 0x5f
        || b == 0x3a || b == 0x2f || b == 0x2d
}

/// A valid policy reference: 1..=256 bytes, all reference bytes.
pub open spec fn valid_reference(bytes: Seq<u8>) -> bool {
    0 < bytes.len() <= 256 && forall|i: int| 0 <= i < bytes.len() ==> reference_byte(#[trigger] bytes[i])
}

/// A valid secret list: at most 128 secrets of 1..=16384 bytes and 128 KiB in total.
pub open spec fn valid_secrets(secrets: Seq<Seq<u8>>) -> bool {
    &&& secrets.len() <= 128
    &&& forall|i: int| 0 <= i < secrets.len() ==> 0 < #[trigger] secrets[i].len() <= 16384
    &&& total_len(secrets) <= 128 * 1024
}

/// The views of a list of byte vectors.
pub open spec fn views(v: Seq<Vec<u8>>) -> Seq<Seq<u8>> {
    v.map_values(|x: Vec<u8>| x@)
}

/// The first match from `from` is a secret at or after `from` that starts the
/// input, with none before it from `from` on; `None` means no secret from
/// `from` on starts the input.
pub proof fn lemma_first_match_from_found(secrets: Seq<Seq<u8>>, r: Seq<u8>, from: int)
    ensures
        match first_match_from(secrets, r, from) {
            Some(i) => from <= i < secrets.len() && 0 <= i && starts_with(r, secrets[i]) && forall|
                j: int,
            |
                #![trigger secrets[j]]
                from <= j < i ==> !starts_with(r, secrets[j]),
            None => forall|j: int|
                #![trigger secrets[j]]
                0 <= from <= j < secrets.len() ==> !starts_with(r, secrets[j]),
        },
    decreases secrets.len() - from,
{
    if from < 0 || from >= secrets.len() {
    } else if starts_with(r, secrets[from]) {
    } else {
        lemma_first_match_from_found(secrets, r, from + 1);
    }
}

/// One redaction step on non-empty input consumes at least one byte and at
/// most all of it.
pub proof fn lemma_step_len_bounds(secrets: Seq<Seq<u8>>, r: Seq<u8>)
    requires
        r.len() > 0,
    ensures
        1 <= step_len(secrets, r) <= r.len(),
{
    lemma_first_match_from_found(secrets, r, 0);
}

/// With no match before `i`, the first match from `0` is the first match from `i`.
pub proof fn lemma_first_match_skip(secrets: Seq<Seq<u8>>, r: Seq<u8>, i: int)
    requires
        0 <= i <= secrets.len(),
        forall|j: int| #![trigger secrets[j]] 0 <= j < i ==> !starts_with(r, secrets[j]),
    ensures
        first_match_from(secrets, r, 0) == first_match_from(secrets, r, i),
    decreases i,
{
    if i > 0 {
        lemma_first_match_skip_from(secrets, r, 0, i);
    }
}

proof fn lemma_first_match_skip_from(secrets: Seq<Seq<u8>>, r: Seq<u8>, from: int, i: int)
    requires
        0 <= from <= i <= secrets.len(),
        forall|j: int| #![trigger secrets[j]] from <= j < i ==> !starts_with(r, secrets[j]),
    ensures
        first_match_from(secrets, r, from) == first_match_from(secrets, r, i),
    decreases i - from,
{
    if from < i {
        lemma_first_match_skip_from(secrets, r, from + 1, i);
    }
}

/// When `s` is not a proper prefix of any secret, matching at the start of `s`
/// does not depend on what follows `s`.
pub proof fn lemma_first_match_extends(secrets: Seq<Seq<u8>>, s: Seq<u8>, f: Seq<u8>, from: int)
    requires
        s.len() > 0,
        !awaits_more(secrets, s),
    ensures
        first_match_from(secrets, s + f, from) == first_match_from(secrets, s, from),
    decreases secrets.len() - from,
{
    if from < 0 || from >= secrets.len() {
    } else {
        let sec = secrets[from];
        if sec.len() <= s.len() {
            assert((s + f).subrange(0, sec.len() as int) =~= s.subrange(0, sec.len() as int));
        } else {
            if starts_with(s + f, sec) {
                assert(sec.subrange(0, s.len() as int) =~= s) by {
                    assert forall|k: int| 0 <= k < s.len() implies sec.subrange(
                        0,
                        s.len() as int,
                    )[k] == s[k] by {
                        assert((s + f).subrange(0, sec.len() as int)[k] == (s + f)[k]);
                    }
                }
                assert(secrets[from].len() > s.len() && starts_with(secrets[from], s));
                assert(false);
            }
        }
        lemma_first_match_extends(secrets, s, f, from + 1);
    }
}

proof fn lemma_step_extends(secrets: Seq<Seq<u8>>, s: Seq<u8>, f: Seq<u8>)
    requires
        s.len() > 0,
        !awaits_more(secrets, s),
    ensures
        step_len(secrets, s + f) == step_len(secrets, s),
        step_out(secrets, s + f) == step_out(secrets, s),
        (s + f).skip(step_len(secrets, s)) == s.skip(step_len(secrets, s)) + f,
{
    lemma_first_match_extends(secrets, s, f, 0);
    lemma_step_len_bounds(secrets, s);
    assert((s + f)[0] == s[0]);
    assert((s + f).skip(step_len(secrets, s)) =~= s.skip(step_len(secrets, s)) + f);
}

/// The settled part never consumes more than the input holds.
pub proof fn lemma_settled_consumed_bound(secrets: Seq<Seq<u8>>, s: Seq<u8>)
    ensures
        settled(secrets, s).1 <= s.len(),
    decreases s.len(),
{
    if s.len() == 0 || awaits_more(secrets, s) {
    } else {
        lemma_step_len_bounds(secrets, s);
        lemma_settled_consumed_bound(secrets, s.skip(step_len(secrets, s)));
    }
}

/// What remains after the settled part is empty or still awaits a longer match.
pub proof fn lemma_settled_rest_awaits(secrets: Seq<Seq<u8>>, s: Seq<u8>)
    ensures
        ({
            let rest = s.skip(settled(secrets, s).1 as int);
            rest.len() == 0 || awaits_more(secrets, rest)
        }),
    decreases s.len(),
{
    lemma_settled_consumed_bound(secrets, s);
    if s.len() == 0 || awaits_more(secrets, s) {
        assert(s.skip(0) =~= s);
    } else {
        let k = step_len(secrets, s);
        lemma_step_len_bounds(secrets, s);
        lemma_settled_rest_awaits(secrets, s.skip(k));
        lemma_settled_consumed_bound(secrets, s.skip(k));
        assert(s.skip(k).skip(settled(secrets, s.skip(k)).1 as int) =~= s.skip(
            settled(secrets, s).1 as int,
        ));
    }
}


/// A proper prefix of a secret stays one when shortened.
proof fn lemma_awaits_more_shrinks(secrets: Seq<Seq<u8>>, s: Seq<u8>, y: Seq<u8>)
    requires
        awaits_more(secrets, s + y),
    ensures
        awaits_more(secrets, s),
{
    let i = choose|i: int|
        0 <= i < secrets.len() && #[trigger] secrets[i].len() > (s + y).len() && starts_with(
            secrets[i],
            s + y,
        );
    assert(secrets[i].subrange(0, s.len() as int) =~= s) by {
        assert forall|k: int| 0 <= k < s.len() implies secrets[i].subrange(0, s.len() as int)[k]
            == s[k] by {
            assert(secrets[i].subrange(0, (s + y).len() as int)[k] == (s + y)[k]);
        }
    }
    assert(secrets[i].len() > s.len() && starts_with(secrets[i], s));
}

/// Settling a stream in two reads settles exactly what settling it at once does.
pub proof fn lemma_settled_compose(secrets: Seq<Seq<u8>>, s: Seq<u8>, y: Seq<u8>)
    ensures
        ({
            let (o1, c1) = settled(secrets, s);
            let (o2, c2) = settled(secrets, s.skip(c1 as int) + y);
            &&& o1 + o2 == settled(secrets, s + y).0
            &&& c1 + c2 == settled(secrets, s + y).1
            &&& c1 <= s.len()
        }),
    decreases s.len(),
{
    lemma_settled_consumed_bound(secrets, s);
    if s.len() == 0 {
        assert(s.skip(0) + y =~= s + y);
        assert(Seq::<u8>::empty() + settled(secrets, s + y).0 =~= settled(secrets, s + y).0);
    } else if awaits_more(secrets, s) {
        assert(s.skip(0) + y =~= s + y);
        assert(Seq::<u8>::empty() + settled(secrets, s + y).0 =~= settled(secrets, s + y).0);
    } else {
        if awaits_more(secrets, s + y) {
            lemma_awaits_more_shrinks(secrets, s, y);
        }
        let k = step_len(secrets, s);
        lemma_step_extends(secrets, s, y);
        lemma_step_len_bounds(secrets, s);
        let t = s.skip(k);
        lemma_settled_compose(secrets, t, y);
        let ct = settled(secrets, t).1;
        assert(t.skip(ct as int) =~= s.skip(settled(secrets, s).1 as int));
        assert(settled(secrets, s + y).0 == step_out(secrets, s) + settled(secrets, t + y).0);
        assert(settled(secrets, s).0 + settled(secrets, s.skip(settled(secrets, s).1 as int) + y).0
            =~= settled(secrets, s + y).0);
    }
}

/// The settled output is a fixed prefix of the redaction of every extension.
pub proof fn lemma_settled_prefix(secrets: Seq<Seq<u8>>, s: Seq<u8>, f: Seq<u8>)
    ensures
        redact(secrets, s + f) == settled(secrets, s).0 + redact(
            secrets,
            s.skip(settled(secrets, s).1 as int) + f,
        ),
    decreases s.len(),
{
    if s.len() == 0 {
        assert(s + f =~= f);
        assert(s.skip(0) + f =~= f);
        assert(settled(secrets, s).0 + redact(secrets, f) =~= redact(secrets, f));
    } else if awaits_more(secrets, s) {
        assert(s.skip(0) =~= s);
        assert(settled(secrets, s).0 + redact(secrets, s + f) =~= redact(secrets, s + f));
    } else {
        let k = step_len(secrets, s);
        lemma_step_extends(secrets, s, f);
        lemma_step_len_bounds(secrets, s);
        let t = s.skip(k);
        lemma_settled_prefix(secrets, t, f);
        lemma_settled_consumed_bound(secrets, t);
        assert(t.skip(settled(secrets, t).1 as int) =~= s.skip(settled(secrets, s).1 as int));
        assert(redact(secrets, s + f) == step_out(secrets, s) + redact(secrets, t + f));
        assert(settled(secrets, s).0 =~= step_out(secrets, s) + settled(secrets, t).0);
        assert(redact(secrets, s + f) =~= settled(secrets, s).0 + redact(
            secrets,
            s.skip(settled(secrets, s).1 as int) + f,
        ));
    }
}

/// Boundary independence: feeding `x` without finishing and then `y` with
/// finishing produces exactly the redaction of `pending + x + y`, wherever the
/// read boundary between `x` and `y` falls.
pub proof fn lemma_redaction_is_boundary_independent(
    secrets: Seq<Seq<u8>>,
    pending: Seq<u8>,
    x: Seq<u8>,
    y: Seq<u8>,
)
    ensures
        ({
            let all = pending + x;
            let (first, consumed) = settled(secrets, all);
            first + redact(secrets, all.skip(consumed as int) + y) == redact(
                secrets,
                pending + x + y,
            )
        }),
{
    lemma_settled_prefix(secrets, pending + x, y);
}

/// With policy secrets sorted by non-increasing length, the matched secret is
/// a longest secret that is a prefix of the input.
pub proof fn lemma_first_match_is_longest(secrets: Seq<Seq<u8>>, r: Seq<u8>)
    requires
        sorted_by_length_desc(secrets),
    ensures
        match first_match(secrets, r) {
            Some(i) => forall|j: int|
                0 <= j < secrets.len() && starts_with(r, #[trigger] secrets[j]) ==> secrets[j].len()
                    <= secrets[i].len(),
            None => forall|j: int|
                0 <= j < secrets.len() ==> !starts_with(r, #[trigger] secrets[j]),
        },
{
    lemma_first_match_from_found(secrets, r, 0);
}

/// One redaction step does not depend on the order of equally long secrets:
/// two longest-first orderings of the same secrets take the same step.
proof fn lemma_step_is_order_independent(a: Seq<Seq<u8>>, b: Seq<Seq<u8>>, r: Seq<u8>)
    requires
        a.to_multiset() == b.to_multiset(),
        sorted_by_length_desc(a),
        sorted_by_length_desc(b),
        r.len() > 0,
    ensures
        step_len(a, r) == step_len(b, r),
        step_out(a, r) == step_out(b, r),
{
    a.to_multiset_ensures();
    b.to_multiset_ensures();
    lemma_first_match_is_longest(a, r);
    lemma_first_match_is_longest(b, r);
    lemma_first_match_from_found(a, r, 0);
    lemma_first_match_from_found(b, r, 0);
    match first_match(a, r) {
        Some(i) => {
            assert(a.contains(a[i]));
            assert(b.to_multiset().count(a[i]) > 0);
            let j = choose|j: int| 0 <= j < b.len() && b[j] == a[i];
            assert(starts_with(r, b[j]));
            let jb = first_match(b, r).unwrap();
            assert(b.contains(b[jb]));
            assert(a.to_multiset().count(b[jb]) > 0);
            let i2 = choose|i2: int| 0 <= i2 < a.len() && a[i2] == b[jb];
            assert(starts_with(r, a[i2]));
            assert(a[i].len() == b[jb].len());
        },
        None => {
            if first_match(b, r) is Some {
                let jb = first_match(b, r).unwrap();
                assert(b.contains(b[jb]));
                assert(a.to_multiset().count(b[jb]) > 0);
                let i2 = choose|i2: int| 0 <= i2 < a.len() && a[i2] == b[jb];
                assert(starts_with(r, a[i2]));
            }
        },
    }
}

/// Redaction does not depend on the order in which a policy's secrets were
/// supplied: any two longest-first orderings of the same secrets redact every
/// stream identically.
pub proof fn lemma_redaction_is_order_independent(a: Seq<Seq<u8>>, b: Seq<Seq<u8>>, s: Seq<u8>)
    requires
        a.to_multiset() == b.to_multiset(),
        sorted_by_length_desc(a),
        sorted_by_length_desc(b),
    ensures
        redact(a, s) == redact(b, s),
    decreases s.len(),
{
    if s.len() > 0 {
        lemma_step_is_order_independent(a, b, s);
        lemma_step_len_bounds(a, s);
        lemma_redaction_is_order_independent(a, b, s.skip(step_len(a, s)));
    }
}

/// Whether input may still grow into a longer secret does not depend on the
/// order of the secrets.
proof fn lemma_awaits_more_is_order_independent(a: Seq<Seq<u8>>, b: Seq<Seq<u8>>, r: Seq<u8>)
    requires
        a.to_multiset() == b.to_multiset(),
    ensures
        awaits_more(a, r) == awaits_more(b, r),
{
    a.to_multiset_ensures();
    b.to_multiset_ensures();
    if awaits_more(a, r) {
        let i = choose|i: int|
            0 <= i < a.len() && #[trigger] a[i].len() > r.len() && starts_with(a[i], r);
        assert(a.contains(a[i]));
        assert(b.to_multiset().count(a[i]) > 0);
        let j = choose|j: int| 0 <= j < b.len() && b[j] == a[i];
        assert(b[j].len() > r.len() && starts_with(b[j], r));
    }
    if awaits_more(b, r) {
        let i = choose|i: int|
            0 <= i < b.len() && #[trigger] b[i].len() > r.len() && starts_with(b[i], r);
        assert(b.contains(b[i]));
        assert(a.to_multiset().count(b[i]) > 0);
        let j = choose|j: int| 0 <= j < a.len() && a[j] == b[i];
        assert(a[j].len() > r.len() && starts_with(a[j], r));
    }
}

/// A read that does not finish the stream releases the same output, and holds
/// back the same bytes, whatever order a policy's secrets were supplied in:
/// any two longest-first orderings of the same secrets settle every input
/// identically.
pub proof fn lemma_settled_is_order_independent(a: Seq<Seq<u8>>, b: Seq<Seq<u8>>, s: Seq<u8>)
    requires
        a.to_multiset() == b.to_multiset(),
        sorted_by_length_desc(a),
        sorted_by_length_desc(b),
    ensures
        settled(a, s) == settled(b, s),
    decreases s.len(),
{
    lemma_awaits_more_is_order_independent(a, b, s);
    if s.len() > 0 && !awaits_more(a, s) {
        lemma_step_is_order_independent(a, b, s);
        lemma_step_len_bounds(a, s);
        lemma_settled_is_order_independent(a, b, s.skip(step_len(a, s)));
    }
}

/// Checks that `needle` is a prefix of `hay[off..]`.
fn starts_with_at(hay: &[u8], off: usize, needle: &[u8]) -> (res: bool)
    requires
        off <= hay@.len(),
    ensures
        res == starts_with(hay@.skip(off as int), needle@),
{
    let n = needle.len();
    if n > hay.len() - off {
        return false;
    }
    let mut i: usize = 0;
    while i < n
        invariant
            n == needle@.len(),
            off + n <= hay.len(),
            i <= n,
            forall|k: int| 0 <= k < i ==> hay@[off + k] == needle@[k],
        decreases n - i,
    {
        if hay[off + i] != needle[i] {
            assert(hay@.skip(off as int).subrange(0, n as int)[i as int] != needle@[i as int]);
            return false;
        }
        i += 1;
    }
    assert(hay@.skip(off as int).subrange(0, n as int) =~= needle@);
    true
}

/// Checks that `hay[off..]` is a proper prefix of `secret`.
fn awaits_secret(secret: &[u8], hay: &[u8], off: usize) -> (res: bool)
    requires
        off <= hay@.len(),
    ensures
        res == (secret@.len() > hay@.skip(off as int).len() && starts_with(
            secret@,
            hay@.skip(off as int),
        )),
{
    let m = hay.len() - off;
    if secret.len() <= m {
        return false;
    }
    let mut i: usize = 0;
    while i < m
        invariant
            m == hay@.len() - off,
            off + m == hay.len(),
            m < secret@.len(),
            i <= m,
            forall|k: int| 0 <= k < i ==> secret@[k] == hay@[off + k],
        decreases m - i,
    {
        if secret[i] != hay[off + i] {
            assert(secret@.subrange(0, m as int)[i as int] != hay@.skip(off as int)[i as int]);
            return false;
        }
        i += 1;
    }
    assert(secret@.subrange(0, m as int) =~= hay@.skip(off as int));
    true
}


/// Whether `hay[off..]` is a proper prefix of some secret.
fn awaits_any(secrets: &Vec<Vec<u8>>, hay: &[u8], off: usize) -> (res: bool)
    requires
        off <= hay@.len(),
    ensures
        res == awaits_more(views(secrets@), hay@.skip(off as int)),
{
    let ghost rem = hay@.skip(off as int);
    let ghost sv = views(secrets@);
    let n = secrets.len();
    let mut i: usize = 0;
    while i < n
        invariant
            i <= n,
            n == secrets@.len(),
            sv == views(secrets@),
            off <= hay@.len(),
            rem == hay@.skip(off as int),
            forall|j: int|
                0 <= j < i ==> !(#[trigger] sv[j].len() > rem.len() && starts_with(sv[j], rem)),
        decreases n - i,
    {
        assert(sv[i as int] == secrets@[i as int]@);
        if awaits_secret(secrets[i].as_slice(), hay, off) {
            return true;
        }
        i += 1;
    }
    false
}

/// The first secret that is a prefix of `hay[off..]`.
fn find_match(secrets: &Vec<Vec<u8>>, hay: &[u8], off: usize) -> (res: Option<usize>)
    requires
        off <= hay@.len(),
    ensures
        match res {
            Some(j) => j < secrets@.len() && first_match(views(secrets@), hay@.skip(off as int))
                == Some(j as int),
            None => first_match(views(secrets@), hay@.skip(off as int)) is None,
        },
{
    let ghost rem = hay@.skip(off as int);
    let ghost sv = views(secrets@);
    let n = secrets.len();
    let mut i: usize = 0;
    while i < n
        invariant
            i <= n,
            n == secrets@.len(),
            sv == views(secrets@),
            off <= hay@.len(),
            rem == hay@.skip(off as int),
            forall|j: int| #![trigger sv[j]] 0 <= j < i ==> !starts_with(rem, sv[j]),
        decreases n - i,
    {
        assert(sv[i as int] == secrets@[i as int]@);
        if starts_with_at(hay, off, secrets[i].as_slice()) {
            proof {
                lemma_first_match_skip(sv, rem, i as int);
            }
            return Some(i);
        }
        i += 1;
    }
    proof {
        lemma_first_match_skip(sv, rem, n as int);
    }
    None
}

fn push_marker(out: &mut Vec<u8>)
    ensures
        final(out)@ == old(out)@ + marker(),
{
    out.push(0x5b);
    out.push(0x72);
    out.push(0x65);
    out.push(0x64);
    out.push(0x61);
    out.push(0x63);
    out.push(0x74);
    out.push(0x65);
    out.push(0x64);
    out.push(0x5d);
    assert(final(out)@ =~= old(out)@ + marker());
}

pub(crate) fn append_bytes(v: &mut Vec<u8>, bytes: &[u8])
    ensures
        final(v)@ == old(v)@ + bytes@,
{
    let mut i: usize = 0;
    while i < bytes.len()
        invariant
            i <= bytes@.len(),
            v@ == old(v)@ + bytes@.subrange(0, i as int),
        decreases bytes@.len() - i,
    {
        v.push(bytes[i]);
        i += 1;
        assert(v@ =~= old(v)@ + bytes@.subrange(0, i as int));
    }
    assert(bytes@.subrange(0, bytes@.len() as int) =~= bytes@);
}

/// Exact-byte secret redaction policy, pinned before collection begins.
/// Secrets are never exposed; only the policy reference enters receipts.
/// It covers supplied literal secrets, not unknown secrets or encoded variants.
pub struct EvidenceRedaction {
    reference: String,
    secrets: Vec<Vec<u8>>,
    pending: Vec<u8>,
}

impl EvidenceRedaction {
    /// The redaction policy reference.
    pub closed spec fn reference_view(&self) -> Seq<char> {
        self.reference@
    }

    /// The policy secrets in matching order.
    pub closed spec fn secrets(&self) -> Seq<Seq<u8>> {
        views(self.secrets@)
    }

    /// Bytes received but not yet redacted because a longer secret may still match.
    pub closed spec fn pending(&self) -> Seq<u8> {
        self.pending@
    }

    #[verifier::type_invariant]
    closed spec fn inv(&self) -> bool {
        &&& valid_reference(vstd::utf8::encode_utf8(self.reference@))
        &&& valid_secrets(views(self.secrets@))
        &&& sorted_by_length_desc(views(self.secrets@))
        &&& (self.pending@.len() == 0 || awaits_more(views(self.secrets@), self.pending@))
    }

    /// Creates a bounded redactor. A caller must supply every secret exposed to
    /// this runtime; prompts and credentials themselves are never diagnostic inputs.
    pub fn new(reference: String, secrets: Vec<Vec<u8>>) -> (res: Result<Self, EvidenceError>)
        ensures
            res is Ok <==> (valid_reference(vstd::utf8::encode_utf8(reference@)) && valid_secrets(
                views(secrets@),
            )),
            res is Err ==> res == Err::<Self, EvidenceError>(EvidenceError::InvalidConfiguration),
            res matches Ok(r) ==> {
                &&& r.reference_view() == reference@
                &&& r.pending().len() == 0
                &&& valid_secrets(r.secrets())
                &&& sorted_by_length_desc(r.secrets())
                &&& r.secrets().to_multiset() == views(secrets@).to_multiset()
            },
    {
        if !check_reference(reference.as_str()) || !check_secrets(&secrets) {
            return Err(EvidenceError::InvalidConfiguration);
        }
        let sorted = sort_by_length_desc(secrets);
        proof {
            lemma_valid_secrets_permutation(views(secrets@), views(sorted@));
        }
        Ok(EvidenceRedaction { reference, secrets: sorted, pending: Vec::new() })
    }

    /// Buffered bytes are always empty or a proper prefix of some secret.
    pub fn pending_is_bounded(&self) -> (res: bool)
        ensures
            res,
            self.pending().len() == 0 || awaits_more(self.secrets(), self.pending()),
    {
        proof {
            use_type_invariant(self);
        }
        true
    }

    /// The policy reference recorded in evidence receipts.
    pub fn reference(&self) -> (res: &str)
        ensures
            res@ == self.reference_view(),
    {
        self.reference.as_str()
    }

    /// Redacts the next read. Without `finish`, bytes that could still begin a
    /// longer secret are held back, so redacting after independently writing
    /// chunks can never persist a split secret. With `finish`, everything is
    /// flushed.
    pub fn push(&mut self, bytes: &[u8], finish: bool) -> (out: Vec<u8>)
        ensures
            final(self).reference_view() == old(self).reference_view(),
            final(self).secrets() == old(self).secrets(),
            final(self).pending().len() == 0 || awaits_more(final(self).secrets(), final(self).pending()),
            finish ==> out@ == redact(old(self).secrets(), old(self).pending() + bytes@)
                && final(self).pending().len() == 0,
            !finish ==> ({
                let all = old(self).pending() + bytes@;
                &&& out@ == settled(old(self).secrets(), all).0
                &&& final(self).pending() == all.skip(settled(old(self).secrets(), all).1 as int)
            }),
    {
        proof {
            use_type_invariant(&*self);
        }
        let ghost secrets = views(self.secrets@);
        let mut all: Vec<u8> = Vec::new();
        std::mem::swap(&mut all, &mut self.pending);
        append_bytes(&mut all, bytes);
        let ghost full = all@;
        assert(full == old(self).pending() + bytes@);
        let mut output: Vec<u8> = Vec::new();
        let mut cursor: usize = 0;
        while cursor < all.len()
            invariant_except_break
                cursor <= all@.len(),
            invariant
                all@ == full,
                secrets == views(self.secrets@),
                forall|i: int| 0 <= i < secrets.len() ==> 0 < #[trigger] secrets[i].len(),
                cursor <= all@.len(),
                finish ==> output@ + redact(secrets, full.skip(cursor as int)) == redact(
                    secrets,
                    full,
                ),
                !finish ==> output@ + settled(secrets, full.skip(cursor as int)).0 == settled(
                    secrets,
                    full,
                ).0 && cursor + settled(secrets, full.skip(cursor as int)).1 == settled(
                    secrets,
                    full,
                ).1,
            ensures
                cursor <= all@.len(),
                finish ==> output@ == redact(secrets, full) && cursor == all@.len(),
                !finish ==> output@ == settled(secrets, full).0 && cursor == settled(
                    secrets,
                    full,
                ).1,
            decreases all@.len() - cursor,
        {
            let ghost rem = full.skip(cursor as int);
            if !finish {
                if awaits_any(&self.secrets, all.as_slice(), cursor) {
                    assert(settled(secrets, rem).0 =~= Seq::<u8>::empty());
                    assert(output@ + settled(secrets, rem).0 =~= output@);
                    break;
                }
            }
            let found = find_match(&self.secrets, all.as_slice(), cursor);
            proof {
                lemma_step_len_bounds(secrets, rem);
            }
            let ghost k = step_len(secrets, rem);
            let ghost out_before = output@;
            match found {
                Some(j) => {
                    push_marker(&mut output);
                    assert(secrets[j as int] == self.secrets@[j as int]@);
                    cursor = cursor + self.secrets[j].len();
                },
                None => {
                    output.push(all[cursor]);
                    cursor = cursor + 1;
                },
            }
            proof {
                assert(output@ == out_before + step_out(secrets, rem));
                assert(rem.skip(k) =~= full.skip(cursor as int));
                if finish {
                    assert(redact(secrets, rem) == step_out(secrets, rem) + redact(
                        secrets,
                        rem.skip(k),
                    ));
                    assert(output@ + redact(secrets, full.skip(cursor as int)) =~= out_before
                        + redact(secrets, rem));
                } else {
                    assert(settled(secrets, rem).0 == step_out(secrets, rem) + settled(
                        secrets,
                        rem.skip(k),
                    ).0);
                    assert(output@ + settled(secrets, full.skip(cursor as int)).0 =~= out_before
                        + settled(secrets, rem).0);
                }
            }
        }
        proof {
            if cursor == all@.len() {
                assert(full.skip(cursor as int) =~= Seq::<u8>::empty());
            }
        }
        let rest = all.split_off(cursor);
        proof {
            assert(rest@ =~= full.skip(cursor as int));
            if !finish {
                lemma_settled_rest_awaits(secrets, full);
            } else {
                assert(rest@.len() == 0);
            }
        }
        self.pending = rest;
        output
    }
}


/// Calls `zeroize::Zeroize::zeroize` on a list of byte vectors: every element
/// and the spare capacity are overwritten with zeros and the list is cleared,
/// so its length is zero afterwards.
#[verifier::external_body]
fn zeroize_byte_lists(v: &mut Vec<Vec<u8>>)
    ensures
        final(v)@.len() == 0,
    opens_invariants none
    no_unwind
{
    v.zeroize();
}

/// Calls `zeroize::Zeroize::zeroize` on a byte vector: its bytes and spare
/// capacity are overwritten with zeros and it is cleared, so its length is
/// zero afterwards.
#[verifier::external_body]
fn zeroize_bytes(v: &mut Vec<u8>)
    ensures
        final(v)@.len() == 0,
    opens_invariants none
    no_unwind
{
    v.zeroize();
}

impl Drop for EvidenceRedaction {
    /// Secrets and buffered bytes are zeroized when the policy is dropped.
    fn drop(&mut self)
        opens_invariants none
        no_unwind
    {
        proof {
            use_type_invariant(&*self);
        }
        zeroize_bytes(&mut self.pending);
        zeroize_byte_lists(&mut self.secrets);
        proof {
            assert(views(self.secrets@) =~= Seq::<Seq<u8>>::empty());
        }
    }
}

fn check_reference(reference: &str) -> (res: bool)
    ensures
        res == valid_reference(vstd::utf8::encode_utf8(reference@)),
{
    let bytes = reference.as_bytes();
    let n = bytes.len();
    if n == 0 || n > 256 {
        return false;
    }
    let mut i: usize = 0;
    while i < n
        invariant
            n == bytes@.len(),
            bytes@ == vstd::utf8::encode_utf8(reference@),
            i <= n,
            forall|k: int| 0 <= k < i ==> reference_byte(#[trigger] bytes@[k]),
        decreases n - i,
    {
        let b = bytes[i];
        let ok = (0x30 <= b && b <= 0x39) || (0x41 <= b && b <= 0x5a) || (0x61 <= b && b <= 0x7a)
            || b == 0x2e || b == 0x5f || b == 0x3a || b == 0x2f || b == 0x2d;
        if !ok {
            return false;
        }
        i += 1;
    }
    true
}

proof fn lemma_total_len_push(s: Seq<Seq<u8>>, x: Seq<u8>)
    ensures
        total_len(s.push(x)) == total_len(s) + x.len(),
    decreases s.len(),
{
    if s.len() == 0 {
        assert(s.push(x).drop_first() =~= Seq::<Seq<u8>>::empty());
    } else {
        assert(s.push(x).drop_first() =~= s.drop_first().push(x));
        lemma_total_len_push(s.drop_first(), x);
    }
}

fn check_secrets(secrets: &Vec<Vec<u8>>) -> (res: bool)
    ensures
        res == valid_secrets(views(secrets@)),
{
    let n = secrets.len();
    if n > 128 {
        return false;
    }
    let mut i: usize = 0;
    let mut total: usize = 0;
    while i < n
        invariant
            n == secrets@.len(),
            n <= 128,
            i <= n,
            forall|k: int| 0 <= k < i ==> 0 < #[trigger] secrets@[k]@.len() <= 16384,
            total == total_len(views(secrets@).subrange(0, i as int)),
            total <= i * 16384,
        decreases n - i,
    {
        let len = secrets[i].len();
        if len == 0 || len > 16384 {
            assert(views(secrets@)[i as int] == secrets@[i as int]@);
            return false;
        }
        proof {
            assert(views(secrets@).subrange(0, i + 1) =~= views(secrets@).subrange(0, i as int).push(
                secrets@[i as int]@,
            ));
            lemma_total_len_push(views(secrets@).subrange(0, i as int), secrets@[i as int]@);
        }
        total = total + len;
        i += 1;
    }
    assert(views(secrets@).subrange(0, n as int) =~= views(secrets@));
    total <= 128 * 1024
}

proof fn lemma_total_len_multiset(a: Seq<Seq<u8>>, b: Seq<Seq<u8>>)
    requires
        a.to_multiset() == b.to_multiset(),
    ensures
        total_len(a) == total_len(b),
    decreases a.len(),
{
    broadcast use vstd::multiset::group_multiset_axioms;

    a.to_multiset_ensures();
    b.to_multiset_ensures();
    if a.len() == 0 {
        if b.len() > 0 {
            assert(b.to_multiset().count(b[0]) > 0);
        }
    } else {
        let x = a[0];
        assert(b.to_multiset().count(x) > 0);
        let j = choose|j: int| 0 <= j < b.len() && b[j] == x;
        assert(a =~= a.drop_first().insert(0, x));
        assert(b =~= b.remove(j).insert(j, x));
        to_multiset_insert(a.drop_first(), 0, x);
        to_multiset_remove(b, j);
        assert(a.drop_first().to_multiset() =~= a.to_multiset().remove(x));
        lemma_total_len_multiset(a.drop_first(), b.remove(j));
        lemma_total_len_remove(b, j);
    }
}

proof fn lemma_total_len_remove(s: Seq<Seq<u8>>, j: int)
    requires
        0 <= j < s.len(),
    ensures
        total_len(s) == total_len(s.remove(j)) + s[j].len(),
    decreases j,
{
    if j == 0 {
        assert(s.remove(0) =~= s.drop_first());
    } else {
        lemma_total_len_remove(s.drop_first(), j - 1);
        let r = s.remove(j);
        assert(r.drop_first() =~= s.drop_first().remove(j - 1));
        assert(r[0] == s[0]);
        assert(r.len() > 0);
        assert(total_len(r) == r[0].len() + total_len(r.drop_first()));
        assert(total_len(s) == s[0].len() + total_len(s.drop_first()));
        assert(s.drop_first()[j - 1] == s[j]);
    }
}

proof fn lemma_valid_secrets_permutation(a: Seq<Seq<u8>>, b: Seq<Seq<u8>>)
    requires
        valid_secrets(a),
        a.to_multiset() == b.to_multiset(),
    ensures
        valid_secrets(b),
{
    broadcast use vstd::multiset::group_multiset_axioms;

    a.to_multiset_ensures();
    b.to_multiset_ensures();
    lemma_total_len_multiset(a, b);
    assert forall|i: int| 0 <= i < b.len() implies 0 < #[trigger] b[i].len() <= 16384 by {
        assert(b.to_multiset().count(b[i]) > 0);
    }
}

/// Stable insertion sort by non-increasing length.
fn sort_by_length_desc(secrets: Vec<Vec<u8>>) -> (res: Vec<Vec<u8>>)
    ensures
        sorted_by_length_desc(views(res@)),
        views(res@).to_multiset() == views(secrets@).to_multiset(),
{
    broadcast use vstd::multiset::group_multiset_axioms;

    let mut rest = secrets;
    let mut sorted: Vec<Vec<u8>> = Vec::new();
    proof {
        assert(views(sorted@) =~= Seq::<Seq<u8>>::empty());
        assert(views(sorted@).to_multiset() =~= vstd::multiset::Multiset::empty());
    }
    while rest.len() > 0
        invariant
            sorted_by_length_desc(views(sorted@)),
            views(sorted@).to_multiset().add(views(rest@).to_multiset()) == views(
                secrets@,
            ).to_multiset(),
        decreases rest@.len(),
    {
        let ghost old_rest = rest@;
        let ghost old_sorted = sorted@;
        let s = rest.remove(0);
        let mut j: usize = 0;
        while j < sorted.len() && sorted[j].len() >= s.len()
            invariant
                j <= sorted@.len(),
                sorted@ == old_sorted,
                forall|k: int| 0 <= k < j ==> #[trigger] sorted@[k]@.len() >= s@.len(),
            decreases sorted@.len() - j,
        {
            j += 1;
        }
        proof {
            assert forall|k: int| j <= k < sorted@.len() implies #[trigger] sorted@[k]@.len()
                < s@.len() by {
                assert(views(sorted@)[j as int] == sorted@[j as int]@);
                assert(views(sorted@)[k] == sorted@[k]@);
            }
        }
        sorted.insert(j, s);
        proof {
            assert(views(sorted@) =~= views(old_sorted).insert(j as int, s@));
            assert(views(rest@) =~= views(old_rest).remove(0));
            assert(views(old_rest)[0] == s@);
            to_multiset_insert(views(old_sorted), j as int, s@);
            to_multiset_remove(views(old_rest), 0);
            assert forall|a: int, b: int| 0 <= a < b < views(sorted@).len() implies views(
                sorted@,
            )[a].len() >= views(sorted@)[b].len() by {
                if a < j && b < j {
                    assert(views(old_sorted)[a] == views(sorted@)[a]);
                    assert(views(old_sorted)[b] == views(sorted@)[b]);
                } else if a < j && b == j {
                    assert(views(old_sorted)[a] == views(sorted@)[a]);
                } else if a < j {
                    assert(views(old_sorted)[a] == views(sorted@)[a]);
                    assert(views(old_sorted)[b - 1] == views(sorted@)[b]);
                } else if a == j {
                    assert(views(old_sorted)[b - 1] == views(sorted@)[b]);
                } else {
                    assert(views(old_sorted)[a - 1] == views(sorted@)[a]);
                    assert(views(old_sorted)[b - 1] == views(sorted@)[b]);
                }
            }
            assert(views(sorted@).to_multiset().add(views(rest@).to_multiset()) =~= views(
                secrets@,
            ).to_multiset());
        }
    }
    proof {
        assert(views(rest@) =~= Seq::<Seq<u8>>::empty());
        assert(views(rest@).to_multiset() =~= vstd::multiset::Multiset::empty());
        assert(views(sorted@).to_multiset().add(views(rest@).to_multiset()) =~= views(
            sorted@,
        ).to_multiset());
    }
    sorted
}

} // verus!
