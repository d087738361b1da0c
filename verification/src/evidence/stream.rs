//! Bounded per-stream collection: redacted bytes are cut into fixed-size
//! chunks numbered by a per-stream sequence. The caller persists each chunk in
//! order and reports the first failed write; after an incident the stream keeps
//! draining its pipe but nothing more is retained.
use vstd::prelude::*;

use super::EvidenceError;
use super::redaction::{
    EvidenceRedaction, append_bytes, lemma_settled_compose, lemma_settled_consumed_bound, lemma_settled_prefix,
    lemma_settled_is_order_independent, redact, settled, sorted_by_length_desc,
};

verus! {

/// Reason this stream cannot provide complete retained evidence.
#[derive(Clone, Copy, Debug, PartialEq, Eq, Structural)]
pub enum SpoolIncident {
    /// The spool refused the chunk for lack of capacity.
    CapacityExhausted,
    /// The chunk could not be written.
    WriteFailed,
}

/// A redacted chunk to persist, with its per-stream sequence.
pub struct ChunkWrite {
    /// Per-stream sequence, starting at one.
    pub sequence: u64,
    /// Redacted bytes; never raw input.
    pub bytes: Vec<u8>,
}

/// Collection signals consumed by the runtime, never inferred Task transitions.
pub struct SpoolAppend<C> {
    /// Chunks persisted by this call.
    pub chunks: Vec<C>,
    /// The retained evidence of this stream is incomplete.
    pub evidence_incomplete: bool,
    /// The runtime must stop the producer (while still draining its pipe).
    pub stop_required: bool,
    /// Why the evidence is incomplete.
    pub incident: Option<SpoolIncident>,
    /// Bytes read from the pipe, including discarded bytes after failure.
    pub consumed_bytes: u64,
}

/// Concatenation of chunk bodies.
pub open spec fn concat(chunks: Seq<Seq<u8>>) -> Seq<u8>
    decreases chunks.len(),
{
    if chunks.len() == 0 {
        Seq::empty()
    } else {
        concat(chunks.drop_last()) + chunks.last()
    }
}

/// The bodies of chunk writes.
pub open spec fn bodies(chunks: Seq<ChunkWrite>) -> Seq<Seq<u8>> {
    chunks.map_values(|w: ChunkWrite| w.bytes@)
}

/// Chunks carry consecutive sequences after `seq0`.
pub open spec fn numbered_from(chunks: Seq<ChunkWrite>, seq0: u64) -> bool {
    forall|k: int| 0 <= k < chunks.len() ==> #[trigger] chunks[k].sequence == seq0 + k + 1
}

/// Every chunk body has exactly `size` bytes.
pub open spec fn full_chunks(chunks: Seq<Seq<u8>>, size: nat) -> bool {
    forall|k: int| 0 <= k < chunks.len() ==> #[trigger] chunks[k].len() == size
}

proof fn lemma_concat_push(chunks: Seq<Seq<u8>>, x: Seq<u8>)
    ensures
        concat(chunks.push(x)) == concat(chunks) + x,
{
    assert(chunks.push(x).drop_last() =~= chunks);
}

/// Bounded per-stream collector state.
pub struct EvidenceCollector {
    redaction: EvidenceRedaction,
    buffer: Vec<u8>,
    sequence: u64,
    incident: Option<SpoolIncident>,
    chunk_bytes: usize,
}

impl EvidenceCollector {
    /// The redaction policy reference recorded in this stream's receipts.
    pub closed spec fn policy_reference(&self) -> Seq<char> {
        self.redaction.reference_view()
    }

    /// Policy secrets of this stream.
    pub closed spec fn secrets(&self) -> Seq<Seq<u8>> {
        self.redaction.secrets()
    }

    /// Input bytes held back by redaction.
    pub closed spec fn pending(&self) -> Seq<u8> {
        self.redaction.pending()
    }

    /// Redacted bytes not yet cut into a chunk.
    pub closed spec fn buffer(&self) -> Seq<u8> {
        self.buffer@
    }

    /// The last sequence handed out.
    pub closed spec fn sequence(&self) -> u64 {
        self.sequence
    }

    /// The incident that ended retention, if any.
    pub closed spec fn incident(&self) -> Option<SpoolIncident> {
        self.incident
    }

    /// The chunk size.
    pub closed spec fn chunk_size(&self) -> nat {
        self.chunk_bytes as nat
    }

    /// The collector's invariant: a chunk size of 1 byte to 1 MiB, less than a
    /// chunk buffered, and nothing buffered after an incident.
    pub closed spec fn wf(&self) -> bool {
        &&& 0 < self.chunk_bytes <= 1024 * 1024
        &&& self.buffer@.len() < self.chunk_bytes
        &&& self.incident is Some ==> self.buffer@.len() == 0
    }

    /// Starts one independently redacted byte stream. Stdout and stderr must
    /// have separate collectors so their byte boundaries cannot be interleaved.
    pub fn new(chunk_bytes: usize, redaction: EvidenceRedaction) -> (res: Self)
        requires
            0 < chunk_bytes <= 1024 * 1024,
        ensures
            res.policy_reference() == redaction.reference_view(),
            res.secrets() == redaction.secrets(),
            res.pending() == redaction.pending(),
            res.buffer().len() == 0,
            res.sequence() == 0,
            res.incident() is None,
            res.chunk_size() == chunk_bytes,
            res.wf(),
    {
        EvidenceCollector { redaction, buffer: Vec::new(), sequence: 0, incident: None, chunk_bytes }
    }

    /// The policy reference recorded in this stream's receipts.
    pub fn redaction_reference(&self) -> (res: &str)
        ensures
            res@ == self.policy_reference(),
    {
        self.redaction.reference()
    }

    /// The chunk size of this stream.
    pub fn chunk_bytes(&self) -> (res: usize)
        ensures
            res == self.chunk_size(),
    {
        self.chunk_bytes
    }

    /// Consumes any input size using bounded intermediate buffers. Raw bytes
    /// are cut into chunk-sized reads and redacted before any byte is handed
    /// out for persistence. After an incident nothing is retained.
    pub fn push(&mut self, bytes: &[u8]) -> (res: Vec<ChunkWrite>)
        requires
            old(self).wf(),
        ensures
            final(self).wf(),
            final(self).policy_reference() == old(self).policy_reference(),
            final(self).secrets() == old(self).secrets(),
            final(self).chunk_size() == old(self).chunk_size(),
            old(self).incident() is Some ==> {
                &&& res@.len() == 0
                &&& final(self).incident() == old(self).incident()
                &&& final(self).sequence() == old(self).sequence()
                &&& final(self).buffer() == old(self).buffer()
                &&& final(self).pending() == old(self).pending()
            },
            old(self).incident() is None ==> {
                &&& numbered_from(res@, old(self).sequence())
                &&& full_chunks(bodies(res@), old(self).chunk_size())
                &&& final(self).incident() is None ==> {
                    let all = old(self).pending() + bytes@;
                    let st = settled(old(self).secrets(), all);
                    &&& final(self).pending() == all.skip(st.1 as int)
                    &&& concat(bodies(res@)) + final(self).buffer() == old(self).buffer() + st.0
                    &&& final(self).buffer().len() < old(self).chunk_size()
                    &&& final(self).sequence() == old(self).sequence() + res@.len()
                }
                &&& final(self).incident() is Some ==> {
                    &&& final(self).incident() == Some(SpoolIncident::WriteFailed)
                    &&& final(self).sequence() == u64::MAX
                    &&& final(self).buffer().len() == 0
                }
            },
    {
        let mut out: Vec<ChunkWrite> = Vec::new();
        if self.incident.is_some() {
            return out;
        }
        self.redaction.pending_is_bounded();
        let ghost secrets = self.secrets();
        let ghost p0 = self.pending();
        let ghost b0 = self.buffer@;
        let ghost seq0 = self.sequence;
        let mut buf: Vec<u8> = Vec::new();
        std::mem::swap(&mut buf, &mut self.buffer);
        let c = self.chunk_bytes;
        let n = bytes.len();
        let mut start: usize = 0;
        proof {
            assert(bytes@.subrange(0, 0) =~= Seq::<u8>::empty());
            assert(p0 + bytes@.subrange(0, 0) =~= p0);
            assert(p0.skip(0) =~= p0);
            assert(concat(bodies(out@)) =~= Seq::<u8>::empty());
            assert(concat(bodies(out@)) + buf@ =~= b0 + Seq::<u8>::empty());
        }
        while start < n
            invariant_except_break
                self.incident is None,
                self.pending() == (p0 + bytes@.subrange(0, start as int)).skip(
                    settled(secrets, p0 + bytes@.subrange(0, start as int)).1 as int,
                ),
                concat(bodies(out@)) + buf@ == b0 + settled(
                    secrets,
                    p0 + bytes@.subrange(0, start as int),
                ).0,
                buf@.len() < c,
                self.sequence == seq0 + out@.len(),
            invariant
                n == bytes@.len(),
                start <= n,
                c == self.chunk_bytes,
                0 < c <= 1024 * 1024,
                self.buffer@.len() == 0,
                self.secrets() == secrets,
                self.policy_reference() == old(self).policy_reference(),
                self.chunk_bytes == old(self).chunk_size(),
                numbered_from(out@, seq0),
                full_chunks(bodies(out@), c as nat),
            ensures
                self.incident is None ==> {
                    &&& start == n
                    &&& self.pending() == (p0 + bytes@.subrange(0, start as int)).skip(
                        settled(secrets, p0 + bytes@.subrange(0, start as int)).1 as int,
                    )
                    &&& concat(bodies(out@)) + buf@ == b0 + settled(
                        secrets,
                        p0 + bytes@.subrange(0, start as int),
                    ).0
                    &&& buf@.len() < c
                    &&& self.sequence == seq0 + out@.len()
                },
                self.incident is Some ==> self.incident == Some(SpoolIncident::WriteFailed)
                    && self.sequence == u64::MAX,
            decreases n - start,
        {
            let end = if n - start > c {
                start + c
            } else {
                n
            };
            let slice = vstd::slice::slice_subrange(bytes, start, end);
            let ghost s = p0 + bytes@.subrange(0, start as int);
            let ghost buf_before = buf@;
            let ghost pend_before = self.pending();
            let redacted = self.redaction.push(slice, false);
            proof {
                lemma_settled_compose(secrets, s, slice@);
                assert(s + slice@ =~= p0 + bytes@.subrange(0, end as int));
                let c1 = settled(secrets, s).1;
                assert(pend_before == s.skip(c1 as int));
                let c2 = settled(secrets, s.skip(c1 as int) + slice@).1;
                lemma_settled_consumed_bound(secrets, s.skip(c1 as int) + slice@);
                assert((s.skip(c1 as int) + slice@).skip(c2 as int) =~= (s + slice@).skip(
                    (c1 + c2) as int,
                ));
                assert(redacted@ == settled(secrets, s.skip(c1 as int) + slice@).0);
            }
            append_bytes(&mut buf, redacted.as_slice());
            proof {
                let c1 = settled(secrets, s).1;
                assert(buf@ == buf_before + redacted@);
                assert(concat(bodies(out@)) + buf_before == b0 + settled(secrets, s).0);
                assert(settled(secrets, s).0 + settled(secrets, s.skip(c1 as int) + slice@).0
                    == settled(secrets, s + slice@).0);
                let st1 = settled(secrets, s).0;
                let st2 = settled(secrets, s.skip(c1 as int) + slice@).0;
                assert(concat(bodies(out@)) + buf@ =~= (concat(bodies(out@)) + buf_before)
                    + redacted@);
                assert(b0 + st1 + st2 =~= b0 + (st1 + st2));
                assert(settled(secrets, s + slice@) == settled(
                    secrets,
                    p0 + bytes@.subrange(0, end as int),
                ));
                assert(concat(bodies(out@)) + buf@ == b0 + settled(
                    secrets,
                    p0 + bytes@.subrange(0, end as int),
                ).0);
            }
            self.cut_chunks(&mut buf, &mut out, false);
            if self.incident.is_some() {
                break;
            }
            start = end;
        }
        proof {
            if self.incident is None {
                assert(bytes@.subrange(0, n as int) =~= bytes@);
            }
        }
        if self.incident.is_some() {
            buf = Vec::new();
        }
        self.buffer = buf;
        out
    }

    /// Flushes the final redaction suffix and returns the remaining chunks; the
    /// last chunk may be shorter than the chunk size.
    pub fn finish(&mut self) -> (res: Vec<ChunkWrite>)
        requires
            old(self).wf(),
        ensures
            final(self).wf(),
            final(self).policy_reference() == old(self).policy_reference(),
            final(self).secrets() == old(self).secrets(),
            final(self).chunk_size() == old(self).chunk_size(),
            old(self).incident() is Some ==> {
                &&& res@.len() == 0
                &&& final(self).incident() == old(self).incident()
                &&& final(self).sequence() == old(self).sequence()
                &&& final(self).buffer() == old(self).buffer()
                &&& final(self).pending() == old(self).pending()
            },
            old(self).incident() is None ==> {
                &&& numbered_from(res@, old(self).sequence())
                &&& final(self).pending().len() == 0
                &&& final(self).buffer().len() == 0
                &&& final(self).incident() is None ==> {
                    &&& concat(bodies(res@)) == old(self).buffer() + redact(
                        old(self).secrets(),
                        old(self).pending(),
                    )
                    &&& final(self).sequence() == old(self).sequence() + res@.len()
                    &&& forall|k: int|
                        0 <= k < res@.len() ==> 0 < #[trigger] bodies(res@)[k].len()
                            <= old(self).chunk_size() && (k < res@.len() - 1 ==> bodies(res@)[k].len()
                            == old(self).chunk_size())
                }
                &&& final(self).incident() is Some ==> {
                    &&& final(self).incident() == Some(SpoolIncident::WriteFailed)
                    &&& final(self).sequence() == u64::MAX
                    &&& full_chunks(bodies(res@), old(self).chunk_size())
                }
            },
    {
        let mut out: Vec<ChunkWrite> = Vec::new();
        if self.incident.is_some() {
            return out;
        }
        let mut buf: Vec<u8> = Vec::new();
        std::mem::swap(&mut buf, &mut self.buffer);
        let empty: Vec<u8> = Vec::new();
        let redacted = self.redaction.push(empty.as_slice(), true);
        proof {
            assert(old(self).pending() + empty@ =~= old(self).pending());
        }
        append_bytes(&mut buf, redacted.as_slice());
        proof {
            assert(concat(bodies(out@)) =~= Seq::<u8>::empty());
            assert(concat(bodies(out@)) + buf@ =~= buf@);
        }
        self.cut_chunks(&mut buf, &mut out, true);
        buf = Vec::new();
        self.buffer = buf;
        proof {
            if self.incident is None {
                assert(concat(bodies(out@)) =~= concat(bodies(out@)) + Seq::<u8>::empty());
            }
        }
        out
    }

    /// Records that persisting a chunk failed: capacity refusals and other
    /// write failures become the stream's incident, and buffered bytes are
    /// discarded.
    pub fn record_write_failure(&mut self, error: EvidenceError)
        requires
            old(self).wf(),
        ensures
            final(self).wf(),
            final(self).policy_reference() == old(self).policy_reference(),
            final(self).incident() == Some(
                if error == EvidenceError::SpoolCapacity {
                    SpoolIncident::CapacityExhausted
                } else {
                    SpoolIncident::WriteFailed
                },
            ),
            final(self).buffer().len() == 0,
            final(self).secrets() == old(self).secrets(),
            final(self).sequence() == old(self).sequence(),
            final(self).chunk_size() == old(self).chunk_size(),
    {
        self.buffer = Vec::new();
        self.incident = Some(
            match error {
                EvidenceError::SpoolCapacity => SpoolIncident::CapacityExhausted,
                _ => SpoolIncident::WriteFailed,
            },
        );
    }

    /// Collection signals: any incident makes the evidence incomplete and
    /// requires the producer to stop while its pipe keeps draining.
    pub fn signals<C>(&self, chunks: Vec<C>, consumed_bytes: u64) -> (res: SpoolAppend<C>)
        ensures
            res.chunks@ == chunks@,
            res.evidence_incomplete == self.incident() is Some,
            res.stop_required == self.incident() is Some,
            res.incident == self.incident(),
            res.consumed_bytes == consumed_bytes,
    {
        SpoolAppend {
            chunks,
            evidence_incomplete: self.incident.is_some(),
            stop_required: self.incident.is_some(),
            incident: self.incident,
            consumed_bytes,
        }
    }

    /// Cuts every full chunk from `buf` (all of `buf` when `finish`), numbering
    /// chunks after the current sequence.
    fn cut_chunks(&mut self, buf: &mut Vec<u8>, out: &mut Vec<ChunkWrite>, finish: bool)
        requires
            0 < old(self).chunk_size() <= 1024 * 1024,
            old(self).incident() is None,
            old(self).buffer().len() == 0,
            numbered_from(old(out)@, (old(self).sequence() - old(out)@.len()) as u64),
            old(self).sequence() >= old(out)@.len(),
            full_chunks(bodies(old(out)@), old(self).chunk_size()),
        ensures
            final(self).policy_reference() == old(self).policy_reference(),
            final(self).secrets() == old(self).secrets(),
            final(self).pending() == old(self).pending(),
            final(self).chunk_size() == old(self).chunk_size(),
            final(self).buffer().len() == 0,
            final(self).sequence() >= final(out)@.len(),
            numbered_from(final(out)@, (final(self).sequence() - final(out)@.len()) as u64),
            final(self).sequence() - final(out)@.len() == old(self).sequence() - old(out)@.len(),
            concat(bodies(final(out)@)) + final(buf)@ == concat(bodies(old(out)@)) + old(buf)@,
            final(self).incident() is None ==> {
                &&& final(self).sequence() == old(self).sequence() + final(out)@.len() - old(
                    out,
                )@.len()
                &&& !finish ==> full_chunks(bodies(final(out)@), old(self).chunk_size())
                    && final(buf)@.len() < old(self).chunk_size()
                &&& finish ==> final(buf)@.len() == 0 && forall|k: int|
                    0 <= k < final(out)@.len() ==> 0 < #[trigger] bodies(final(out)@)[k].len()
                        <= old(self).chunk_size() && (k < final(out)@.len() - 1 ==> bodies(
                        final(out)@,
                    )[k].len() == old(self).chunk_size())
            },
            final(self).incident() is Some ==> {
                &&& final(self).incident() == Some(SpoolIncident::WriteFailed)
                &&& final(self).sequence() == u64::MAX
                &&& full_chunks(bodies(final(out)@), old(self).chunk_size())
                &&& final(buf)@.len() > 0
            },
    {
        let c = self.chunk_bytes;
        let ghost base = (self.sequence - out@.len()) as u64;
        let ghost start = concat(bodies(old(out)@)) + old(buf)@;
        while buf.len() >= c || (finish && buf.len() > 0)
            invariant
                0 < c <= 1024 * 1024,
                c == self.chunk_bytes,
                c == old(self).chunk_size(),
                base == old(self).sequence() - old(out)@.len(),
                self.incident is None,
                self.buffer@.len() == 0,
                self.sequence >= out@.len(),
                base == self.sequence - out@.len(),
                self.secrets() == old(self).secrets(),
                self.policy_reference() == old(self).policy_reference(),
                self.pending() == old(self).pending(),
                numbered_from(out@, base),
                start == concat(bodies(old(out)@)) + old(buf)@,
                concat(bodies(out@)) + buf@ == start,
                full_chunks(bodies(old(out)@), c as nat),
                forall|k: int|
                    0 <= k < old(out)@.len() ==> #[trigger] bodies(out@)[k] == bodies(old(out)@)[k],
                out@.len() >= old(out)@.len(),
                forall|k: int|
                    0 <= k < out@.len() ==> 0 < #[trigger] bodies(out@)[k].len() <= c,
                forall|k: int|
                    0 <= k < out@.len() - 1 ==> #[trigger] bodies(out@)[k].len() == c,
                !finish ==> full_chunks(bodies(out@), c as nat),
                out@.len() > old(out)@.len() && bodies(out@)[out@.len() - 1].len() < c ==> buf@.len()
                    == 0,
            decreases buf@.len(),
        {
            if self.sequence == u64::MAX {
                proof {
                    assert forall|k: int| 0 <= k < out@.len() implies #[trigger] bodies(out@)[k].len()
                        == c by {
                        if k < old(out)@.len() {
                            assert(bodies(out@)[k] == bodies(old(out)@)[k]);
                        }
                    }
                }
                self.incident = Some(SpoolIncident::WriteFailed);
                return;
            }
            let size = if buf.len() < c {
                buf.len()
            } else {
                c
            };
            let rest = buf.split_off(size);
            let mut body = Vec::new();
            std::mem::swap(&mut body, buf);
            *buf = rest;
            self.sequence = self.sequence + 1;
            let ghost before = out@;
            out.push(ChunkWrite { sequence: self.sequence, bytes: body });
            proof {
                assert(bodies(out@) =~= bodies(before).push(body@));
                assert forall|k: int| 0 <= k < old(out)@.len() implies #[trigger] bodies(out@)[k]
                    == bodies(old(out)@)[k] by {
                    assert(bodies(out@)[k] == bodies(before)[k]);
                }
                lemma_concat_push(bodies(before), body@);
            }
        }
    }
}

/// The chunks a stream persists, read back in order, are exactly the
/// redaction of everything it consumed, wherever the reads and the chunk
/// boundaries fell: two reads and a final flush give `redact(x + y)`.
pub proof fn lemma_collected_stream_is_redacted(secrets: Seq<Seq<u8>>, x: Seq<u8>, y: Seq<u8>)
    ensures
        ({
            let (o1, c1) = settled(secrets, x);
            let p1 = x.skip(c1 as int);
            let (o2, c2) = settled(secrets, p1 + y);
            let p2 = (p1 + y).skip(c2 as int);
            o1 + o2 + redact(secrets, p2) == redact(secrets, x + y)
        }),
{
    lemma_settled_compose(secrets, x, y);
    let (o1, c1) = settled(secrets, x);
    let p1 = x.skip(c1 as int);
    let (o2, c2) = settled(secrets, p1 + y);
    lemma_settled_consumed_bound(secrets, p1 + y);
    assert((p1 + y).skip(c2 as int) =~= (x + y).skip((c1 + c2) as int));
    lemma_settled_prefix(secrets, x + y, Seq::empty());
    assert(x + y + Seq::<u8>::empty() =~= x + y);
    assert((x + y).skip((c1 + c2) as int) + Seq::<u8>::empty() =~= (x + y).skip((c1 + c2) as int));
}

/// The output a redactor has produced, and the bytes it still holds back,
/// after it was fed `reads` one after another without finishing.
pub open spec fn fed(secrets: Seq<Seq<u8>>, pending: Seq<u8>, reads: Seq<Seq<u8>>) -> (Seq<u8>, Seq<u8>)
    decreases reads.len(),
{
    if reads.len() == 0 {
        (Seq::empty(), pending)
    } else {
        let (out, held) = fed(secrets, pending, reads.drop_last());
        let all = held + reads.last();
        let (settled_out, consumed) = settled(secrets, all);
        (out + settled_out, all.skip(consumed as int))
    }
}

/// However a stream is cut into reads, the redactor's output followed by the
/// redaction of what it still holds back (its final flush) is the redaction
/// of the whole stream, so no split can let a secret through; `after` is any
/// later input.
pub proof fn lemma_reads_redact_as_one_stream(
    secrets: Seq<Seq<u8>>,
    pending: Seq<u8>,
    reads: Seq<Seq<u8>>,
    after: Seq<u8>,
)
    ensures
        fed(secrets, pending, reads).0 + redact(secrets, fed(secrets, pending, reads).1 + after)
            == redact(secrets, pending + concat(reads) + after),
    decreases reads.len(),
{
    if reads.len() == 0 {
        assert(concat(reads) =~= Seq::<u8>::empty());
        assert(pending + concat(reads) + after =~= pending + after);
        assert(Seq::<u8>::empty() + redact(secrets, pending + after) =~= redact(
            secrets,
            pending + after,
        ));
    } else {
        let front = reads.drop_last();
        let r = reads.last();
        let (out, held) = fed(secrets, pending, front);
        let all = held + r;
        let (settled_out, consumed) = settled(secrets, all);
        lemma_reads_redact_as_one_stream(secrets, pending, front, r + after);
        lemma_settled_prefix(secrets, all, after);
        assert(held + (r + after) =~= all + after);
        lemma_concat_push(front, r);
        assert(front.push(r) =~= reads);
        assert(pending + concat(front) + (r + after) =~= pending + concat(reads) + after);
        assert(out + settled_out + redact(secrets, all.skip(consumed as int) + after) =~= out
            + redact(secrets, all + after));
    }
}


/// The calls `push(reads[i], false)` of a redactor, one after another: call `i`
/// starts holding `held[i]`, returns `outs[i]` and leaves `held[i + 1]` held
/// back, exactly as the contract of `EvidenceRedaction::push` says.
pub open spec fn push_trace(
    secrets: Seq<Seq<u8>>,
    reads: Seq<Seq<u8>>,
    outs: Seq<Seq<u8>>,
    held: Seq<Seq<u8>>,
) -> bool {
    &&& outs.len() == reads.len()
    &&& held.len() == reads.len() + 1
    &&& forall|i: int|
        0 <= i < reads.len() ==> {
            let all = #[trigger] held[i] + reads[i];
            &&& outs[i] == settled(secrets, all).0
            &&& held[i + 1] == all.skip(settled(secrets, all).1 as int)
        }
}

proof fn lemma_push_trace_is_fed(
    secrets: Seq<Seq<u8>>,
    reads: Seq<Seq<u8>>,
    outs: Seq<Seq<u8>>,
    held: Seq<Seq<u8>>,
    n: int,
)
    requires
        push_trace(secrets, reads, outs, held),
        0 <= n <= reads.len(),
    ensures
        fed(secrets, held[0], reads.take(n)) == (concat(outs.take(n)), held[n]),
    decreases n,
{
    if n == 0 {
        assert(reads.take(0) =~= Seq::<Seq<u8>>::empty());
        assert(outs.take(0) =~= Seq::<Seq<u8>>::empty());
    } else {
        lemma_push_trace_is_fed(secrets, reads, outs, held, n - 1);
        assert(reads.take(n).drop_last() =~= reads.take(n - 1));
        assert(reads.take(n).last() == reads[n - 1]);
        assert(outs.take(n) =~= outs.take(n - 1).push(outs[n - 1]));
        lemma_concat_push(outs.take(n - 1), outs[n - 1]);
        let all = held[n - 1] + reads[n - 1];
        assert(outs[n - 1] == settled(secrets, all).0);
    }
}

/// Read boundaries never change what is redacted: a redactor that is pushed
/// `reads[0]`, ..., `reads[k - 1]` without finishing and then `last` with
/// finishing emits, in order, exactly what one finishing push of the whole
/// stream emits. `outs` and `held` are what those pushes returned and held
/// back (see [`push_trace`]); a fresh redactor starts holding nothing.
pub proof fn lemma_pushes_redact_as_one_push(
    secrets: Seq<Seq<u8>>,
    reads: Seq<Seq<u8>>,
    outs: Seq<Seq<u8>>,
    held: Seq<Seq<u8>>,
    last: Seq<u8>,
)
    requires
        push_trace(secrets, reads, outs, held),
    ensures
        concat(outs) + redact(secrets, held[reads.len() as int] + last) == redact(
            secrets,
            held[0] + concat(reads) + last,
        ),
{
    lemma_push_trace_is_fed(secrets, reads, outs, held, reads.len() as int);
    assert(reads.take(reads.len() as int) =~= reads);
    assert(outs.take(reads.len() as int) =~= outs);
    lemma_reads_redact_as_one_stream(secrets, held[0], reads, last);
}

/// The order in which a policy's secrets were supplied never changes a push:
/// two redactors holding the same bytes, whose secrets are the same ones in
/// two longest-first orders, release the same output and hold back the same
/// bytes after any reads without finishing (and then flush the same bytes, by
/// `lemma_redaction_is_order_independent`).
pub proof fn lemma_feeds_are_order_independent(
    a: Seq<Seq<u8>>,
    b: Seq<Seq<u8>>,
    pending: Seq<u8>,
    reads: Seq<Seq<u8>>,
)
    requires
        a.to_multiset() == b.to_multiset(),
        sorted_by_length_desc(a),
        sorted_by_length_desc(b),
    ensures
        fed(a, pending, reads) == fed(b, pending, reads),
    decreases reads.len(),
{
    if reads.len() > 0 {
        lemma_feeds_are_order_independent(a, b, pending, reads.drop_last());
        let held = fed(a, pending, reads.drop_last()).1;
        lemma_settled_is_order_independent(a, b, held + reads.last());
    }
}

} // verus!
