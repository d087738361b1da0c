//! Local spool limits and capacity accounting. Existing bytes count against
//! limits after restart; upload failure never deletes evidence.
use std::collections::BTreeMap;

use vstd::prelude::*;

use super::EvidenceError;
use super::layout::uuid_text;
use crate::ids::{uuid_is_v7, uuid_version};

verus! {

broadcast use vstd::laws_cmp::group_laws_cmp;

/// Maximum local disk usage, including body and receipt bytes.
#[derive(Clone, Copy, Debug)]
pub struct SpoolLimits {
    /// Bytes one Run may occupy.
    pub per_run_bytes: u64,
    /// Bytes all Runs together may occupy.
    pub global_bytes: u64,
    /// Size of one persisted chunk.
    pub chunk_bytes: usize,
}

/// Valid limits: a positive per-Run limit within the global one, and chunks of
/// 1 byte to 1 MiB.
pub open spec fn valid_limits(limits: SpoolLimits) -> bool {
    &&& limits.per_run_bytes > 0
    &&& limits.global_bytes >= limits.per_run_bytes
    &&& 0 < limits.chunk_bytes <= 1024 * 1024
}

impl Default for SpoolLimits {
    /// 256 MiB per Run, 2 GiB in total, 64 KiB chunks.
    fn default() -> (res: Self)
        ensures
            res.per_run_bytes == 256 * 1024 * 1024,
            res.global_bytes == 2 * 1024 * 1024 * 1024,
            res.chunk_bytes == 64 * 1024,
    {
        SpoolLimits {
            per_run_bytes: 268435456,
            global_bytes: 2147483648,
            chunk_bytes: 65536,
        }
    }
}

impl SpoolLimits {
    /// Rejects limits that cannot bound a spool.
    pub fn validate(self) -> (res: Result<(), EvidenceError>)
        ensures
            res is Ok <==> valid_limits(self),
            res is Err ==> res == Err::<(), EvidenceError>(EvidenceError::InvalidConfiguration),
    {
        if self.per_run_bytes == 0 || self.global_bytes < self.per_run_bytes || self.chunk_bytes
            == 0 || self.chunk_bytes > 1024 * 1024 {
            return Err(EvidenceError::InvalidConfiguration);
        }
        Ok(())
    }
}

/// `a - b`, or zero when `b` exceeds `a`.
pub open spec fn sat_sub(a: u64, b: u64) -> u64 {
    if a >= b {
        (a - b) as u64
    } else {
        0
    }
}

/// Whether `bytes` more fit under both limits.
pub open spec fn fits(limits: SpoolLimits, total: u64, run: u64, bytes: u64) -> bool {
    bytes <= sat_sub(limits.global_bytes, total) && bytes <= sat_sub(limits.per_run_bytes, run)
}

/// Bytes accounted to a Run, zero when it has none.
pub open spec fn run_bytes(by_run: Map<u128, u64>, run_id: u128) -> u64 {
    if by_run.contains_key(run_id) {
        by_run[run_id]
    } else {
        0
    }
}

/// Accounted spool bytes, in total and per Run.
pub struct SpoolUsage {
    total: u64,
    by_run: BTreeMap<u128, u64>,
}

impl SpoolUsage {
    /// Accounted bytes over all Runs.
    pub closed spec fn total_view(&self) -> u64 {
        self.total
    }

    /// Accounted bytes of each Run.
    pub closed spec fn by_run_view(&self) -> Map<u128, u64> {
        self.by_run@
    }

    /// An empty spool.
    pub fn new() -> (res: Self)
        ensures
            res.total_view() == 0,
            res.by_run_view() == Map::<u128, u64>::empty(),
    {
        SpoolUsage { total: 0, by_run: BTreeMap::new() }
    }

    /// Accounted bytes over all Runs.
    pub fn total(&self) -> (res: u64)
        ensures
            res == self.total_view(),
    {
        self.total
    }

    /// Accounted bytes of one Run.
    pub fn run(&self, run_id: u128) -> (res: u64)
        ensures
            res == run_bytes(self.by_run_view(), run_id),
    {
        match self.by_run.get(&run_id) {
            Some(b) => *b,
            None => 0,
        }
    }

    /// Reserves `bytes` for a Run before they are written, or refuses when the
    /// global or per-Run remaining capacity is too small. A refusal changes nothing.
    pub fn reserve(&mut self, limits: SpoolLimits, run_id: u128, bytes: u64) -> (res: Result<
        (),
        EvidenceError,
    >)
        ensures
            ({
                let run = run_bytes(old(self).by_run_view(), run_id);
                if fits(limits, old(self).total_view(), run, bytes) {
                    &&& res is Ok
                    &&& final(self).total_view() == old(self).total_view() + bytes
                    &&& final(self).by_run_view() == old(self).by_run_view().insert(
                        run_id,
                        (run + bytes) as u64,
                    )
                } else {
                    &&& res == Err::<(), EvidenceError>(EvidenceError::SpoolCapacity)
                    &&& final(self).total_view() == old(self).total_view()
                    &&& final(self).by_run_view() == old(self).by_run_view()
                }
            }),
    {
        let run = self.run(run_id);
        let global_left = if limits.global_bytes >= self.total {
            limits.global_bytes - self.total
        } else {
            0
        };
        let run_left = if limits.per_run_bytes >= run {
            limits.per_run_bytes - run
        } else {
            0
        };
        if bytes > global_left || bytes > run_left {
            return Err(EvidenceError::SpoolCapacity);
        }
        let ghost old_map = self.by_run@;
        let mut by_run = BTreeMap::new();
        std::mem::swap(&mut by_run, &mut self.by_run);
        by_run.insert(run_id, run + bytes);
        self.total = self.total + bytes;
        self.by_run = by_run;
        Ok(())
    }

    /// Releases the bytes of a removed file: both the total and the Run's
    /// count shrink, saturating at zero.
    pub fn release(&mut self, run_id: u128, bytes: u64)
        ensures
            final(self).total_view() == sat_sub(old(self).total_view(), bytes),
            old(self).by_run_view().contains_key(run_id) ==> final(self).by_run_view() == old(
                self,
            ).by_run_view().insert(run_id, sat_sub(old(self).by_run_view()[run_id], bytes)),
            !old(self).by_run_view().contains_key(run_id) ==> final(self).by_run_view() == old(
                self,
            ).by_run_view(),
    {
        let mut by_run = BTreeMap::new();
        std::mem::swap(&mut by_run, &mut self.by_run);
        let current = match by_run.get(&run_id) {
            Some(b) => Some(*b),
            None => None,
        };
        if let Some(b) = current {
            by_run.insert(run_id, if b >= bytes { b - bytes } else { 0 });
        }
        self.total = if self.total >= bytes { self.total - bytes } else { 0 };
        self.by_run = by_run;
    }
}

/// What a spool directory scan found for one Run directory.
pub struct ScannedRunDirectory {
    /// The directory's file name.
    pub name: String,
    /// Sizes of the files it holds.
    pub file_sizes: Vec<u64>,
}

/// The 128-bit value of the UUID that `uuid::Uuid::parse_str` reads from a
/// text, or `None` when it rejects the text.
pub uninterp spec fn parsed_uuid(text: Seq<char>) -> Option<u128>;

/// Parses a UUID with `uuid::Uuid::parse_str` (hyphenated, simple, braced or
/// URN form) and returns its big-endian 128-bit value. The contract names the
/// result, and states the one round trip the spool relies on: the 36-character
/// hyphenated lowercase text of a UUID (which `parse_hyphenated` decodes two
/// hex digits per byte, most significant first) parses back to that UUID.
/// Which other texts the parser accepts is left to the uuid crate.
#[verifier::external_body]
fn parse_uuid(text: &str) -> (res: Option<u128>)
    ensures
        res == parsed_uuid(text@),
        forall|bits: u128| #[trigger] uuid_text(bits) == text@ ==> res == Some(bits),
{
    uuid::Uuid::parse_str(text).ok().map(|id| id.as_u128())
}

/// The Run identity named by a spool directory: a version-7 UUID.
pub open spec fn run_directory_id(name: Seq<char>) -> Option<u128> {
    match parsed_uuid(name) {
        Some(bits) => if uuid_version(bits) == 7 {
            Some(bits)
        } else {
            None
        },
        None => None,
    }
}

/// Sum of the file sizes, as an integer.
pub open spec fn sizes_sum(sizes: Seq<u64>) -> int
    decreases sizes.len(),
{
    if sizes.len() == 0 {
        0
    } else {
        sizes_sum(sizes.drop_last()) + sizes.last()
    }
}

proof fn lemma_sizes_sum_nonneg(sizes: Seq<u64>)
    ensures
        sizes_sum(sizes) >= 0,
    decreases sizes.len(),
{
    if sizes.len() > 0 {
        lemma_sizes_sum_nonneg(sizes.drop_last());
    }
}

proof fn lemma_sizes_sum_prefix_monotone(sizes: Seq<u64>, i: int)
    requires
        0 <= i <= sizes.len(),
    ensures
        sizes_sum(sizes.subrange(0, i)) <= sizes_sum(sizes),
    decreases sizes.len() - i,
{
    if i < sizes.len() {
        lemma_sizes_sum_prefix_monotone(sizes, i + 1);
        assert(sizes.subrange(0, i + 1).drop_last() =~= sizes.subrange(0, i));
    } else {
        assert(sizes.subrange(0, i) =~= sizes);
    }
}

/// The accounted bytes of one Run directory, or a capacity failure when they
/// do not fit in `u64`.
fn directory_bytes(sizes: &Vec<u64>) -> (res: Result<u64, EvidenceError>)
    ensures
        sizes_sum(sizes@) <= u64::MAX ==> res == Ok::<u64, EvidenceError>(
            sizes_sum(sizes@) as u64,
        ),
        sizes_sum(sizes@) > u64::MAX ==> res == Err::<u64, EvidenceError>(
            EvidenceError::SpoolCapacity,
        ),
{
    let mut bytes: u64 = 0;
    let mut i: usize = 0;
    while i < sizes.len()
        invariant
            i <= sizes@.len(),
            bytes == sizes_sum(sizes@.subrange(0, i as int)),
        decreases sizes@.len() - i,
    {
        proof {
            assert(sizes@.subrange(0, i + 1).drop_last() =~= sizes@.subrange(0, i as int));
        }
        match bytes.checked_add(sizes[i]) {
            Some(b) => bytes = b,
            None => {
                proof {
                    lemma_sizes_sum_prefix_monotone(sizes@, i + 1);
                }
                return Err(EvidenceError::SpoolCapacity);
            },
        }
        i += 1;
    }
    assert(sizes@.subrange(0, sizes@.len() as int) =~= sizes@);
    Ok(bytes)
}

/// Accounting after scanning directories `dirs[..i]` (`None` on failure).
pub open spec fn scan_rule(dirs: Seq<(Seq<char>, Seq<u64>)>) -> Result<
    (int, Map<u128, u64>),
    EvidenceError,
>
    decreases dirs.len(),
{
    if dirs.len() == 0 {
        Ok((0, Map::empty()))
    } else {
        match scan_rule(dirs.drop_last()) {
            Err(e) => Err(e),
            Ok((total, by_run)) => {
                let (name, sizes) = dirs.last();
                match run_directory_id(name) {
                    None => Err(EvidenceError::UnsafeSpool),
                    Some(id) => if sizes_sum(sizes) > u64::MAX || total + sizes_sum(sizes)
                        > u64::MAX {
                        Err(EvidenceError::SpoolCapacity)
                    } else {
                        Ok((total + sizes_sum(sizes), by_run.insert(id, sizes_sum(sizes) as u64)))
                    },
                }
            },
        }
    }
}

/// Bytes of one directory's files, added up from its first file.
pub open spec fn file_bytes(sizes: Seq<u64>) -> int
    decreases sizes.len(),
{
    if sizes.len() == 0 {
        0
    } else {
        sizes[0] + file_bytes(sizes.drop_first())
    }
}

/// Bytes of every file retained in the scanned Run directories.
pub open spec fn retained_bytes(dirs: Seq<(Seq<char>, Seq<u64>)>) -> int
    decreases dirs.len(),
{
    if dirs.len() == 0 {
        0
    } else {
        file_bytes(dirs[0].1) + retained_bytes(dirs.drop_first())
    }
}

proof fn lemma_file_bytes_last(sizes: Seq<u64>)
    requires
        sizes.len() > 0,
    ensures
        file_bytes(sizes) == file_bytes(sizes.drop_last()) + sizes.last(),
    decreases sizes.len(),
{
    let rest = sizes.drop_first();
    if sizes.len() == 1 {
        assert(rest.len() == 0);
        assert(sizes.drop_last().len() == 0);
        assert(file_bytes(rest) == 0);
        assert(file_bytes(sizes.drop_last()) == 0);
    } else {
        lemma_file_bytes_last(rest);
        assert(rest.drop_last() =~= sizes.drop_last().drop_first());
        assert(rest.last() == sizes.last());
        assert(sizes.drop_last()[0] == sizes[0]);
        assert(file_bytes(sizes.drop_last()) == sizes.drop_last()[0] + file_bytes(
            sizes.drop_last().drop_first(),
        ));
    }
}

proof fn lemma_file_bytes_is_sizes_sum(sizes: Seq<u64>)
    ensures
        file_bytes(sizes) == sizes_sum(sizes),
    decreases sizes.len(),
{
    if sizes.len() > 0 {
        lemma_file_bytes_is_sizes_sum(sizes.drop_last());
        lemma_file_bytes_last(sizes);
    } else {
        assert(file_bytes(sizes) == 0);
    }
}

proof fn lemma_retained_bytes_push(dirs: Seq<(Seq<char>, Seq<u64>)>)
    requires
        dirs.len() > 0,
    ensures
        retained_bytes(dirs) == retained_bytes(dirs.drop_last()) + file_bytes(dirs.last().1),
    decreases dirs.len(),
{
    let rest = dirs.drop_first();
    if dirs.len() == 1 {
        assert(rest.len() == 0);
        assert(dirs.drop_last().len() == 0);
        assert(retained_bytes(rest) == 0);
        assert(retained_bytes(dirs.drop_last()) == 0);
    } else {
        lemma_retained_bytes_push(rest);
        assert(rest.drop_last() =~= dirs.drop_last().drop_first());
        assert(rest.last() == dirs.last());
        assert(dirs.drop_last()[0] == dirs[0]);
        assert(retained_bytes(dirs.drop_last()) == file_bytes(dirs.drop_last()[0].1)
            + retained_bytes(dirs.drop_last().drop_first()));
    }
}

/// A restart scan counts every retained file against the spool: the
/// accounted total is the sum of every file size over all scanned Run
/// directories, and each Run directory's bytes are accounted to its Run
/// (the last directory naming a Run decides that Run's count).
pub proof fn lemma_restart_counts_every_retained_file(dirs: Seq<(Seq<char>, Seq<u64>)>)
    ensures
        scan_rule(dirs) matches Ok((total, by_run)) ==> {
            &&& total == retained_bytes(dirs)
            &&& forall|i: int|
                0 <= i < dirs.len() && (forall|j: int|
                    i < j < dirs.len() ==> run_directory_id(#[trigger] dirs[j].0)
                        != run_directory_id(dirs[i].0)) ==> (run_directory_id(#[trigger] dirs[i].0)
                    matches Some(id) && by_run.contains_key(id) && by_run[id] == file_bytes(
                    dirs[i].1,
                ))
        },
    decreases dirs.len(),
{
    if dirs.len() > 0 {
        let front = dirs.drop_last();
        lemma_restart_counts_every_retained_file(front);
        lemma_retained_bytes_push(dirs);
        lemma_file_bytes_is_sizes_sum(dirs.last().1);
        if scan_rule(dirs) is Ok {
            let (total, by_run) = scan_rule(dirs)->Ok_0;
            assert(scan_rule(front) is Ok);
            let (t0, m0) = scan_rule(front)->Ok_0;
            let last = dirs.len() - 1;
            assert(dirs.last() == dirs[last]);
            let idl = run_directory_id(dirs[last].0)->Some_0;
            assert(run_directory_id(dirs[last].0) is Some);
            assert(by_run == m0.insert(idl, sizes_sum(dirs[last].1) as u64));
            assert(total == t0 + sizes_sum(dirs[last].1));
            assert forall|i: int|
                0 <= i < dirs.len() && (forall|j: int|
                    i < j < dirs.len() ==> run_directory_id(#[trigger] dirs[j].0)
                        != run_directory_id(dirs[i].0)) implies (run_directory_id(
                #[trigger] dirs[i].0,
            ) matches Some(id) && by_run.contains_key(id) && by_run[id] == file_bytes(
                dirs[i].1,
            )) by {
                lemma_file_bytes_is_sizes_sum(dirs[i].1);
                if i < last {
                    assert(front[i] == dirs[i]);
                    assert forall|j: int| i < j < front.len() implies run_directory_id(
                        #[trigger] front[j].0,
                    ) != run_directory_id(front[i].0) by {
                        assert(front[j] == dirs[j]);
                        assert(run_directory_id(dirs[j].0) != run_directory_id(dirs[i].0));
                    }
                    assert(run_directory_id(dirs[last].0) != run_directory_id(dirs[i].0));
                    assert(run_directory_id(front[i].0) matches Some(id) && m0.contains_key(id)
                        && m0[id] == file_bytes(front[i].1));
                } else {
                    assert(i == last);
                    lemma_sizes_sum_nonneg(dirs[i].1);
                }
            }
        }
    }
}

/// Spec view of scanned directories.
pub open spec fn scanned_view(dirs: Seq<ScannedRunDirectory>) -> Seq<(Seq<char>, Seq<u64>)> {
    dirs.map_values(|d: ScannedRunDirectory| (d.name@, d.file_sizes@))
}

impl SpoolUsage {
    /// Accounts for the files retained in a spool after restart. Every Run
    /// directory must be named by a version-7 UUID; sizes that overflow are a
    /// capacity failure.
    pub fn from_scan(dirs: &Vec<ScannedRunDirectory>) -> (res: Result<SpoolUsage, EvidenceError>)
        ensures
            match scan_rule(scanned_view(dirs@)) {
                Ok((total, by_run)) => res matches Ok(u) && u.total_view() == total
                    && u.by_run_view() == by_run,
                Err(e) => res == Err::<SpoolUsage, EvidenceError>(e),
            },
            res matches Ok(u) ==> u.total_view() == retained_bytes(scanned_view(dirs@)),
            res matches Ok(u) ==> forall|i: int, run: u128|
                0 <= i < dirs@.len() && #[trigger] uuid_text(run) == #[trigger] dirs@[i].name@
                    ==> u.by_run_view().contains_key(run),
    {
        let ghost view = scanned_view(dirs@);
        let mut total: u64 = 0;
        let mut by_run: BTreeMap<u128, u64> = BTreeMap::new();
        let mut i: usize = 0;
        while i < dirs.len()
            invariant
                i <= dirs@.len(),
                view == scanned_view(dirs@),
                scan_rule(view.subrange(0, i as int)) == Ok::<(int, Map<u128, u64>), EvidenceError>(
                    (total as int, by_run@),
                ),
                forall|k: int, run: u128|
                    0 <= k < i && #[trigger] uuid_text(run) == #[trigger] dirs@[k].name@
                        ==> by_run@.contains_key(run),
            decreases dirs@.len() - i,
        {
            proof {
                assert(view.subrange(0, i + 1).drop_last() =~= view.subrange(0, i as int));
                assert(view.subrange(0, i + 1).last() == (dirs@[i as int].name@, dirs@[
                    i as int
                ].file_sizes@));
                lemma_sizes_sum_nonneg(dirs@[i as int].file_sizes@);
            }
            let run_id = match parse_uuid(dirs[i].name.as_str()) {
                Some(bits) => bits,
                None => {
                    proof {
                        lemma_scan_prefix_err(view, i as int + 1);
                    }
                    return Err(EvidenceError::UnsafeSpool);
                },
            };
            if !uuid_is_v7(run_id) {
                proof {
                    lemma_scan_prefix_err(view, i as int + 1);
                }
                return Err(EvidenceError::UnsafeSpool);
            }
            let bytes = match directory_bytes(&dirs[i].file_sizes) {
                Ok(b) => b,
                Err(e) => {
                    proof {
                        lemma_scan_prefix_err(view, i as int + 1);
                    }
                    return Err(e);
                },
            };
            total = match total.checked_add(bytes) {
                Some(t) => t,
                None => {
                    proof {
                        lemma_scan_prefix_err(view, i as int + 1);
                    }
                    return Err(EvidenceError::SpoolCapacity);
                },
            };
            by_run.insert(run_id, bytes);
            i += 1;
        }
        proof {
            assert(view.subrange(0, dirs@.len() as int) =~= view);
            lemma_restart_counts_every_retained_file(view);
        }
        Ok(SpoolUsage { total, by_run })
    }
}

/// A failure on a prefix of the directories is the failure of the whole scan.
proof fn lemma_scan_prefix_err(dirs: Seq<(Seq<char>, Seq<u64>)>, i: int)
    requires
        0 <= i <= dirs.len(),
        scan_rule(dirs.subrange(0, i)) is Err,
    ensures
        scan_rule(dirs) == scan_rule(dirs.subrange(0, i)),
    decreases dirs.len() - i,
{
    if i < dirs.len() {
        assert(dirs.subrange(0, i + 1).drop_last() =~= dirs.subrange(0, i));
        lemma_scan_prefix_err(dirs, i + 1);
    } else {
        assert(dirs.subrange(0, i) =~= dirs);
    }
}

/// Reservations keep a spool within its limits: starting within them, every
/// successful reservation leaves the total within the global limit and the
/// Run within its per-Run limit.
pub proof fn lemma_reservation_respects_limits(
    limits: SpoolLimits,
    total: u64,
    by_run: Map<u128, u64>,
    run_id: u128,
    bytes: u64,
)
    requires
        total <= limits.global_bytes,
        run_bytes(by_run, run_id) <= limits.per_run_bytes,
        fits(limits, total, run_bytes(by_run, run_id), bytes),
    ensures
        total + bytes <= limits.global_bytes,
        run_bytes(by_run.insert(run_id, (run_bytes(by_run, run_id) + bytes) as u64), run_id)
            <= limits.per_run_bytes,
{
}

/// Releasing the bytes of a successful reservation undoes it: the total and
/// every Run's accounted bytes return to what they were before.
pub proof fn lemma_release_undoes_reservation(
    limits: SpoolLimits,
    total: u64,
    by_run: Map<u128, u64>,
    run_id: u128,
    bytes: u64,
)
    requires
        fits(limits, total, run_bytes(by_run, run_id), bytes),
    ensures
        ({
            let reserved_total = (total + bytes) as u64;
            let reserved = by_run.insert(run_id, (run_bytes(by_run, run_id) + bytes) as u64);
            let released = reserved.insert(run_id, sat_sub(reserved[run_id], bytes));
            &&& sat_sub(reserved_total, bytes) == total
            &&& forall|other: u128| #[trigger] run_bytes(released, other) == run_bytes(by_run, other)
        }),
{
    let reserved = by_run.insert(run_id, (run_bytes(by_run, run_id) + bytes) as u64);
    let released = reserved.insert(run_id, sat_sub(reserved[run_id], bytes));
    assert forall|other: u128| #[trigger] run_bytes(released, other) == run_bytes(by_run, other) by {
        if other != run_id {
            assert(released.contains_key(other) == by_run.contains_key(other));
        }
    }
}


/// A spool's accounting is within its limits: the total within the global
/// limit and every Run within the per-Run limit.
pub open spec fn within_limits(limits: SpoolLimits, total: u64, by_run: Map<u128, u64>) -> bool {
    &&& total <= limits.global_bytes
    &&& forall|r: u128| #[trigger] run_bytes(by_run, r) <= limits.per_run_bytes
}

/// One accounting operation of a spool.
pub enum SpoolOp {
    /// `SpoolUsage::reserve` of `bytes` for `run_id`.
    Reserve { run_id: u128, bytes: u64 },
    /// `SpoolUsage::release` of `bytes` from `run_id`.
    Release { run_id: u128, bytes: u64 },
}

/// `after` is an accounting that `op` can leave `before` in, by the contracts
/// of `SpoolUsage::reserve` and `SpoolUsage::release`.
pub open spec fn spool_step(
    limits: SpoolLimits,
    before: (u64, Map<u128, u64>),
    op: SpoolOp,
    after: (u64, Map<u128, u64>),
) -> bool {
    match op {
        SpoolOp::Reserve { run_id, bytes } => {
            let run = run_bytes(before.1, run_id);
            if fits(limits, before.0, run, bytes) {
                after.0 == before.0 + bytes && after.1 == before.1.insert(run_id, (run + bytes) as u64)
            } else {
                after == before
            }
        },
        SpoolOp::Release { run_id, bytes } => {
            &&& after.0 == sat_sub(before.0, bytes)
            &&& before.1.contains_key(run_id) ==> after.1 == before.1.insert(
                run_id,
                sat_sub(before.1[run_id], bytes),
            )
            &&& !before.1.contains_key(run_id) ==> after.1 == before.1
        },
    }
}

/// Spool accounting stays within its limits across any sequence of
/// reservations and releases, for any Runs: a spool opened within its limits
/// (`states[0]`) is within them after every operation (`states[i + 1]` is the
/// accounting after `ops[i]`).
pub proof fn lemma_spool_stays_within_limits(
    limits: SpoolLimits,
    ops: Seq<SpoolOp>,
    states: Seq<(u64, Map<u128, u64>)>,
)
    requires
        states.len() == ops.len() + 1,
        within_limits(limits, states[0].0, states[0].1),
        forall|i: int|
            0 <= i < ops.len() ==> spool_step(limits, states[i], #[trigger] ops[i], states[i + 1]),
    ensures
        forall|i: int| 0 <= i < states.len() ==> within_limits(limits, #[trigger] states[i].0, states[i].1),
    decreases ops.len(),
{
    if ops.len() > 0 {
        let k = ops.len() - 1;
        lemma_spool_stays_within_limits(limits, ops.take(k), states.take(k + 1));
        assert(spool_step(limits, states[k], ops[k], states[k + 1]));
        assert(within_limits(limits, states.take(k + 1)[k].0, states.take(k + 1)[k].1));
        let before = states[k];
        let after = states[k + 1];
        assert forall|r: u128| #[trigger] run_bytes(after.1, r) <= limits.per_run_bytes by {
            assert(run_bytes(before.1, r) <= limits.per_run_bytes);
        }
        assert forall|i: int| 0 <= i < states.len() implies within_limits(
            limits,
            #[trigger] states[i].0,
            states[i].1,
        ) by {
            if i < k + 1 {
                assert(states.take(k + 1)[i] == states[i]);
            }
        }
    }
}

} // verus!
