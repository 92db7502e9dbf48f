//! The size-rotated file sink: a live file that tracks its byte count and,
//! once a write pushes it past the size threshold, moves into a bounded
//! history of rotated files and restarts empty.

use vstd::prelude::*;

verus! {

/// Rotation settings of the file sink.
#[derive(Clone, Copy, Debug, PartialEq, Eq, Structural)]
pub struct RotationPolicy {
    /// Size threshold: rotation triggers once the live file reaches this
    /// many bytes. The check runs after each write, so the live file may
    /// exceed the threshold by up to one record before it rotates.
    pub max_bytes: u64,
    /// How many rotated historical files are retained.
    pub keep_count: usize,
    /// Whether rotated-out files are compressed.
    pub compress: bool,
}

/// A rotated-out historical file.
#[derive(Debug)]
pub struct ArchivedFile {
    /// The records the file holds, oldest first.
    pub records: Vec<Vec<u8>>,
    /// Whether the file is stored compressed.
    pub compressed: bool,
}

/// Mathematical view of an archived file.
#[verifier::ext_equal]
pub struct ArchiveModel {
    pub records: Seq<Seq<u8>>,
    pub compressed: bool,
}

impl View for ArchivedFile {
    type V = ArchiveModel;

    open spec fn view(&self) -> ArchiveModel {
        ArchiveModel { records: self.records.deep_view(), compressed: self.compressed }
    }
}

/// Why a write was refused.
#[derive(Clone, Copy, Debug, PartialEq, Eq, Structural)]
pub enum SinkError {
    /// The sink entered the permanently failed state; every later write is
    /// refused until the process restarts.
    Failed,
}

/// Mathematical view of the rotating file sink.
#[verifier::ext_equal]
pub struct SinkModel {
    /// Target path of the live file.
    pub path: Seq<u8>,
    /// Records of the live file, oldest first.
    pub live: Seq<Seq<u8>>,
    /// Rotated files, newest first: entry 0 stands for `path.1`.
    pub history: Seq<ArchiveModel>,
    /// Whether the sink is permanently failed.
    pub failed: bool,
    pub max_bytes: u64,
    pub keep_count: usize,
    pub compress: bool,
}

/// Total byte count of a sequence of records.
pub open spec fn total_bytes(records: Seq<Seq<u8>>) -> int
    decreases records.len(),
{
    if records.len() == 0 {
        0
    } else {
        total_bytes(records.drop_last()) + records.last().len()
    }
}

/// Appending one record grows the total by that record's length.
pub proof fn lemma_total_bytes_push(records: Seq<Seq<u8>>, r: Seq<u8>)
    ensures
        total_bytes(records.push(r)) == total_bytes(records) + r.len(),
{
    assert(records.push(r).drop_last() =~~= records);
}

/// A total byte count is never negative.
pub proof fn lemma_total_bytes_nonneg(records: Seq<Seq<u8>>)
    ensures
        total_bytes(records) >= 0,
    decreases records.len(),
{
    if records.len() > 0 {
        lemma_total_bytes_nonneg(records.drop_last());
    }
}

impl SinkModel {
    /// Model invariant: the history never exceeds the retention count, and
    /// at rest the live file is strictly under the threshold unless empty.
    pub open spec fn wf(self) -> bool {
        &&& self.history.len() <= self.keep_count
        &&& (total_bytes(self.live) < self.max_bytes || self.live.len() == 0)
    }
}

/// The rotation step on a full live file: the live records move into the
/// newest history slot, older entries shift one slot back, the oldest entry
/// is dropped when the retention count was already full, and the live file
/// restarts empty. With a retention count of zero the full file is simply
/// discarded.
pub open spec fn spec_rotate(m: SinkModel, full: Seq<Seq<u8>>) -> SinkModel {
    if m.keep_count == 0 {
        SinkModel { live: Seq::empty(), ..m }
    } else {
        let kept = if m.history.len() < m.keep_count {
            m.history
        } else {
            m.history.subrange(0, m.keep_count - 1)
        };
        SinkModel {
            live: Seq::empty(),
            history: seq![ArchiveModel { records: full, compressed: m.compress }] + kept,
            ..m
        }
    }
}

/// What one write does to the sink model: a failed sink refuses the line and
/// stays unchanged; otherwise the line lands in the live file, and the sink
/// rotates when the live size has reached the threshold (so the triggering
/// line itself lands in the file being rotated out). `Ok(true)` reports a
/// rotation.
pub open spec fn spec_write(m: SinkModel, line: Seq<u8>) -> (SinkModel, Result<
    bool,
    SinkError,
>) {
    if m.failed {
        (m, Err(SinkError::Failed))
    } else {
        let grown = m.live.push(line);
        if total_bytes(grown) >= m.max_bytes {
            (spec_rotate(m, grown), Ok(true))
        } else {
            (SinkModel { live: grown, ..m }, Ok(false))
        }
    }
}

/// The rotating file sink.
#[derive(Debug)]
pub struct RotatingFileSink {
    /// Target path of the live file, handed through to the embedder that
    /// mirrors the sink on disk.
    pub path: Vec<u8>,
    pub policy: RotationPolicy,
    /// Records of the live file, oldest first.
    pub live: Vec<Vec<u8>>,
    /// Cached byte count of the live file.
    pub live_bytes: u128,
    /// Rotated files, newest first: entry 0 stands for `path.1`.
    pub history: Vec<ArchivedFile>,
    /// Permanently failed: set when the backing file could not be reopened.
    pub failed: bool,
}

impl View for RotatingFileSink {
    type V = SinkModel;

    open spec fn view(&self) -> SinkModel {
        SinkModel {
            path: self.path@,
            live: self.live.deep_view(),
            history: self.history@.map_values(|a: ArchivedFile| a@),
            failed: self.failed,
            max_bytes: self.policy.max_bytes,
            keep_count: self.policy.keep_count,
            compress: self.policy.compress,
        }
    }
}

impl RotatingFileSink {
    /// The sink's invariant: the cached byte count matches the live records
    /// and the model invariant holds.
    pub open spec fn wf(self) -> bool {
        &&& self.live_bytes as int == total_bytes(self@.live)
        &&& self@.wf()
    }

    /// A fresh sink at `path` under `policy`: empty live file, no history.
    pub fn new(path: Vec<u8>, policy: RotationPolicy) -> (s: RotatingFileSink)
        ensures
            s.wf(),
            s@ == (SinkModel {
                path: path@,
                live: Seq::empty(),
                history: Seq::empty(),
                failed: false,
                max_bytes: policy.max_bytes,
                keep_count: policy.keep_count,
                compress: policy.compress,
            }),
    {
        let s = RotatingFileSink {
            path,
            policy,
            live: Vec::new(),
            live_bytes: 0,
            history: Vec::new(),
            failed: false,
        };
        proof {
            assert(s@.live =~~= Seq::<Seq<u8>>::empty());
            assert(s@.history =~= Seq::<ArchiveModel>::empty());
        }
        s
    }

    /// Writes one rendered line. The line always lands in the live file
    /// first; the rotation check runs after the write, so the live file may
    /// exceed the threshold by this one line just before rotating.
    pub fn write(&mut self, line: Vec<u8>) -> (r: Result<bool, SinkError>)
        requires
            old(self).wf(),
        ensures
            final(self).wf(),
            final(self)@ == spec_write(old(self)@, line@).0,
            r == spec_write(old(self)@, line@).1,
    {
        if self.failed {
            return Err(SinkError::Failed);
        }
        proof {
            lemma_total_bytes_nonneg(self@.live);
            lemma_total_bytes_push(self@.live, line@);
        }
        let ghost grown = old(self)@.live.push(line@);
        let line_len: u128 = line.len() as u128;
        self.live_bytes = self.live_bytes + line_len;
        self.live.push(line);
        proof {
            assert(self@.live =~~= grown);
        }
        if self.live_bytes >= self.policy.max_bytes as u128 {
            let mut full: Vec<Vec<u8>> = Vec::new();
            core::mem::swap(&mut self.live, &mut full);
            self.live_bytes = 0;
            proof {
                assert(self@.live =~~= Seq::<Seq<u8>>::empty());
            }
            if self.policy.keep_count > 0 {
                let ghost pre_history = self@.history;
                let archive = ArchivedFile { records: full, compressed: self.policy.compress };
                proof {
                    assert(archive@ =~~= (ArchiveModel {
                        records: grown,
                        compressed: old(self)@.compress,
                    }));
                }
                self.history.insert(0, archive);
                proof {
                    assert(self@.history =~~= seq![archive@] + pre_history);
                }
                if self.history.len() > self.policy.keep_count {
                    let ghost before_pop = self@.history;
                    let _ = self.history.pop();
                    proof {
                        assert(self@.history =~~= before_pop.subrange(
                            0,
                            before_pop.len() - 1,
                        ));
                        assert(self@.history =~~= seq![archive@] + pre_history.subrange(
                            0,
                            old(self)@.keep_count - 1,
                        ));
                    }
                }
            }
            proof {
                assert(self@ =~~= spec_rotate(old(self)@, grown));
            }
            Ok(true)
        } else {
            proof {
                assert(self@ =~~= (SinkModel { live: grown, ..old(self)@ }));
            }
            Ok(false)
        }
    }

    /// Moves the sink to the permanently failed state, used after the
    /// backing file could not be renamed or reopened during a rotation;
    /// every later write is refused, with no in-process recovery.
    pub fn mark_failed(&mut self)
        requires
            old(self).wf(),
        ensures
            final(self).wf(),
            final(self)@ == (SinkModel { failed: true, ..old(self)@ }),
    {
        self.failed = true;
        proof {
            assert(self@ =~~= (SinkModel { failed: true, ..old(self)@ }));
        }
    }
}

/// One rename of the on-disk rotation dance: the file at slot `source`
/// moves to slot `target`, where slot 0 is the live path and slot `i` is
/// the numbered historical file `path.i`.
#[derive(Clone, Copy, Debug, PartialEq, Eq, Structural)]
pub struct RenameStep {
    pub source: usize,
    pub target: usize,
}

/// The on-disk renames that realize one rotation, in execution order: for a
/// retention count `k`, first `path.(k-1)` to `path.k` (overwriting the
/// oldest file) down to `path.1` to `path.2`, then the live `path` to
/// `path.1`. Empty when nothing is retained.
pub fn rotation_rename_steps(keep_count: usize) -> (steps: Vec<RenameStep>)
    ensures
        steps@.len() == keep_count,
        forall|j: int|
            0 <= j < keep_count ==> steps@[j] == (RenameStep {
                source: (keep_count - 1 - j) as usize,
                target: (keep_count - j) as usize,
            }),
{
    let mut steps: Vec<RenameStep> = Vec::new();
    let mut i: usize = keep_count;
    while i > 0
        invariant
            i <= keep_count,
            steps@.len() == keep_count - i,
            forall|j: int|
                0 <= j < steps@.len() ==> steps@[j] == (RenameStep {
                    source: (keep_count - 1 - j) as usize,
                    target: (keep_count - j) as usize,
                }),
        decreases i,
    {
        steps.push(RenameStep { source: i - 1, target: i });
        i = i - 1;
    }
    steps
}

/// Retention law: a well-formed sink retains at most `keep_count`
/// historical files, so together with the live file at most
/// `keep_count + 1` files exist at any time.
pub proof fn lemma_retention_bounded(m: SinkModel)
    requires
        m.wf(),
    ensures
        m.history.len() + 1 <= m.keep_count + 1,
{
}

/// Rotation preserves records: when a write triggers a rotation, every
/// record of the previous live file, the triggering line included, sits in
/// the newest history entry, in order and exactly once; the older history
/// entries shift back one slot unchanged, and the oldest is dropped only
/// when the retention count was already full.
pub proof fn lemma_rotation_preserves_records(m: SinkModel, line: Seq<u8>)
    requires
        m.wf(),
        !m.failed,
        m.keep_count >= 1,
        total_bytes(m.live.push(line)) >= m.max_bytes,
    ensures
        ({
            let post = spec_write(m, line).0;
            &&& post.live.len() == 0
            &&& post.history.len() >= 1
            &&& post.history[0].records == m.live.push(line)
            &&& post.history[0].compressed == m.compress
            &&& forall|i: int| 1 <= i < post.history.len() ==> post.history[i] == m.history[i - 1]
            &&& post.history.len() == if m.history.len() < m.keep_count {
                m.history.len() + 1
            } else {
                m.keep_count as nat
            }
        }),
{
    let post = spec_write(m, line).0;
    assert(post == spec_rotate(m, m.live.push(line)));
}

/// Overshoot law: the live file exceeds the size threshold by at most one
/// write. The rotation check runs after each write, so just before that
/// check the live size is at most the threshold plus the length of the
/// write that landed last.
pub proof fn lemma_overshoot_bounded(m: SinkModel, line: Seq<u8>)
    requires
        m.wf(),
    ensures
        total_bytes(m.live.push(line)) <= m.max_bytes + line.len(),
{
    lemma_total_bytes_push(m.live, line);
    lemma_total_bytes_nonneg(m.live);
}

/// Size-reset law: a write that does not trigger rotation leaves exactly
/// the records since the most recent rotation in the live file, still under
/// the threshold; a write that does trigger one restarts the live file at
/// size zero.
pub proof fn lemma_live_size_reset(m: SinkModel, line: Seq<u8>)
    requires
        m.wf(),
        !m.failed,
    ensures
        ({
            let post = spec_write(m, line).0;
            &&& total_bytes(m.live.push(line)) >= m.max_bytes ==> post.live
                == Seq::<Seq<u8>>::empty() && total_bytes(post.live) == 0
            &&& total_bytes(m.live.push(line)) < m.max_bytes ==> post.live == m.live.push(line)
                && total_bytes(post.live) < m.max_bytes
        }),
{
}

} // verus!
