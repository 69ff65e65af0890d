//! The file-rotation model: an immutable rotation policy (size threshold in
//! bytes and retention count) and the bookkeeping state of the live log file
//! and its rotated archives. Writing a record grows the live byte counter;
//! reaching the threshold archives the live file under a rotation stamp and
//! trims the archive list to the retention count, oldest first.

use vstd::prelude::*;

verus! {

/// An immutable rotation policy: rotate once the live file holds at least
/// `max_size` bytes; keep at most `max_count` rotated archives.
#[derive(Clone, Copy, Debug, PartialEq, Eq, Structural)]
pub struct RotationPolicy {
    pub max_size: u64,
    pub max_count: usize,
}

/// The configured size in KB, with the default applied when absent.
pub open spec fn spec_size_kb(size_kb: Option<u64>) -> int {
    match size_kb {
        Some(k) => k as int,
        None => 128,
    }
}

/// The configured retention count, with the default applied when absent.
pub open spec fn spec_count(count: Option<usize>) -> int {
    match count {
        Some(c) => c as int,
        None => 8,
    }
}

/// The policy the configured values yield: the size criterion is the KB
/// value times 1024; absent values fall back to 128 KB and 8 files.
pub open spec fn spec_policy(size_kb: Option<u64>, count: Option<usize>) -> RotationPolicy {
    RotationPolicy {
        max_size: (spec_size_kb(size_kb) * 1024) as u64,
        max_count: spec_count(count) as usize,
    }
}

/// Build a rotation policy from the collaborator-provided configuration.
pub fn policy_from_config(size_kb: Option<u64>, count: Option<usize>) -> (r: RotationPolicy)
    requires
        spec_size_kb(size_kb) * 1024 <= u64::MAX,
    ensures
        r == spec_policy(size_kb, count),
{
    let kb: u64 = match size_kb {
        Some(k) => k,
        None => 128,
    };
    let cnt: usize = match count {
        Some(c) => c,
        None => 8,
    };
    RotationPolicy { max_size: kb * 1024, max_count: cnt }
}

/// The mathematical view of a [`FileState`]: the live file's byte count and
/// the rotation stamps of the archives on disk, oldest first.
#[verifier::ext_equal]
pub ghost struct FileModel {
    pub live: int,
    pub archives: Seq<u64>,
}

/// The model of a freshly opened sink: empty live file, no archives.
pub open spec fn fresh_file() -> FileModel {
    FileModel { live: 0, archives: Seq::empty() }
}

/// Nondecreasing stamps, oldest first.
pub open spec fn sorted(s: Seq<u64>) -> bool {
    forall|i: int, j: int| 0 <= i <= j < s.len() ==> s[i] <= s[j]
}

/// A well-formed file model: archives ordered oldest first, a nonnegative
/// live byte count.
pub open spec fn file_wf(m: FileModel) -> bool {
    sorted(m.archives) && m.live >= 0
}

/// A rotation stamp that does not precede any archive already on disk.
pub open spec fn spec_stamp_ok(m: FileModel, stamp: u64) -> bool {
    forall|i: int| 0 <= i < m.archives.len() ==> m.archives[i] <= stamp
}

/// Keep the `n` most recent elements, dropping the oldest.
pub open spec fn trim_oldest(s: Seq<u64>, n: int) -> Seq<u64> {
    if s.len() <= n {
        s
    } else {
        s.skip(s.len() - n)
    }
}

/// Whether writing `bytes` more bytes reaches the rotation threshold.
pub open spec fn spec_rotates(m: FileModel, p: RotationPolicy, bytes: u64) -> bool {
    m.live + bytes >= p.max_size
}

/// The state after one record of `bytes` bytes: the live counter grows, and
/// on reaching the threshold the live file is archived under `stamp`, the
/// archive list trimmed to the retention count, and the counter reset.
pub open spec fn spec_note(m: FileModel, p: RotationPolicy, bytes: u64, stamp: u64) -> FileModel {
    if spec_rotates(m, p, bytes) {
        FileModel {
            live: 0,
            archives: trim_oldest(m.archives.push(stamp), p.max_count as int),
        }
    } else {
        FileModel { live: m.live + bytes, archives: m.archives }
    }
}

/// The bookkeeping state of the rotating file writer.
pub struct FileState {
    live_bytes: u64,
    archives: Vec<u64>,
}

impl View for FileState {
    type V = FileModel;

    closed spec fn view(&self) -> FileModel {
        FileModel { live: self.live_bytes as int, archives: self.archives@ }
    }
}

impl FileState {
    /// Internal invariant: archives are ordered oldest first.
    pub open spec fn wf(&self) -> bool {
        file_wf(self@)
    }

    /// A freshly opened live file.
    pub fn new() -> (r: FileState)
        ensures
            r@ == fresh_file(),
            r.wf(),
    {
        let r = FileState { live_bytes: 0, archives: Vec::new() };
        proof {
            assert(r@ =~= fresh_file());
        }
        r
    }

    /// Bytes accumulated in the live file since the last rotation.
    pub fn live_bytes(&self) -> (r: u64)
        ensures
            r as int == self@.live,
    {
        self.live_bytes
    }

    /// How many rotated archives are on disk.
    pub fn archive_count(&self) -> (r: usize)
        ensures
            r as int == self@.archives.len(),
    {
        self.archives.len()
    }

    /// The rotation stamp of the archive at `i`, oldest first.
    pub fn archive_at(&self, i: usize) -> (r: u64)
        requires
            i < self@.archives.len(),
        ensures
            r == self@.archives[i as int],
    {
        self.archives[i]
    }

    /// Account for one record of `bytes` bytes written to the live file;
    /// rotate under `stamp` when the threshold is reached, trimming the
    /// archives to the policy's retention count.
    pub fn note_record(&mut self, p: &RotationPolicy, bytes: u64, stamp: u64) -> (rotated: bool)
        requires
            old(self).wf(),
            old(self)@.live + bytes <= u64::MAX,
            spec_stamp_ok(old(self)@, stamp),
        ensures
            final(self)@ == spec_note(old(self)@, *p, bytes, stamp),
            rotated == spec_rotates(old(self)@, *p, bytes),
            final(self).wf(),
    {
        let grown = self.live_bytes + bytes;
        if grown >= p.max_size {
            self.archives.push(stamp);
            let ghost target = old(self)@.archives.push(stamp);
            proof {
                lemma_sorted_push(old(self)@.archives, stamp);
            }
            while self.archives.len() > p.max_count
                invariant
                    self.archives@.len() <= target.len(),
                    self.archives@ == target.skip(target.len() - self.archives@.len()),
                    self.archives@.len() >= vstd::math::min(target.len() as int, p.max_count as int),
                decreases self.archives@.len(),
            {
                self.archives.remove(0);
                proof {
                    assert(self.archives@ =~= target.skip(target.len() - self.archives@.len()));
                }
            }
            self.live_bytes = 0;
            proof {
                assert(target.skip(0) =~= target);
                assert(self@.archives =~= trim_oldest(target, p.max_count as int));
                assert(self@ =~= spec_note(old(self)@, *p, bytes, stamp));
                lemma_sorted_skip(target, target.len() - self@.archives.len());
            }
            true
        } else {
            self.live_bytes = grown;
            proof {
                assert(self@ =~= spec_note(old(self)@, *p, bytes, stamp));
            }
            false
        }
    }
}

/// The state after a whole sequence of records, each a pair of byte count
/// and rotation stamp, written in order.
pub open spec fn apply_records(m: FileModel, p: RotationPolicy, recs: Seq<(u64, u64)>) -> FileModel
    decreases recs.len(),
{
    if recs.len() == 0 {
        m
    } else {
        apply_records(spec_note(m, p, recs[0].0, recs[0].1), p, recs.drop_first())
    }
}

/// The stamps of the rotations that a sequence of records triggers, in the
/// order the rotations occur.
pub open spec fn rotation_stamps(m: FileModel, p: RotationPolicy, recs: Seq<(u64, u64)>) -> Seq<
    u64,
>
    decreases recs.len(),
{
    if recs.len() == 0 {
        Seq::empty()
    } else {
        let rest = rotation_stamps(spec_note(m, p, recs[0].0, recs[0].1), p, recs.drop_first());
        if spec_rotates(m, p, recs[0].0) {
            seq![recs[0].1] + rest
        } else {
            rest
        }
    }
}

/// The total content bytes of a sequence of records.
pub open spec fn sum_bytes(recs: Seq<(u64, u64)>) -> int
    decreases recs.len(),
{
    if recs.len() == 0 {
        0
    } else {
        recs[0].0 + sum_bytes(recs.drop_first())
    }
}

/// Below the threshold nothing rotates: as long as the live bytes plus the
/// whole content stay under the size criterion, no archive is created and
/// the live counter simply accumulates every byte.
pub proof fn lemma_no_rotation(m: FileModel, p: RotationPolicy, recs: Seq<(u64, u64)>)
    requires
        m.live >= 0,
        m.live + sum_bytes(recs) < p.max_size,
    ensures
        rotation_stamps(m, p, recs) == Seq::<u64>::empty(),
        apply_records(m, p, recs).live == m.live + sum_bytes(recs),
        apply_records(m, p, recs).archives == m.archives,
    decreases recs.len(),
{
    if recs.len() > 0 {
        let b0 = recs[0].0;
        assert(sum_bytes(recs.drop_first()) >= 0) by {
            lemma_sum_nonneg(recs.drop_first());
        }
        assert(!spec_rotates(m, p, b0));
        let m1 = spec_note(m, p, b0, recs[0].1);
        lemma_no_rotation(m1, p, recs.drop_first());
    }
}

/// Record byte counts are unsigned, so every total is nonnegative.
pub proof fn lemma_sum_nonneg(recs: Seq<(u64, u64)>)
    ensures
        sum_bytes(recs) >= 0,
    decreases recs.len(),
{
    if recs.len() > 0 {
        lemma_sum_nonneg(recs.drop_first());
    }
}

/// Crossing the threshold once rotates exactly once: from a live file below
/// the threshold, writing records whose total reaches the size criterion but
/// stays under twice of it creates exactly one archive, and afterwards the
/// live counter holds only the bytes written after that rotation.
pub proof fn lemma_rotation_threshold(m: FileModel, p: RotationPolicy, recs: Seq<(u64, u64)>)
    requires
        m.live >= 0,
        m.live < p.max_size,
        m.live + sum_bytes(recs) >= p.max_size,
        m.live + sum_bytes(recs) < 2 * p.max_size,
    ensures
        rotation_stamps(m, p, recs).len() == 1,
        apply_records(m, p, recs).live <= m.live + sum_bytes(recs) - p.max_size,
        apply_records(m, p, recs).live >= 0,
        apply_records(m, p, recs).live < p.max_size,
    decreases recs.len(),
{
    assert(recs.len() > 0);
    let b0 = recs[0].0;
    let m1 = spec_note(m, p, b0, recs[0].1);
    assert(sum_bytes(recs.drop_first()) >= 0) by {
        lemma_sum_nonneg(recs.drop_first());
    }
    if spec_rotates(m, p, b0) {
        lemma_no_rotation(m1, p, recs.drop_first());
    } else {
        lemma_rotation_threshold(m1, p, recs.drop_first());
    }
}

/// The index of the first record whose write reaches the rotation
/// threshold, or the length of the sequence when none does.
pub open spec fn rotation_point(m: FileModel, p: RotationPolicy, recs: Seq<(u64, u64)>) -> int
    decreases recs.len(),
{
    if recs.len() == 0 {
        0
    } else if spec_rotates(m, p, recs[0].0) {
        0
    } else {
        1 + rotation_point(spec_note(m, p, recs[0].0, recs[0].1), p, recs.drop_first())
    }
}

/// Crossing the threshold once, in detail: the single archive carries the
/// stamp of the record that crossed, and afterwards the live counter holds
/// exactly the bytes of the records written after that one — nothing from
/// before the rotation.
pub proof fn lemma_live_counts_post_rotation_writes(
    m: FileModel,
    p: RotationPolicy,
    recs: Seq<(u64, u64)>,
)
    requires
        m.live >= 0,
        m.live < p.max_size,
        m.live + sum_bytes(recs) >= p.max_size,
        m.live + sum_bytes(recs) < 2 * p.max_size,
    ensures
        0 <= rotation_point(m, p, recs) < recs.len(),
        rotation_stamps(m, p, recs) == seq![recs[rotation_point(m, p, recs)].1],
        apply_records(m, p, recs).live == sum_bytes(recs.skip(rotation_point(m, p, recs) + 1)),
    decreases recs.len(),
{
    assert(recs.len() > 0);
    let b0 = recs[0].0;
    let m1 = spec_note(m, p, b0, recs[0].1);
    let rest = recs.drop_first();
    assert(sum_bytes(rest) >= 0) by {
        lemma_sum_nonneg(rest);
    }
    if spec_rotates(m, p, b0) {
        lemma_no_rotation(m1, p, rest);
        assert(recs.skip(1) =~= rest);
        assert(rotation_stamps(m, p, recs) =~= seq![recs[0].1]);
    } else {
        lemma_live_counts_post_rotation_writes(m1, p, rest);
        let k1 = rotation_point(m1, p, rest);
        assert(rest.skip(k1 + 1) =~= recs.skip(k1 + 2));
        assert(rest[k1] == recs[k1 + 1]);
    }
}

/// Whatever happens, an archive list that starts within the retention count
/// stays within it, and it holds exactly the most recent rotation stamps:
/// the ones beyond the retention count — the oldest — are the ones deleted.
pub proof fn lemma_retention(m: FileModel, p: RotationPolicy, recs: Seq<(u64, u64)>)
    requires
        m.archives.len() <= p.max_count,
    ensures
        apply_records(m, p, recs).archives == trim_oldest(
            m.archives + rotation_stamps(m, p, recs),
            p.max_count as int,
        ),
        apply_records(m, p, recs).archives.len() <= p.max_count,
    decreases recs.len(),
{
    let stamps = rotation_stamps(m, p, recs);
    if recs.len() == 0 {
        assert(m.archives + stamps =~= m.archives);
    } else {
        let b0 = recs[0].0;
        let s0 = recs[0].1;
        let m1 = spec_note(m, p, b0, s0);
        let rest = rotation_stamps(m1, p, recs.drop_first());
        if spec_rotates(m, p, b0) {
            assert(m1.archives.len() <= p.max_count);
            lemma_retention(m1, p, recs.drop_first());
            assert(m.archives.push(s0) =~= m.archives + seq![s0]);
            lemma_trim_absorb(m.archives + seq![s0], rest, p.max_count as int);
            assert((m.archives + seq![s0]) + rest =~= m.archives + (seq![s0] + rest));
        } else {
            lemma_retention(m1, p, recs.drop_first());
        }
    }
}

/// From a fresh sink, once more rotations have occurred than the retention
/// count allows, exactly that many archives remain on disk, and they are
/// exactly the most recent rotation stamps: the deleted ones are the oldest.
pub proof fn lemma_retention_fresh(p: RotationPolicy, recs: Seq<(u64, u64)>)
    requires
        rotation_stamps(fresh_file(), p, recs).len() > p.max_count,
    ensures
        apply_records(fresh_file(), p, recs).archives.len() == p.max_count,
        apply_records(fresh_file(), p, recs).archives == rotation_stamps(
            fresh_file(),
            p,
            recs,
        ).skip(rotation_stamps(fresh_file(), p, recs).len() - p.max_count),
{
    let m = fresh_file();
    lemma_retention(m, p, recs);
    let stamps = rotation_stamps(m, p, recs);
    assert(m.archives + stamps =~= stamps);
}

/// Trimming before appending more stamps and trimming once at the end keep
/// the same most-recent elements.
proof fn lemma_trim_absorb(a: Seq<u64>, b: Seq<u64>, n: int)
    requires
        n >= 0,
    ensures
        trim_oldest(trim_oldest(a, n) + b, n) == trim_oldest(a + b, n),
{
    if a.len() <= n {
        assert(trim_oldest(trim_oldest(a, n) + b, n) =~= trim_oldest(a + b, n));
    } else {
        let t = a.skip(a.len() - n);
        assert(trim_oldest(a, n) == t);
        assert(trim_oldest(t + b, n) =~= trim_oldest(a + b, n));
    }
}

/// From a fresh sink, crossing the threshold once leaves exactly one archive
/// on disk and a live file strictly below the threshold.
pub proof fn lemma_rotation_threshold_fresh(p: RotationPolicy, recs: Seq<(u64, u64)>)
    requires
        p.max_count >= 1,
        sum_bytes(recs) >= p.max_size,
        sum_bytes(recs) < 2 * p.max_size,
        p.max_size > 0,
    ensures
        apply_records(fresh_file(), p, recs).archives.len() == 1,
        apply_records(fresh_file(), p, recs).live < p.max_size,
        apply_records(fresh_file(), p, recs).live <= sum_bytes(recs) - p.max_size,
{
    let m = fresh_file();
    lemma_rotation_threshold(m, p, recs);
    lemma_retention(m, p, recs);
    let stamps = rotation_stamps(m, p, recs);
    assert(m.archives + stamps =~= stamps);
    assert(trim_oldest(stamps, p.max_count as int) == stamps);
}

/// Pushing a stamp no older than every archive keeps the list ordered.
proof fn lemma_sorted_push(s: Seq<u64>, v: u64)
    requires
        sorted(s),
        forall|i: int| 0 <= i < s.len() ==> s[i] <= v,
    ensures
        sorted(s.push(v)),
{
}

/// Dropping the oldest archives keeps the list ordered.
proof fn lemma_sorted_skip(s: Seq<u64>, d: int)
    requires
        sorted(s),
        0 <= d <= s.len(),
    ensures
        sorted(s.skip(d)),
{
    assert forall|i: int, j: int| 0 <= i <= j < s.skip(d).len() implies s.skip(d)[i] <= s.skip(
        d,
    )[j] by {
        assert(s.skip(d)[i] == s[d + i]);
        assert(s.skip(d)[j] == s[d + j]);
    }
}

} // verus!
