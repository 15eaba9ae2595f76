//! The metrics snapshot that every stage publishes into: one entry per job,
//! and the running totals.

use vstd::prelude::*;
use crate::text::same_text;

verus! {

/// Progress and sizes of one job.
#[derive(Debug, Clone, PartialEq, Eq)]
pub struct JobMetrics {
    pub id: String,
    pub input_path: String,
    pub stage: String,
    pub crf: u8,
    pub encoder: String,
    pub workers: u32,
    pub frames_encoded: u64,
    pub total_frames: u64,
    pub size_in_bytes_before: u64,
    pub size_in_bytes_after: u64,
}

/// What a `JobMetrics` holds, with its strings as texts.
pub struct JobMetricsView {
    pub id: Seq<char>,
    pub input_path: Seq<char>,
    pub stage: Seq<char>,
    pub crf: u8,
    pub encoder: Seq<char>,
    pub workers: u32,
    pub frames_encoded: u64,
    pub total_frames: u64,
    pub size_in_bytes_before: u64,
    pub size_in_bytes_after: u64,
}

impl View for JobMetrics {
    type V = JobMetricsView;

    open spec fn view(&self) -> JobMetricsView {
        JobMetricsView {
            id: self.id@,
            input_path: self.input_path@,
            stage: self.stage@,
            crf: self.crf,
            encoder: self.encoder@,
            workers: self.workers,
            frames_encoded: self.frames_encoded,
            total_frames: self.total_frames,
            size_in_bytes_before: self.size_in_bytes_before,
            size_in_bytes_after: self.size_in_bytes_after,
        }
    }
}

/// The jobs, the queue length and the totals at one moment.
#[derive(Debug, Clone, PartialEq, Eq)]
pub struct MetricsSnapshot {
    pub timestamp_unix_ms: i64,
    pub jobs: Vec<JobMetrics>,
    pub queue_len: usize,
    pub running_jobs: usize,
    pub completed_jobs: u64,
    pub failed_jobs: u64,
    pub total_bytes_encoded: u64,
}

/// What a `MetricsSnapshot` holds, with its jobs as a sequence of views.
pub struct MetricsView {
    pub timestamp_unix_ms: i64,
    pub jobs: Seq<JobMetricsView>,
    pub queue_len: usize,
    pub running_jobs: usize,
    pub completed_jobs: u64,
    pub failed_jobs: u64,
    pub total_bytes_encoded: u64,
}

/// The views of a vector of job entries.
pub open spec fn job_views(jobs: Seq<JobMetrics>) -> Seq<JobMetricsView> {
    jobs.map_values(|j: JobMetrics| j@)
}

impl View for MetricsSnapshot {
    type V = MetricsView;

    open spec fn view(&self) -> MetricsView {
        MetricsView {
            timestamp_unix_ms: self.timestamp_unix_ms,
            jobs: job_views(self.jobs@),
            queue_len: self.queue_len,
            running_jobs: self.running_jobs,
            completed_jobs: self.completed_jobs,
            failed_jobs: self.failed_jobs,
            total_bytes_encoded: self.total_bytes_encoded,
        }
    }
}

/// A job in one of these stages holds an encoding slot.
pub open spec fn is_running_stage(stage: Seq<char>) -> bool {
    stage == "encoding"@ || stage == "validating"@ || stage == "size_gating"@ || stage
        == "replacing"@
}

/// How many of `jobs` are in a running stage.
pub open spec fn running_count(jobs: Seq<JobMetricsView>) -> nat
    decreases jobs.len(),
{
    if jobs.len() == 0 {
        0
    } else {
        running_count(jobs.drop_last()) + if is_running_stage(jobs.last().stage) {
            1nat
        } else {
            0nat
        }
    }
}

/// `jobs` with `entry` in the place of the first entry of the same id, or at
/// the end where no entry has that id.
pub open spec fn upserted(jobs: Seq<JobMetricsView>, entry: JobMetricsView) -> Seq<JobMetricsView>
    decreases jobs.len(),
{
    if jobs.len() == 0 {
        seq![entry]
    } else if jobs[0].id == entry.id {
        seq![entry] + jobs.drop_first()
    } else {
        seq![jobs[0]] + upserted(jobs.drop_first(), entry)
    }
}

/// `jobs` with the output size of the first entry of id `id` set to `size`.
pub open spec fn with_size_after(jobs: Seq<JobMetricsView>, id: Seq<char>, size: u64) -> Seq<
    JobMetricsView,
>
    decreases jobs.len(),
{
    if jobs.len() == 0 {
        jobs
    } else if jobs[0].id == id {
        seq![JobMetricsView { size_in_bytes_after: size, ..jobs[0] }] + jobs.drop_first()
    } else {
        seq![jobs[0]] + with_size_after(jobs.drop_first(), id, size)
    }
}

/// The snapshot after a job's entry is published: the entry is upserted and
/// the running count is taken anew from the entries.
pub open spec fn published(m: MetricsView, entry: JobMetricsView) -> MetricsView {
    MetricsView {
        jobs: upserted(m.jobs, entry),
        running_jobs: running_count(upserted(m.jobs, entry)) as usize,
        ..m
    }
}

/// The snapshot after a finished encode of `size` bytes is recorded for `id`.
pub open spec fn with_encoded(m: MetricsView, id: Seq<char>, size: u64) -> MetricsView {
    MetricsView {
        jobs: with_size_after(m.jobs, id, size),
        total_bytes_encoded: (m.total_bytes_encoded + size) as u64,
        ..m
    }
}

/// The running count never exceeds the number of entries.
pub proof fn lemma_running_count_le_len(jobs: Seq<JobMetricsView>)
    ensures
        running_count(jobs) <= jobs.len(),
    decreases jobs.len(),
{
    if jobs.len() > 0 {
        lemma_running_count_le_len(jobs.drop_last());
    }
}

/// Where no entry before `at` has the id: an entry of that id at `at` is
/// replaced in place, and with `at` at the end the entry is appended.
pub proof fn lemma_upserted_at(jobs: Seq<JobMetricsView>, entry: JobMetricsView, at: int)
    requires
        0 <= at <= jobs.len(),
        forall|j: int| 0 <= j < at ==> jobs[j].id != entry.id,
        at < jobs.len() ==> jobs[at].id == entry.id,
    ensures
        at < jobs.len() ==> upserted(jobs, entry) == jobs.update(at, entry),
        at == jobs.len() ==> upserted(jobs, entry) == jobs.push(entry),
    decreases jobs.len(),
{
    if jobs.len() == 0 {
        assert(seq![entry] =~= jobs.push(entry));
    } else if at == 0 {
        assert(seq![entry] + jobs.drop_first() =~= jobs.update(0, entry));
    } else {
        let rest = jobs.drop_first();
        assert forall|j: int| 0 <= j < at - 1 implies rest[j].id != entry.id by {
            assert(rest[j] == jobs[j + 1]);
        }
        lemma_upserted_at(rest, entry, at - 1);
        if at < jobs.len() {
            assert(seq![jobs[0]] + rest.update(at - 1, entry) =~= jobs.update(at, entry));
        } else {
            assert(seq![jobs[0]] + rest.push(entry) =~= jobs.push(entry));
        }
    }
}

/// Where no entry before `at` has the id: an entry of that id at `at` gets
/// the size, and with `at` at the end nothing changes.
pub proof fn lemma_with_size_after_at(jobs: Seq<JobMetricsView>, id: Seq<char>, size: u64, at: int)
    requires
        0 <= at <= jobs.len(),
        forall|j: int| 0 <= j < at ==> jobs[j].id != id,
        at < jobs.len() ==> jobs[at].id == id,
    ensures
        at < jobs.len() ==> with_size_after(jobs, id, size) == jobs.update(
            at,
            JobMetricsView { size_in_bytes_after: size, ..jobs[at] },
        ),
        at == jobs.len() ==> with_size_after(jobs, id, size) == jobs,
    decreases jobs.len(),
{
    if jobs.len() == 0 {
    } else if at == 0 {
        assert(seq![JobMetricsView { size_in_bytes_after: size, ..jobs[0] }] + jobs.drop_first()
            =~= jobs.update(0, JobMetricsView { size_in_bytes_after: size, ..jobs[0] }));
    } else {
        let rest = jobs.drop_first();
        assert forall|j: int| 0 <= j < at - 1 implies rest[j].id != id by {
            assert(rest[j] == jobs[j + 1]);
        }
        lemma_with_size_after_at(rest, id, size, at - 1);
        if at < jobs.len() {
            assert(seq![jobs[0]] + rest.update(
                at - 1,
                JobMetricsView { size_in_bytes_after: size, ..rest[at - 1] },
            ) =~= jobs.update(at, JobMetricsView { size_in_bytes_after: size, ..jobs[at] }));
        } else {
            assert(seq![jobs[0]] + rest =~= jobs);
        }
    }
}

/// Setting an output size changes no stage, so the running count stays.
pub proof fn lemma_size_after_keeps_running_count(jobs: Seq<JobMetricsView>, id: Seq<char>, size: u64)
    ensures
        with_size_after(jobs, id, size).len() == jobs.len(),
        forall|i: int|
            0 <= i < jobs.len() ==> (#[trigger] with_size_after(jobs, id, size)[i]).stage
                == jobs[i].stage,
        running_count(with_size_after(jobs, id, size)) == running_count(jobs),
    decreases jobs.len(),
{
    let after = with_size_after(jobs, id, size);
    if jobs.len() > 0 {
        lemma_size_after_keeps_running_count(jobs.drop_first(), id, size);
        assert(after.len() == jobs.len());
        assert forall|i: int| 0 <= i < jobs.len() implies (#[trigger] after[i]).stage
            == jobs[i].stage by {
            if i > 0 {
                assert(jobs[i] == jobs.drop_first()[i - 1]);
            }
        }
        lemma_same_stages_same_count(after, jobs);
    }
}

/// Two lists whose entries agree in stage have the same running count.
pub proof fn lemma_same_stages_same_count(a: Seq<JobMetricsView>, b: Seq<JobMetricsView>)
    requires
        a.len() == b.len(),
        forall|i: int| 0 <= i < a.len() ==> (#[trigger] a[i]).stage == b[i].stage,
    ensures
        running_count(a) == running_count(b),
    decreases a.len(),
{
    if a.len() > 0 {
        assert forall|i: int| 0 <= i < a.drop_last().len() implies (#[trigger] a.drop_last()[i]).stage
            == b.drop_last()[i].stage by {
            assert(a.drop_last()[i] == a[i]);
            assert(b.drop_last()[i] == b[i]);
        }
        lemma_same_stages_same_count(a.drop_last(), b.drop_last());
        assert(a.last().stage == b.last().stage);
    }
}

/// Whether `stage` is one of the running stages.
pub fn stage_is_running(stage: &str) -> (r: bool)
    ensures
        r == is_running_stage(stage@),
{
    same_text(stage, "encoding") || same_text(stage, "validating") || same_text(
        stage,
        "size_gating",
    ) || same_text(stage, "replacing")
}

impl Default for MetricsSnapshot {
    fn default() -> (r: MetricsSnapshot)
        ensures
            r@.jobs == Seq::<JobMetricsView>::empty(),
            r.timestamp_unix_ms == 0,
            r.queue_len == 0,
            r.running_jobs == 0,
            r.completed_jobs == 0,
            r.failed_jobs == 0,
            r.total_bytes_encoded == 0,
            r.consistent(),
    {
        MetricsSnapshot::new()
    }
}

impl MetricsSnapshot {
    /// The running count agrees with the entries.
    pub open spec fn consistent(&self) -> bool {
        self.running_jobs == running_count(job_views(self.jobs@))
    }

    /// An empty snapshot: no jobs, every total zero.
    pub fn new() -> (r: MetricsSnapshot)
        ensures
            r@.jobs == Seq::<JobMetricsView>::empty(),
            r.timestamp_unix_ms == 0,
            r.queue_len == 0,
            r.running_jobs == 0,
            r.completed_jobs == 0,
            r.failed_jobs == 0,
            r.total_bytes_encoded == 0,
            r.consistent(),
    {
        let r = MetricsSnapshot {
            timestamp_unix_ms: 0,
            jobs: Vec::new(),
            queue_len: 0,
            running_jobs: 0,
            completed_jobs: 0,
            failed_jobs: 0,
            total_bytes_encoded: 0,
        };
        assert(job_views(r.jobs@) =~= Seq::<JobMetricsView>::empty());
        r
    }

    /// The index of the first entry of id `id`, or the number of entries
    /// where there is none.
    fn position_of(&self, id: &str) -> (at: usize)
        ensures
            at <= self.jobs.len(),
            forall|j: int| 0 <= j < at ==> job_views(self.jobs@)[j].id != id@,
            at < self.jobs.len() ==> job_views(self.jobs@)[at as int].id == id@,
    {
        let mut at: usize = 0;
        while at < self.jobs.len()
            invariant
                at <= self.jobs.len(),
                forall|j: int| 0 <= j < at ==> job_views(self.jobs@)[j].id != id@,
            decreases self.jobs.len() - at,
        {
            if same_text(self.jobs[at].id.as_str(), id) {
                return at;
            }
            at += 1;
        }
        at
    }

    /// How many entries are in a running stage.
    fn count_running(&self) -> (n: usize)
        ensures
            n == running_count(job_views(self.jobs@)),
    {
        let mut n: usize = 0;
        let mut i: usize = 0;
        let ghost views = job_views(self.jobs@);
        while i < self.jobs.len()
            invariant
                i <= self.jobs.len(),
                views == job_views(self.jobs@),
                n == running_count(views.take(i as int)),
                n <= i,
            decreases self.jobs.len() - i,
        {
            assert(views.take(i + 1).drop_last() =~= views.take(i as int));
            assert(views.take(i + 1).last() == self.jobs@[i as int]@);
            if stage_is_running(self.jobs[i].stage.as_str()) {
                n += 1;
            }
            i += 1;
        }
        assert(views.take(i as int) =~= views);
        n
    }

    /// Publishes a job's entry: it takes the place of the first entry of the
    /// same id, or is appended; the running count is then taken anew.
    pub fn update_job(&mut self, entry: JobMetrics)
        ensures
            final(self)@ == published(old(self)@, entry@),
            final(self).consistent(),
    {
        let at = self.position_of(entry.id.as_str());
        proof {
            lemma_upserted_at(job_views(self.jobs@), entry@, at as int);
        }
        let ghost before = job_views(self.jobs@);
        if at < self.jobs.len() {
            self.jobs[at] = entry;
            assert(job_views(self.jobs@) =~= before.update(at as int, entry@));
        } else {
            self.jobs.push(entry);
            assert(job_views(self.jobs@) =~= before.push(entry@));
        }
        self.running_jobs = self.count_running();
    }

    /// Records a finished encode: the first entry of id `id`, if any, gets
    /// `size_bytes` as its output size, and the total grows by `size_bytes`.
    pub fn record_encoded(&mut self, id: &str, size_bytes: u64)
        requires
            old(self).total_bytes_encoded + size_bytes <= u64::MAX,
        ensures
            final(self)@ == with_encoded(old(self)@, id@, size_bytes),
            old(self).consistent() ==> final(self).consistent(),
    {
        let at = self.position_of(id);
        let ghost before = job_views(self.jobs@);
        proof {
            lemma_with_size_after_at(before, id@, size_bytes, at as int);
            lemma_size_after_keeps_running_count(before, id@, size_bytes);
        }
        if at < self.jobs.len() {
            self.jobs[at].size_in_bytes_after = size_bytes;
            assert(job_views(self.jobs@) =~= before.update(
                at as int,
                JobMetricsView { size_in_bytes_after: size_bytes, ..before[at as int] },
            ));
        }
        self.total_bytes_encoded = self.total_bytes_encoded + size_bytes;
    }

    /// Counts one more completed job.
    pub fn increment_completed_jobs(&mut self)
        requires
            old(self).completed_jobs < u64::MAX,
        ensures
            final(self)@ == (MetricsView {
                completed_jobs: (old(self).completed_jobs + 1) as u64,
                ..old(self)@
            }),
    {
        self.completed_jobs = self.completed_jobs + 1;
    }

    /// Counts one more failed job. Skipped jobs are counted here too.
    pub fn increment_failed_jobs(&mut self)
        requires
            old(self).failed_jobs < u64::MAX,
        ensures
            final(self)@ == (MetricsView {
                failed_jobs: (old(self).failed_jobs + 1) as u64,
                ..old(self)@
            }),
    {
        self.failed_jobs = self.failed_jobs + 1;
    }

    /// A job entered the queue.
    pub fn job_enqueued(&mut self)
        requires
            old(self).queue_len < usize::MAX,
        ensures
            final(self)@ == (MetricsView {
                queue_len: (old(self).queue_len + 1) as usize,
                ..old(self)@
            }),
    {
        self.queue_len = self.queue_len + 1;
    }

    /// A job left the queue. An empty queue stays empty.
    pub fn job_dequeued(&mut self)
        ensures
            final(self)@ == (MetricsView {
                queue_len: if old(self).queue_len == 0 {
                    0usize
                } else {
                    (old(self).queue_len - 1) as usize
                },
                ..old(self)@
            }),
    {
        if self.queue_len > 0 {
            self.queue_len = self.queue_len - 1;
        }
    }

    /// Stamps the snapshot with the time of its last sample.
    pub fn stamp(&mut self, now_unix_ms: i64)
        ensures
            final(self)@ == (MetricsView { timestamp_unix_ms: now_unix_ms, ..old(self)@ }),
    {
        self.timestamp_unix_ms = now_unix_ms;
    }
}

} // verus!
