use vstd::prelude::*;
use crate::names::file_name_bytes;
use crate::names::lemma_file_names_distinct;

verus! {

/// One generation run's configuration: how many files to produce, the size
/// bounds named on the command line, and the target directory.
pub struct Batch {
    pub num_files: u16,
    pub min_size: u16,
    pub max_size: u16,
    pub directory: String,
}

impl Batch {
    /// Builds the configuration record handed in by the caller. The size
    /// bounds are recorded as given: `min_size <= max_size` is expected of
    /// callers but not enforced, and the write loop fills each file up to
    /// `crate::filler::FILL_TARGET` rather than to these bounds. The
    /// directory is likewise recorded only: output paths are bare file names,
    /// resolved against the process working directory.
    pub fn new(num_files: u16, min_size: u16, max_size: u16, directory: String) -> (b: Batch)
        ensures
            b.num_files == num_files,
            b.min_size == min_size,
            b.max_size == max_size,
            b.directory == directory,
    {
        Batch { num_files, min_size, max_size, directory }
    }

    /// The identifiers of this batch's file tasks, in spawn order.
    pub fn task_ids(&self) -> (r: Vec<u16>)
        ensures
            r@ == task_id_seq(self.num_files),
    {
        task_ids(self.num_files)
    }
}

/// The file-task identifiers of a batch over `num_files` files: one task for
/// each index in `1..num_files`, so `num_files - 1` tasks in all, and none
/// for one file — or for zero, which must not underflow the count.
pub open spec fn task_id_seq(num_files: u16) -> Seq<u16> {
    Seq::new(
        if num_files == 0 {
            0nat
        } else {
            (num_files - 1) as nat
        },
        |i: int| (i + 1) as u16,
    )
}

/// A batch over `num_files` files plans exactly `num_files - 1` tasks, and a
/// batch over zero or one file plans none.
pub proof fn lemma_task_count(num_files: u16)
    ensures
        num_files >= 1 ==> task_id_seq(num_files).len() == num_files - 1,
        num_files <= 1 ==> task_id_seq(num_files).len() == 0,
{
}

/// Builds the identifiers of the file tasks of a batch over `num_files`
/// files, in spawn order.
pub fn task_ids(num_files: u16) -> (r: Vec<u16>)
    ensures
        r@ == task_id_seq(num_files),
{
    let mut r: Vec<u16> = Vec::new();
    let mut i: u16 = 1;
    while i < num_files
        invariant
            1 <= i,
            i <= num_files || i == 1,
            r@.len() == i - 1,
            forall|k: int| 0 <= k < r@.len() ==> r@[k] == k + 1,
        decreases num_files - i,
    {
        r.push(i);
        i = i + 1;
    }
    assert(r@ =~= task_id_seq(num_files));
    r
}

/// No two tasks of one batch share an output path: each File Task owns its
/// file exclusively.
pub proof fn lemma_task_paths_distinct(num_files: u16, i: int, j: int)
    requires
        0 <= i < j < task_id_seq(num_files).len(),
    ensures
        file_name_bytes(task_id_seq(num_files)[i]) != file_name_bytes(task_id_seq(num_files)[j]),
{
    lemma_file_names_distinct(task_id_seq(num_files)[i], task_id_seq(num_files)[j]);
}

/// The Task Dispatcher's completion bookkeeping: how many units of work were
/// spawned, and how many have since reported success or failure. The
/// Dispatcher owns no file state; batch completion is purely a count of
/// terminal reports.
pub struct BatchTracker {
    pub spawned: u64,
    pub succeeded: u64,
    pub failed: u64,
}

impl BatchTracker {
    /// No task reports twice: terminal reports never outnumber spawns.
    pub open spec fn wf(self) -> bool {
        self.succeeded + self.failed <= self.spawned
    }

    /// How many spawned tasks have reached a terminal state, successful or not.
    pub open spec fn terminal(self) -> int {
        self.succeeded + self.failed
    }

    /// How many spawned tasks have not yet reported a terminal state.
    pub open spec fn outstanding(self) -> int {
        self.spawned - self.terminal()
    }

    /// Whether the batch is complete: every spawned task has reached a
    /// terminal state. The join barrier returns exactly then.
    pub open spec fn complete(self) -> bool {
        self.terminal() == self.spawned
    }

    /// The tracker after one task's terminal report: a success bumps
    /// `succeeded`, a failure bumps `failed`, and nothing else moves.
    pub open spec fn recorded(self, ok: bool) -> BatchTracker {
        if ok {
            BatchTracker { succeeded: (self.succeeded + 1) as u64, ..self }
        } else {
            BatchTracker { failed: (self.failed + 1) as u64, ..self }
        }
    }

    /// A fresh tracker: nothing spawned, nothing reported.
    pub fn new() -> (t: BatchTracker)
        ensures
            t.wf(),
            t.spawned == 0,
            t.succeeded == 0,
            t.failed == 0,
    {
        BatchTracker { spawned: 0, succeeded: 0, failed: 0 }
    }

    /// Registers one more spawned unit of work.
    pub fn record_spawn(&mut self)
        requires
            old(self).wf(),
            old(self).spawned < u64::MAX,
        ensures
            final(self).wf(),
            final(self).spawned == old(self).spawned + 1,
            final(self).succeeded == old(self).succeeded,
            final(self).failed == old(self).failed,
            final(self).outstanding() == old(self).outstanding() + 1,
    {
        self.spawned = self.spawned + 1;
    }

    /// Registers one task's terminal report. A failure spends only the
    /// failing task's own slot: the success count and the slots of every
    /// other outstanding task are untouched.
    pub fn record_terminal(&mut self, ok: bool)
        requires
            old(self).wf(),
            old(self).outstanding() > 0,
        ensures
            *final(self) == old(self).recorded(ok),
            final(self).wf(),
            final(self).outstanding() == old(self).outstanding() - 1,
    {
        if ok {
            self.succeeded = self.succeeded + 1;
        } else {
            self.failed = self.failed + 1;
        }
    }

    /// Whether every spawned task has reported a terminal state.
    pub fn is_complete(&self) -> (r: bool)
        requires
            self.wf(),
        ensures
            r == self.complete(),
    {
        self.succeeded + self.failed == self.spawned
    }
}

/// The tracker after a sequence of terminal reports lands, in order: `true`
/// for a task that succeeded, `false` for one that failed.
pub open spec fn after_reports(t: BatchTracker, reports: Seq<bool>) -> BatchTracker
    decreases reports.len(),
{
    if reports.len() == 0 {
        t
    } else {
        after_reports(t.recorded(reports[0]), reports.drop_first())
    }
}

/// The join barrier and failure isolation in one statement: start from any
/// well-formed tracker and let outstanding tasks report terminal states —
/// successes and failures in any mix and any order. The batch is complete
/// exactly when every outstanding task has reported: failed tasks count
/// toward completion like successful ones, and no mix of failures blocks it,
/// while the barrier never opens before the last report.
pub proof fn lemma_all_reports_complete(t: BatchTracker, reports: Seq<bool>)
    requires
        t.wf(),
        reports.len() <= t.outstanding(),
    ensures
        after_reports(t, reports).wf(),
        after_reports(t, reports).complete() <==> reports.len() == t.outstanding(),
    decreases reports.len(),
{
    if reports.len() > 0 {
        lemma_all_reports_complete(t.recorded(reports[0]), reports.drop_first());
    }
}

} // verus!
