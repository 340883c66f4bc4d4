//! Handing copy jobs to a pool of workers over one shared queue.
//!
//! The producer walks the tree and sends a copy command for each file to
//! copy; once the walk is over it sends one terminate command per worker.
//! A worker takes commands in queue order, copies, counts its successes and
//! stops at the first terminate command. The run's count is the sum of the
//! workers' counts.

use crate::walk::CopyJob;
use vstd::prelude::*;

verus! {

/// A command on the shared queue.
#[derive(Debug)]
pub enum Command {
    Copy(CopyJob),
    Terminate,
}

/// The commands that carry the given jobs, in order.
pub open spec fn copy_commands(jobs: Seq<CopyJob>) -> Seq<Command> {
    jobs.map_values(|j: CopyJob| Command::Copy(j))
}

/// `n` terminate commands.
pub open spec fn terminations(n: nat) -> Seq<Command> {
    Seq::new(n, |i: int| Command::Terminate)
}

/// Everything the producer sends for these jobs and this many workers.
pub open spec fn dispatched(jobs: Seq<CopyJob>, workers: nat) -> Seq<Command> {
    copy_commands(jobs) + terminations(workers)
}

/// The jobs carried by the copy commands of a command list, in order.
pub open spec fn jobs_in(cmds: Seq<Command>) -> Seq<CopyJob>
    decreases cmds.len(),
{
    if cmds.len() == 0 {
        Seq::empty()
    } else {
        let rest = jobs_in(cmds.drop_last());
        match cmds.last() {
            Command::Copy(j) => rest.push(j),
            Command::Terminate => rest,
        }
    }
}

/// The number of terminate commands in a command list.
pub open spec fn stops_in(cmds: Seq<Command>) -> nat
    decreases cmds.len(),
{
    if cmds.len() == 0 {
        0
    } else {
        stops_in(cmds.drop_last()) + if cmds.last() is Terminate { 1nat } else { 0nat }
    }
}

/// The number of workers for an effective thread count: the calling thread
/// only walks and dispatches, so a count of `n > 1` gives `n - 1` workers,
/// and a count of one or less gives none (the serial path).
pub open spec fn workers_for(threads: int) -> nat {
    if threads > 1 {
        (threads - 1) as nat
    } else {
        0
    }
}

pub fn worker_count(threads: i32) -> (r: usize)
    ensures
        r as nat == workers_for(threads as int),
{
    if threads > 1 {
        (threads - 1) as usize
    } else {
        0
    }
}

/// The producer's side of the queue. It records, as ghost state, the jobs it
/// has sent and whether it has sent the terminate commands.
pub struct Dispatcher {
    workers: usize,
    jobs: Ghost<Seq<CopyJob>>,
    finished: bool,
}

impl Dispatcher {
    pub closed spec fn spec_workers(&self) -> nat {
        self.workers as nat
    }

    pub closed spec fn spec_jobs(&self) -> Seq<CopyJob> {
        self.jobs@
    }

    pub closed spec fn spec_finished(&self) -> bool {
        self.finished
    }

    /// What has been sent so far.
    pub open spec fn sent(&self) -> Seq<Command> {
        if self.spec_finished() {
            dispatched(self.spec_jobs(), self.spec_workers())
        } else {
            copy_commands(self.spec_jobs())
        }
    }

    pub fn new(workers: usize) -> (d: Dispatcher)
        ensures
            d.spec_workers() == workers,
            d.spec_jobs().len() == 0,
            !d.spec_finished(),
    {
        Dispatcher { workers, jobs: Ghost(Seq::empty()), finished: false }
    }

    pub fn workers(&self) -> (r: usize)
        ensures
            r as nat == self.spec_workers(),
    {
        self.workers
    }

    /// The command that sends one job.
    pub fn copy(&mut self, job: CopyJob) -> (c: Command)
        requires
            !old(self).spec_finished(),
        ensures
            c == Command::Copy(job),
            final(self).spec_jobs() == old(self).spec_jobs().push(job),
            final(self).spec_workers() == old(self).spec_workers(),
            !final(self).spec_finished(),
            final(self).sent() == old(self).sent().push(c),
    {
        self.jobs = Ghost(self.jobs@.push(job));
        proof {
            assert(copy_commands(self.jobs@) =~= copy_commands(old(self).jobs@).push(
                Command::Copy(job),
            ));
        }
        Command::Copy(job)
    }

    /// The terminate commands, one per worker, that close the run.
    pub fn finish(&mut self) -> (cs: Vec<Command>)
        requires
            !old(self).spec_finished(),
        ensures
            cs@ == terminations(old(self).spec_workers()),
            final(self).spec_jobs() == old(self).spec_jobs(),
            final(self).spec_workers() == old(self).spec_workers(),
            final(self).spec_finished(),
            final(self).sent() == old(self).sent() + cs@,
    {
        let mut cs: Vec<Command> = Vec::new();
        let mut i: usize = 0;
        while i < self.workers
            invariant
                i <= self.workers,
                cs@ == terminations(i as nat),
            decreases self.workers - i,
        {
            cs.push(Command::Terminate);
            i = i + 1;
            assert(cs@ =~= terminations(i as nat));
        }
        self.finished = true;
        cs
    }
}

/// What a worker does with the command it took.
#[derive(Debug)]
pub enum WorkerAction {
    /// Make the destination's parent directories, then copy.
    Copy(CopyJob),
    /// Leave the loop and report the count.
    Stop,
}

/// A worker's count of successful copies.
pub struct WorkerTally {
    pub copied: u64,
}

impl WorkerTally {
    pub fn new() -> (t: WorkerTally)
        ensures
            t.copied == 0,
    {
        WorkerTally { copied: 0 }
    }

    /// What a command asks of the worker.
    pub fn take(&self, cmd: Command) -> (a: WorkerAction)
        ensures
            cmd is Terminate ==> a is Stop,
            cmd matches Command::Copy(j) ==> a == WorkerAction::Copy(j),
    {
        match cmd {
            Command::Copy(j) => WorkerAction::Copy(j),
            Command::Terminate => WorkerAction::Stop,
        }
    }

    /// Counts one copy attempt: only a success counts (the count stops at
    /// the largest `u64`).
    pub fn record(&mut self, succeeded: bool)
        ensures
            final(self).copied == if succeeded && old(self).copied < u64::MAX {
                (old(self).copied + 1) as u64
            } else {
                old(self).copied
            },
    {
        if succeeded && self.copied < u64::MAX {
            self.copied = self.copied + 1;
        }
    }
}

/// The sum of a list of counts.
pub open spec fn sum_of(counts: Seq<u64>) -> int
    decreases counts.len(),
{
    if counts.len() == 0 {
        0
    } else {
        sum_of(counts.drop_last()) + counts.last()
    }
}

/// The sum of a list of counts (the workers' copy counts, or file sizes), or
/// `None` where it does not fit in a `u64`.
pub fn checked_sum(counts: &Vec<u64>) -> (r: Option<u64>)
    ensures
        r.is_some() == (sum_of(counts@) <= u64::MAX),
        r.is_some() ==> r.unwrap() == sum_of(counts@),
{
    let mut total: u64 = 0;
    let mut i: usize = 0;
    while i < counts.len()
        invariant
            i <= counts@.len(),
            total == sum_of(counts@.subrange(0, i as int)),
        decreases counts@.len() - i,
    {
        assert(counts@.subrange(0, i + 1).drop_last() =~= counts@.subrange(0, i as int));
        if total > u64::MAX - counts[i] {
            proof {
                lemma_sum_grows(counts@, i as int + 1);
            }
            return None;
        }
        total = total + counts[i];
        i = i + 1;
    }
    assert(counts@.subrange(0, counts@.len() as int) =~= counts@);
    Some(total)
}

/// A prefix sums to no more than the whole list.
pub proof fn lemma_sum_grows(counts: Seq<u64>, n: int)
    requires
        0 <= n <= counts.len(),
    ensures
        sum_of(counts.subrange(0, n)) <= sum_of(counts),
    decreases counts.len() - n,
{
    if n < counts.len() {
        lemma_sum_grows(counts, n + 1);
        assert(counts.subrange(0, n + 1).drop_last() =~= counts.subrange(0, n));
    } else {
        assert(counts.subrange(0, n) =~= counts);
    }
}

proof fn lemma_jobs_in_append(a: Seq<Command>, b: Seq<Command>)
    ensures
        jobs_in(a + b) == jobs_in(a) + jobs_in(b),
        stops_in(a + b) == stops_in(a) + stops_in(b),
    decreases b.len(),
{
    if b.len() == 0 {
        assert(a + b =~= a);
        assert(jobs_in(a) + jobs_in(b) =~= jobs_in(a));
    } else {
        lemma_jobs_in_append(a, b.drop_last());
        assert((a + b).drop_last() =~= a + b.drop_last());
        if let Command::Copy(j) = b.last() {
            assert((jobs_in(a) + jobs_in(b.drop_last())).push(j) =~= jobs_in(a) + jobs_in(
                b.drop_last(),
            ).push(j));
        }
    }
}

proof fn lemma_copy_commands_carry(jobs: Seq<CopyJob>)
    ensures
        jobs_in(copy_commands(jobs)) == jobs,
        stops_in(copy_commands(jobs)) == 0,
    decreases jobs.len(),
{
    if jobs.len() > 0 {
        lemma_copy_commands_carry(jobs.drop_last());
        assert(copy_commands(jobs).drop_last() =~= copy_commands(jobs.drop_last()));
        assert(jobs.drop_last().push(jobs.last()) =~= jobs);
    } else {
        assert(copy_commands(jobs) =~= Seq::<Command>::empty());
        assert(jobs =~= Seq::<CopyJob>::empty());
    }
}

proof fn lemma_terminations_carry(n: nat)
    ensures
        jobs_in(terminations(n)) == Seq::<CopyJob>::empty(),
        stops_in(terminations(n)) == n,
    decreases n,
{
    if n > 0 {
        lemma_terminations_carry((n - 1) as nat);
        assert(terminations(n).drop_last() =~= terminations((n - 1) as nat));
    }
}

/// The parallel path copies the same files as the serial one: for the jobs
/// that the walk yields, the queue carries each of them exactly once, in
/// walk order, followed by one terminate command per worker, and no copy
/// command comes after a terminate command, so every job is taken before
/// any worker stops.
pub proof fn lemma_parallel_matches_serial(jobs: Seq<CopyJob>, workers: nat)
    ensures
        jobs_in(dispatched(jobs, workers)) == jobs,
        stops_in(dispatched(jobs, workers)) == workers,
        forall|i: int, k: int|
            #![trigger dispatched(jobs, workers)[i], dispatched(jobs, workers)[k]]
            0 <= i < k < dispatched(jobs, workers).len() && dispatched(jobs, workers)[i] is Terminate
                ==> dispatched(jobs, workers)[k] is Terminate,
{
    lemma_jobs_in_append(copy_commands(jobs), terminations(workers));
    lemma_copy_commands_carry(jobs);
    lemma_terminations_carry(workers);
    assert(jobs + Seq::<CopyJob>::empty() =~= jobs);
    assert forall|i: int, k: int|
        #![trigger dispatched(jobs, workers)[i], dispatched(jobs, workers)[k]]
        0 <= i < k < dispatched(jobs, workers).len() && dispatched(jobs, workers)[i] is Terminate
            implies dispatched(jobs, workers)[k] is Terminate by {
        if i < jobs.len() {
            assert(dispatched(jobs, workers)[i] == copy_commands(jobs)[i]);
        }
    }
}

} // verus!
