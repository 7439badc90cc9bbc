//! The state of a muxing session: the flags that workers watch, the jobs
//! that no worker has drawn yet, and the jobs whose process is alive.
//!
//! The state is owned by whoever runs the session, behind one lock. Every
//! operation here is one step under that lock: it reads or updates the
//! state and returns what the caller has to do outside the lock.

use crate::model::{MuxJobRequest, MuxJobView};
use crate::seqs::push_arg;
use crate::text::str_eq;
use vstd::prelude::*;
use vstd::string::StringExecFns;

verus! {

/// Where a session stands.
#[derive(Clone, Copy, Debug, PartialEq, Eq, Structural)]
pub enum SessionPhase {
    Idle,
    Running,
    Paused,
    Stopping,
}

/// What a worker does next.
#[derive(Debug)]
pub enum WorkerStep {
    /// Leave the loop: the session was stopped or no job is left.
    Exit,
    /// The session is paused: sleep for a moment and ask again.
    Wait,
    /// Process this job.
    Run(MuxJobRequest),
}

/// What a look at a process showed.
#[derive(Clone, Copy, Debug, PartialEq, Eq, Structural)]
pub enum ProcessPoll {
    /// The process has exited, with this code if it has one.
    Exited(Option<i32>),
    /// The process is still running.
    Running,
    /// The look itself failed.
    Failed,
}

/// What the supervisor of a process does after a look at it.
#[derive(Clone, Copy, Debug, PartialEq, Eq, Structural)]
pub enum SupervisionStep {
    /// The process is over: this is its exit code, or nothing where it has
    /// none or the look failed.
    Finished(Option<i32>),
    /// Sleep for a moment and look again.
    Sleep,
}

/// The state of a session.
pub struct MuxState {
    running: bool,
    pause: bool,
    stop: bool,
    queue: Vec<MuxJobRequest>,
    children: Vec<String>,
}

/// What the state of a session is.
pub struct MuxStateView {
    pub running: bool,
    pub paused: bool,
    pub stop_requested: bool,
    /// The jobs that no worker has drawn yet, in submission order.
    pub pending: Seq<MuxJobView>,
    /// The ids of the jobs whose process is alive.
    pub live: Seq<Seq<char>>,
}

impl View for MuxState {
    type V = MuxStateView;

    closed spec fn view(&self) -> MuxStateView {
        MuxStateView {
            running: self.running,
            paused: self.pause,
            stop_requested: self.stop,
            pending: self.queue.deep_view(),
            live: self.children.deep_view(),
        }
    }
}

/// No id occurs twice.
pub open spec fn distinct(ids: Seq<Seq<char>>) -> bool {
    forall|i: int, j: int| 0 <= i < j < ids.len() ==> ids[i] != ids[j]
}

/// Each id where it is not `id`.
pub open spec fn without_groups(ids: Seq<Seq<char>>, id: Seq<char>) -> Seq<Seq<Seq<char>>> {
    Seq::new(
        ids.len(),
        |i: int|
            if ids[i] == id {
                Seq::empty()
            } else {
                seq![ids[i]]
            },
    )
}

/// `ids` without `id`.
pub open spec fn without(ids: Seq<Seq<char>>, id: Seq<char>) -> Seq<Seq<char>> {
    without_groups(ids, id).flatten()
}

impl MuxStateView {
    /// A state is well formed when no job has two live processes.
    pub open spec fn wf(self) -> bool {
        distinct(self.live)
    }

    /// Where the session stands: idle unless running; else stopping once a
    /// stop was requested, else paused or running.
    pub open spec fn phase(self) -> SessionPhase {
        if !self.running {
            SessionPhase::Idle
        } else if self.stop_requested {
            SessionPhase::Stopping
        } else if self.paused {
            SessionPhase::Paused
        } else {
            SessionPhase::Running
        }
    }
}

/// The state before any session.
pub open spec fn idle_state() -> MuxStateView {
    MuxStateView {
        running: false,
        paused: false,
        stop_requested: false,
        pending: Seq::empty(),
        live: Seq::empty(),
    }
}

/// The number of workers for a session: as many as may run in parallel (one
/// where nothing or zero is set), but no more than there are jobs.
pub open spec fn worker_count(max_parallel_jobs: Option<usize>, jobs: nat) -> nat {
    let wanted: nat = match max_parallel_jobs {
        Some(n) => if n == 0 {
            1
        } else {
            n as nat
        },
        None => 1,
    };
    if wanted <= jobs {
        wanted
    } else {
        jobs
    }
}

/// What a worker does next in a state, and what is left pending.
pub open spec fn worker_step(state: MuxStateView) -> (Option<MuxJobView>, bool) {
    if state.stop_requested || (!state.paused && state.pending.len() == 0) {
        (None, true)
    } else if state.paused {
        (None, false)
    } else {
        (Some(state.pending[0]), false)
    }
}

/// What the supervisor does after a look at its process.
pub open spec fn supervision(poll: ProcessPoll) -> SupervisionStep {
    match poll {
        ProcessPoll::Exited(code) => SupervisionStep::Finished(code),
        ProcessPoll::Running => SupervisionStep::Sleep,
        ProcessPoll::Failed => SupervisionStep::Finished(None),
    }
}

/// An id is among the first `n` that were kept exactly if it is not the
/// one taken out and stands among the first `n`.
proof fn lemma_without_contains(ids: Seq<Seq<char>>, id: Seq<char>, n: int, x: Seq<char>)
    requires
        0 <= n <= ids.len(),
    ensures
        without_groups(ids, id).take(n).flatten().contains(x) <==> (x != id && exists|i: int|
            0 <= i < n && #[trigger] ids[i] == x),
{
    let groups = without_groups(ids, id).take(n);
    crate::seqs::lemma_flatten_contains(groups, x);
    if groups.flatten().contains(x) {
        let i = choose|i: int| 0 <= i < groups.len() && (#[trigger] groups[i]).contains(x);
        assert(groups[i] == without_groups(ids, id)[i]);
        assert(groups[i][0] == x);
        assert(ids[i] == x);
    }
    if x != id && exists|i: int| 0 <= i < n && #[trigger] ids[i] == x {
        let i = choose|i: int| 0 <= i < n && #[trigger] ids[i] == x;
        assert(groups[i] == without_groups(ids, id)[i]);
        assert(groups[i][0] == x);
        assert(groups[i].contains(x));
    }
}

proof fn lemma_without_distinct(ids: Seq<Seq<char>>, id: Seq<char>, n: int)
    requires
        distinct(ids),
        0 <= n <= ids.len(),
    ensures
        distinct(without_groups(ids, id).take(n).flatten()),
    decreases n,
{
    let groups = without_groups(ids, id);
    if n == 0 {
        crate::seqs::lemma_flatten_take_ends(groups);
    } else {
        lemma_without_distinct(ids, id, n - 1);
        crate::seqs::lemma_flatten_take_step(groups, n - 1);
        let before = groups.take(n - 1).flatten();
        let now = groups.take(n).flatten();
        assert forall|i: int, j: int| 0 <= i < j < now.len() implies now[i] != now[j] by {
            if j >= before.len() {
                assert(before[i] == now[i]);
                assert(before.contains(now[i]));
                lemma_without_contains(ids, id, n - 1, now[i]);
                let m = choose|m: int| 0 <= m < n - 1 && #[trigger] ids[m] == now[i];
                assert(now[j] == ids[n - 1]);
            } else {
                assert(before[i] == now[i] && before[j] == now[j]);
            }
        }
    }
}

/// Taking an id out of a list without repeats leaves a list without
/// repeats that holds everything but that id.
pub proof fn lemma_without(ids: Seq<Seq<char>>, id: Seq<char>)
    requires
        distinct(ids),
    ensures
        distinct(without(ids, id)),
        !without(ids, id).contains(id),
        forall|x: Seq<char>| without(ids, id).contains(x) <==> (x != id && ids.contains(x)),
{
    let n = ids.len() as int;
    lemma_without_distinct(ids, id, n);
    crate::seqs::lemma_flatten_take_ends(without_groups(ids, id));
    lemma_without_contains(ids, id, n, id);
    assert forall|x: Seq<char>| without(ids, id).contains(x) <==> (x != id && ids.contains(
        x,
    )) by {
        lemma_without_contains(ids, id, n, x);
        if ids.contains(x) {
            let i = choose|i: int| 0 <= i < ids.len() && ids[i] == x;
            assert(ids[i] == x);
        }
    }
}

impl MuxState {
    /// The state before any session.
    pub fn new() -> (state: MuxState)
        ensures
            state@ == idle_state(),
            state@.wf(),
    {
        let state = MuxState {
            running: false,
            pause: false,
            stop: false,
            queue: Vec::new(),
            children: Vec::new(),
        };
        assert(state@.pending == Seq::<MuxJobView>::empty());
        assert(state@.live == Seq::<Seq<char>>::empty());
        state
    }

    /// Whether a session is running.
    pub fn is_running(&self) -> (r: bool)
        ensures
            r == self@.running,
    {
        self.running
    }

    /// Whether the session is paused.
    pub fn is_paused(&self) -> (r: bool)
        ensures
            r == self@.paused,
    {
        self.pause
    }

    /// Whether a stop was requested.
    pub fn is_stop_requested(&self) -> (r: bool)
        ensures
            r == self@.stop_requested,
    {
        self.stop
    }

    /// Where the session stands.
    pub fn phase(&self) -> (r: SessionPhase)
        ensures
            r == self@.phase(),
    {
        if !self.running {
            SessionPhase::Idle
        } else if self.stop {
            SessionPhase::Stopping
        } else if self.pause {
            SessionPhase::Paused
        } else {
            SessionPhase::Running
        }
    }

    /// The number of jobs that no worker has drawn yet.
    pub fn pending_jobs(&self) -> (n: usize)
        ensures
            n == self@.pending.len(),
    {
        self.queue.len()
    }

    /// The number of jobs whose process is alive.
    pub fn live_processes(&self) -> (n: usize)
        ensures
            n == self@.live.len(),
    {
        self.children.len()
    }

    /// Whether the process of the job `job_id` is alive.
    pub fn is_live(&self, job_id: &str) -> (r: bool)
        ensures
            r == self@.live.contains(job_id@),
    {
        let mut i: usize = 0;
        while i < self.children.len()
            invariant
                i <= self.children.len(),
                forall|j: int| 0 <= j < i ==> self@.live[j] != job_id@,
            decreases self.children.len() - i,
        {
            if str_eq(self.children[i].as_str(), job_id) {
                assert(self@.live[i as int] == job_id@);
                return true;
            }
            i += 1;
        }
        false
    }

    /// Takes a request to start a session. The pause and stop flags are
    /// cleared either way. While a session is running, nothing else
    /// changes, the jobs of the request are dropped, and the answer is
    /// `None`. Else the jobs become the pending queue, the session is
    /// running, and the answer is the number of workers to start.
    pub fn start_muxing(&mut self, jobs: Vec<MuxJobRequest>, max_parallel_jobs: Option<usize>) -> (workers:
        Option<usize>)
        requires
            old(self)@.wf(),
        ensures
            final(self)@.wf(),
            final(self)@.running,
            !final(self)@.paused,
            !final(self)@.stop_requested,
            final(self)@.live == old(self)@.live,
            old(self)@.running ==> workers is None && final(self)@.pending == old(self)@.pending,
            !old(self)@.running ==> final(self)@.pending == jobs.deep_view() && workers == Some(
                worker_count(max_parallel_jobs, jobs.deep_view().len()) as usize,
            ),
    {
        self.stop = false;
        self.pause = false;
        if self.running {
            return None;
        }
        self.running = true;
        let workers = count_workers(max_parallel_jobs, jobs.len());
        self.queue = jobs;
        Some(workers)
    }

    /// Pauses the session: workers draw no further job. A job in progress
    /// runs on.
    pub fn pause_muxing(&mut self)
        ensures
            final(self)@ == (MuxStateView { paused: true, ..old(self)@ }),
    {
        self.pause = true;
    }

    /// Lets the workers draw jobs again.
    pub fn resume_muxing(&mut self)
        ensures
            final(self)@ == (MuxStateView { paused: false, ..old(self)@ }),
    {
        self.pause = false;
    }

    /// Stops the session: workers draw no further job and leave. Gives the
    /// ids of the jobs whose process is alive, for the caller to kill, and
    /// forgets them. The pending jobs stay where they are.
    pub fn stop_muxing(&mut self) -> (to_kill: Vec<String>)
        ensures
            to_kill.deep_view() == old(self)@.live,
            final(self)@ == (MuxStateView {
                stop_requested: true,
                live: Seq::empty(),
                ..old(self)@
            }),
            final(self)@.wf(),
    {
        self.stop = true;
        let mut to_kill: Vec<String> = Vec::new();
        std::mem::swap(&mut self.children, &mut to_kill);
        assert(self@.live == Seq::<Seq<char>>::empty());
        to_kill
    }

    /// What a worker does next. A stopped session makes it leave; a paused
    /// one makes it wait; else it draws the first pending job, or leaves
    /// where none is left. Nothing but the drawn job leaves the queue.
    pub fn next_job(&mut self) -> (step: WorkerStep)
        ensures
            worker_step(old(self)@).1 <==> step is Exit,
            match worker_step(old(self)@).0 {
                Some(job) => step matches WorkerStep::Run(j) && j@ == job && final(self)@ == (
                MuxStateView { pending: old(self)@.pending.skip(1), ..old(self)@ }),
                None => !(step is Run) && final(self)@ == old(self)@,
            },
    {
        if self.stop {
            return WorkerStep::Exit;
        }
        if self.pause {
            return WorkerStep::Wait;
        }
        if self.queue.len() == 0 {
            return WorkerStep::Exit;
        }
        let ghost before = self.queue.deep_view();
        let job = self.queue.remove(0);
        assert(self.queue.deep_view() == before.skip(1));
        WorkerStep::Run(job)
    }

    /// Notes that the process of the job `job_id` is alive. A job has one
    /// entry however often it is noted.
    pub fn register_child(&mut self, job_id: &str)
        requires
            old(self)@.wf(),
        ensures
            final(self)@.wf(),
            final(self)@ == (MuxStateView {
                live: if old(self)@.live.contains(job_id@) {
                    old(self)@.live
                } else {
                    old(self)@.live.push(job_id@)
                },
                ..old(self)@
            }),
    {
        if !self.is_live(job_id) {
            push_arg(&mut self.children, String::from_str(job_id));
        }
    }

    /// Notes that the process of the job `job_id` is over.
    pub fn remove_child(&mut self, job_id: &str)
        requires
            old(self)@.wf(),
        ensures
            final(self)@.wf(),
            !final(self)@.live.contains(job_id@),
            final(self)@ == (MuxStateView { live: without(old(self)@.live, job_id@), ..old(self)@ }),
    {
        let ghost ids = self.children.deep_view();
        let ghost groups = without_groups(ids, job_id@);
        let mut kept: Vec<String> = Vec::new();
        let mut rest: Vec<String> = Vec::new();
        std::mem::swap(&mut self.children, &mut rest);
        let mut i: usize = 0;
        proof {
            crate::seqs::lemma_flatten_take_ends(groups);
            assert(kept.deep_view() == Seq::<Seq<char>>::empty());
            lemma_without(ids, job_id@);
        }
        while i < rest.len()
            invariant
                i <= rest.len(),
                rest.deep_view() == ids,
                groups == without_groups(ids, job_id@),
                kept.deep_view() == groups.take(i as int).flatten(),
            decreases rest.len() - i,
        {
            proof {
                crate::seqs::lemma_flatten_take_step(groups, i as int);
            }
            let ghost so_far = kept.deep_view();
            if !str_eq(rest[i].as_str(), job_id) {
                push_arg(&mut kept, rest[i].clone());
                assert(kept.deep_view() == so_far + groups[i as int]);
            } else {
                assert(so_far + groups[i as int] == so_far);
            }
            i += 1;
        }
        self.children = kept;
    }

    /// Ends the session, once its last worker has left: the state is idle
    /// again and no process counts as alive.
    pub fn finish_session(&mut self)
        ensures
            final(self)@ == (MuxStateView { running: false, live: Seq::empty(), ..old(self)@ }),
            final(self)@.wf(),
            final(self)@.phase() == SessionPhase::Idle,
    {
        self.running = false;
        self.children = Vec::new();
        assert(self@.live == Seq::<Seq<char>>::empty());
    }
}

impl Default for MuxState {
    fn default() -> (state: MuxState)
        ensures
            state@ == idle_state(),
            state@.wf(),
    {
        MuxState::new()
    }
}

/// Whether the supervisor kills its process before it looks at it: it does
/// once a stop was requested.
pub fn should_kill(stop_requested: bool) -> (kill: bool)
    ensures
        kill == stop_requested,
{
    stop_requested
}

/// What the supervisor does after a look at its process.
pub fn supervise(poll: ProcessPoll) -> (step: SupervisionStep)
    ensures
        step == supervision(poll),
{
    match poll {
        ProcessPoll::Exited(code) => SupervisionStep::Finished(code),
        ProcessPoll::Running => SupervisionStep::Sleep,
        ProcessPoll::Failed => SupervisionStep::Finished(None),
    }
}

/// The number of workers for a session.
pub fn count_workers(max_parallel_jobs: Option<usize>, jobs: usize) -> (n: usize)
    ensures
        n == worker_count(max_parallel_jobs, jobs as nat),
        n <= jobs,
{
    let wanted: usize = match max_parallel_jobs {
        Some(n) => if n == 0 {
            1
        } else {
            n
        },
        None => 1,
    };
    if wanted <= jobs {
        wanted
    } else {
        jobs
    }
}

} // verus!
