use vstd::prelude::*;

use crate::config::WorkloadKind;
use crate::plan::{expand_workloads, expanded, RunPlan};
use crate::text::{decimal, decimal_string, join2};
use vstd::string::StringExecFns;

verus! {

/// What the run loop does next.
#[derive(Debug, Clone, Copy, PartialEq, Eq, Structural)]
pub enum RunStep {
    /// Run this workload, then report whether it succeeded.
    Run(WorkloadKind),
    /// The run is over: every workload ran, or one failed.
    Stop,
}

/// Progress through a plan's workloads: they run one after another in the plan's
/// order, and the first failure ends the run.
pub struct Execution {
    queue: Vec<WorkloadKind>,
    done: usize,
    failed: bool,
}

/// The state of an `Execution`.
pub struct ExecutionView {
    pub queue: Seq<WorkloadKind>,
    pub done: nat,
    pub failed: bool,
}

impl View for Execution {
    type V = ExecutionView;

    closed spec fn view(&self) -> ExecutionView {
        ExecutionView { queue: self.queue@, done: self.done as nat, failed: self.failed }
    }
}

/// The step an execution state calls for.
pub open spec fn step_of(e: ExecutionView) -> RunStep {
    if e.failed || e.done >= e.queue.len() {
        RunStep::Stop
    } else {
        RunStep::Run(e.queue[e.done as int])
    }
}

/// The state after the running workload finished.
pub open spec fn recorded(e: ExecutionView, succeeded: bool) -> ExecutionView {
    ExecutionView { queue: e.queue, done: e.done + 1, failed: !succeeded }
}

/// The state after `k` workloads in a row succeeded, from a fresh start.
pub open spec fn after_successes(queue: Seq<WorkloadKind>, k: nat) -> ExecutionView {
    ExecutionView { queue, done: k, failed: false }
}

impl Execution {
    /// Starts the run of a plan's workloads (`all` expanded to cpu, memory and io).
    pub fn new(plan: &RunPlan) -> (r: Self)
        ensures
            r@ == after_successes(expanded(plan.workloads@), 0),
    {
        Execution { queue: expand_workloads(&plan.workloads), done: 0, failed: false }
    }

    /// The workloads of the run, in order.
    pub fn queue(&self) -> (r: &Vec<WorkloadKind>)
        ensures
            r@ == self@.queue,
    {
        &self.queue
    }

    /// Whether a workload has failed.
    pub fn failed(&self) -> (r: bool)
        ensures
            r == self@.failed,
    {
        self.failed
    }

    /// The next step: the next workload in order while none has failed, else stop.
    pub fn next_step(&self) -> (r: RunStep)
        ensures
            r == step_of(self@),
    {
        if self.failed || self.done >= self.queue.len() {
            RunStep::Stop
        } else {
            RunStep::Run(self.queue[self.done])
        }
    }

    /// Records how the workload that `next_step` named ended.
    pub fn record(&mut self, succeeded: bool)
        requires
            step_of(old(self)@) is Run,
        ensures
            final(self)@ == recorded(old(self)@, succeeded),
    {
        let n = self.queue.len();
        assert(self.done < n);
        self.done = self.done + 1;
        self.failed = !succeeded;
    }
}

/// Law: after a failure the run stops; nothing after the failed workload runs.
pub proof fn law_failure_stops(e: ExecutionView)
    ensures
        e.failed ==> step_of(e) == RunStep::Stop,
        step_of(e) is Run ==> step_of(recorded(e, false)) == RunStep::Stop,
{
}

/// Law: while every workload succeeds, they run one after another in the plan's order,
/// and the run stops after the last one.
pub proof fn law_runs_in_order(queue: Seq<WorkloadKind>, k: nat)
    ensures
        k < queue.len() ==> step_of(after_successes(queue, k)) == RunStep::Run(queue[k as int])
            && recorded(after_successes(queue, k), true) == after_successes(queue, k + 1),
        k >= queue.len() ==> step_of(after_successes(queue, k)) == RunStep::Stop,
{
}

/// Progress of `bench`: how many rounds to run, how many have run, how many succeeded.
pub struct BenchRun {
    rounds: u32,
    done: u32,
    ok: u32,
}

impl View for BenchRun {
    type V = (u32, u32, u32);

    closed spec fn view(&self) -> (u32, u32, u32) {
        (self.rounds, self.done, self.ok)
    }
}

impl BenchRun {
    #[verifier::type_invariant]
    spec fn counts_ordered(&self) -> bool {
        self.ok <= self.done <= self.rounds
    }

    /// A bench of `rounds` rounds, none run yet.
    pub fn new(rounds: u32) -> (r: BenchRun)
        ensures
            r@ == (rounds, 0u32, 0u32),
    {
        BenchRun { rounds, done: 0, ok: 0 }
    }

    /// The number (from 1) of the round to run next, or `None` once all have run.
    pub fn next_round(&self) -> (r: Option<u32>)
        ensures
            r == if self@.1 < self@.0 {
                Some((self@.1 + 1) as u32)
            } else {
                None::<u32>
            },
    {
        if self.done < self.rounds {
            Some(self.done + 1)
        } else {
            None
        }
    }

    /// Records how the round that `next_round` named ended.
    pub fn record(&mut self, succeeded: bool)
        requires
            old(self)@.1 < old(self)@.0,
        ensures
            final(self)@ == (old(self)@.0, (old(self)@.1 + 1) as u32, (old(self)@.2 + if succeeded {
                1int
            } else {
                0int
            }) as u32),
    {
        proof {
            use_type_invariant(&*self);
        }
        self.done = self.done + 1;
        if succeeded {
            self.ok = self.ok + 1;
        }
    }

    /// The closing line: `bench complete: <ok>/<rounds> succeeded`.
    pub fn summary(&self) -> (r: String)
        ensures
            r@ == "bench complete: "@ + decimal(self@.2 as nat) + "/"@ + decimal(self@.0 as nat) + " succeeded"@,
    {
        let ok = decimal_string(self.ok as u64);
        let rounds = decimal_string(self.rounds as u64);
        join2("bench complete: ", ok.as_str()).concat("/").concat(rounds.as_str()).concat(" succeeded")
    }
}

/// The line that opens bench round `round` of `rounds` of `profile`:
/// `bench round <round>/<rounds> (profile=<profile>)`.
pub fn bench_round_line(round: u32, rounds: u32, profile: &str) -> (r: String)
    ensures
        r@ == "bench round "@ + decimal(round as nat) + "/"@ + decimal(rounds as nat) + " (profile="@ + profile@
            + ")"@,
{
    let i = decimal_string(round as u64);
    let n = decimal_string(rounds as u64);
    join2("bench round ", i.as_str()).concat("/").concat(n.as_str()).concat(" (profile=").concat(profile).concat(")")
}

} // verus!
