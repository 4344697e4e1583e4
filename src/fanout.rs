//! One execution's fan-out: the agents that receive the batch, in order,
//! and what became of each send.
use vstd::prelude::*;
use crate::capability::Agent;
use crate::config::JobConfig;
use crate::dispatch::{envelope, execute_body, matching, matching_agents};

verus! {

/// Why an execution did not complete.
#[derive(PartialEq, Eq, Structural, Clone, Copy, Debug)]
pub enum ExecuteError {
    /// No project of that name is configured.
    NotFound,
    /// The project has no repository and no inline configuration.
    Configuration,
    /// The remote configuration could not be read or parsed.
    Resolution,
    /// At least one agent did not accept the batch.
    Dispatch,
}

/// The sends of one execution: the agents to reach, in order, the body each
/// of them receives, how many have been attempted and how many failed.
pub struct FanOut {
    pub targets: Vec<usize>,
    pub body: String,
    pub next: usize,
    pub failed: usize,
}

/// `f` after the send to its current target was attempted.
pub open spec fn recorded(f: FanOut, delivered: bool) -> FanOut {
    FanOut {
        targets: f.targets,
        body: f.body,
        next: (f.next + 1) as usize,
        failed: if delivered { f.failed } else { (f.failed + 1) as usize },
    }
}

/// The agent to send to next, if any is left.
pub open spec fn pending(f: FanOut) -> Option<usize> {
    if f.next < f.targets.len() {
        Some(f.targets[f.next as int])
    } else {
        None
    }
}

impl FanOut {
    pub open spec fn wf(&self) -> bool {
        self.next <= self.targets.len() && self.failed <= self.next
    }

    /// Plans the sends of `job` to `agents`: every agent whose capabilities
    /// meet the job's needs, in the order of `agents`, each with the same
    /// body.
    pub fn plan(agents: &Vec<Agent>, job: &JobConfig) -> (r: FanOut)
        ensures
            r.wf(),
            r.targets@ == matching(agents@, job.needs@),
            r.body@ == envelope(job.commands@),
            r.next == 0,
            r.failed == 0,
    {
        let targets = matching_agents(agents, &job.needs);
        let body = execute_body(&job.commands);
        FanOut { targets, body, next: 0, failed: 0 }
    }

    /// The agent to send the body to next, or `None` once all were attempted.
    pub fn next_target(&self) -> (r: Option<usize>)
        requires
            self.wf(),
        ensures
            r == pending(*self),
    {
        if self.next < self.targets.len() {
            Some(self.targets[self.next])
        } else {
            None
        }
    }

    /// Records the attempt to send to the current target. A failed send is
    /// counted and the next target follows all the same.
    pub fn record(&mut self, delivered: bool)
        requires
            old(self).wf(),
            old(self).next < old(self).targets.len(),
        ensures
            final(self).wf(),
            *final(self) == recorded(*old(self), delivered),
    {
        self.next = self.next + 1;
        if !delivered {
            self.failed = self.failed + 1;
        }
    }

    /// The result of the execution once every target was attempted: success
    /// iff every send was accepted.
    pub fn outcome(&self) -> (r: Result<(), ExecuteError>)
        requires
            self.wf(),
            self.next == self.targets.len(),
        ensures
            r == if self.failed == 0 {
                Ok::<(), ExecuteError>(())
            } else {
                Err::<(), ExecuteError>(ExecuteError::Dispatch)
            },
    {
        if self.failed == 0 {
            Ok(())
        } else {
            Err(ExecuteError::Dispatch)
        }
    }
}

/// A send that fails does not end the fan-out: the following target is still
/// the next to be attempted, with the same body.
pub proof fn lemma_failure_continues(f: FanOut)
    requires
        f.wf(),
        f.next + 1 < f.targets.len(),
    ensures
        pending(recorded(f, false)) == Some(f.targets[f.next + 1]),
        recorded(f, false).body == f.body,
{
}

} // verus!
