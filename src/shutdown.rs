use vstd::prelude::*;

verus! {

/// Polls after which a pump task that has not finished is aborted.
pub const ABORT_AFTER: u32 = 50;

/// Polls after which shutdown is reported as failed and returns regardless.
pub const GIVE_UP_AFTER: u32 = 100;

/// What to do after one look at the pump task during shutdown.
#[derive(Debug, Clone, Copy, PartialEq, Eq, Structural)]
pub enum StopStep {
    /// The task has finished: shutdown is done.
    Finished,
    /// Sleep briefly; then abort the task if `abort`, and stop waiting,
    /// reporting the failure, if `give_up`.
    Wait { abort: bool, give_up: bool },
}

/// The bounded graceful-then-forced shutdown of a pump task.
#[derive(Debug)]
pub struct Shutdown {
    polls: u32,
}

/// The poll count after one more wait, held at one past the give-up bound.
pub open spec fn next_polls(p: u32) -> u32 {
    if p <= GIVE_UP_AFTER {
        (p + 1) as u32
    } else {
        p
    }
}

pub open spec fn step_of(p: u32, finished: bool) -> StopStep {
    if finished {
        StopStep::Finished
    } else {
        StopStep::Wait { abort: next_polls(p) > ABORT_AFTER, give_up: next_polls(p) > GIVE_UP_AFTER }
    }
}

/// How many times a shutdown that starts at poll count `p` sleeps before it
/// returns, when its looks at the task see `obs`.
pub open spec fn waits(p: u32, obs: Seq<bool>) -> nat
    decreases obs.len(),
{
    if obs.len() == 0 || obs[0] {
        0
    } else if next_polls(p) > GIVE_UP_AFTER {
        1
    } else {
        1 + waits(next_polls(p), obs.skip(1))
    }
}

proof fn lemma_waits_bound(p: u32, obs: Seq<bool>)
    requires
        p <= GIVE_UP_AFTER,
    ensures
        waits(p, obs) <= GIVE_UP_AFTER + 1 - p,
    decreases obs.len(),
{
    if obs.len() > 0 && !obs[0] && next_polls(p) <= GIVE_UP_AFTER {
        lemma_waits_bound(next_polls(p), obs.skip(1));
    }
}

/// Shutdown returns after at most `GIVE_UP_AFTER + 1` short sleeps, whatever
/// the task does, even when it never observes cancellation.
pub proof fn lemma_bounded_shutdown(obs: Seq<bool>)
    ensures
        waits(0, obs) <= GIVE_UP_AFTER + 1,
{
    lemma_waits_bound(0, obs);
}

/// A task that never finishes is aborted once the poll count passes
/// `ABORT_AFTER`, before shutdown gives up.
pub proof fn lemma_abort_before_give_up(p: u32)
    requires
        step_of(p, false) matches StopStep::Wait { give_up: true, .. },
    ensures
        step_of(p, false) matches StopStep::Wait { abort: true, .. },
{
}

impl Shutdown {
    /// A shutdown that has not polled yet.
    pub fn new() -> (r: Shutdown)
        ensures
            r.polls() == 0,
    {
        Shutdown { polls: 0 }
    }

    pub closed spec fn polls(&self) -> u32 {
        self.polls
    }

    /// Takes whether the task has finished, and says what to do next.
    pub fn observe(&mut self, finished: bool) -> (r: StopStep)
        ensures
            r == step_of(old(self).polls(), finished),
            final(self).polls() == if finished {
                old(self).polls()
            } else {
                next_polls(old(self).polls())
            },
    {
        if finished {
            return StopStep::Finished;
        }
        if self.polls <= GIVE_UP_AFTER {
            self.polls = self.polls + 1;
        }
        StopStep::Wait { abort: self.polls > ABORT_AFTER, give_up: self.polls > GIVE_UP_AFTER }
    }
}

} // verus!
