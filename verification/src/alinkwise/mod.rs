//! Devices of tenants, their events, and what can be done with both.
use vstd::prelude::*;

pub mod api;
pub mod device_query;
pub mod device_rows;
pub mod history_rows;
pub mod uplink_history;

verus! {

/// How many seconds pass between two clean-ups of the event history.
pub const CLEANUP_PERIOD_SECONDS: u64 = 86_400;

/// The clean-up of the event history: again and again, the events that are more than so many days
/// old are deleted.
#[derive(Clone, Copy, Debug, PartialEq, Eq, Structural)]
pub struct Cleanup {
    pub period_seconds: u64,
    pub retention_days: u32,
}

/// What the clean-up does next.
#[derive(Clone, Copy, Debug, PartialEq, Eq, Structural)]
pub enum CleanupStep {
    /// Wait until so many seconds after the last time that a wait was over, or after the start.
    Wait { seconds: u64 },
    /// Delete the events that are more than so many days old.
    Delete { retention_days: u32 },
}

/// What came of a step.
#[derive(Clone, Copy, Debug, PartialEq, Eq, Structural)]
pub enum CleanupOutcome {
    /// The time to wait for has come.
    Due,
    Deleted { count: u64 },
    Failed,
}

impl Cleanup {
    /// What the clean-up does first: it does not wait.
    pub open spec fn first_step(self) -> CleanupStep {
        CleanupStep::Wait { seconds: 0 }
    }

    /// What follows a step, whatever came of it: events are deleted when the wait is over, and after
    /// that the wait is for the next period.
    pub open spec fn step_after(self, step: CleanupStep) -> CleanupStep {
        match step {
            CleanupStep::Wait { .. } => CleanupStep::Delete { retention_days: self.retention_days },
            CleanupStep::Delete { .. } => CleanupStep::Wait { seconds: self.period_seconds },
        }
    }

    /// What the clean-up does first.
    pub fn first(&self) -> (r: CleanupStep)
        ensures
            r == self.first_step(),
    {
        CleanupStep::Wait { seconds: 0 }
    }

    /// What follows a step. A deletion that failed is followed by the same as any other.
    pub fn next(&self, step: CleanupStep, outcome: CleanupOutcome) -> (r: CleanupStep)
        ensures
            r == self.step_after(step),
    {
        match (step, outcome) {
            (CleanupStep::Wait { .. }, _) => CleanupStep::Delete {
                retention_days: self.retention_days,
            },
            (CleanupStep::Delete { .. }, _) => CleanupStep::Wait { seconds: self.period_seconds },
        }
    }

    /// Whether the clean-up went through `steps`.
    pub open spec fn is_run(self, steps: Seq<CleanupStep>) -> bool {
        &&& steps.len() > 0
        &&& steps[0] == self.first_step()
        &&& forall|i: int|
            0 <= i < steps.len() - 1 ==> #[trigger] steps[i + 1] == self.step_after(steps[i])
    }
}

/// How many seconds the waits among the first `n` steps take, one after the other.
pub open spec fn waited(steps: Seq<CleanupStep>, n: int) -> int
    decreases n,
{
    if n <= 0 {
        0
    } else {
        waited(steps, n - 1) + match steps[n - 1] {
            CleanupStep::Wait { seconds } => seconds as int,
            CleanupStep::Delete { .. } => 0,
        }
    }
}

/// The clean-up runs at once and then once in every period, whatever came of the runs before: the
/// deletion number `k` is due `k` periods after the start.
pub proof fn law_cleanup_goes_on(cleanup: Cleanup, steps: Seq<CleanupStep>, k: int)
    requires
        cleanup.is_run(steps),
        0 <= k,
        2 * k + 1 < steps.len(),
    ensures
        steps[2 * k] is Wait,
        steps[2 * k + 1] == (CleanupStep::Delete { retention_days: cleanup.retention_days }),
        waited(steps, 2 * k + 1) == k * cleanup.period_seconds,
    decreases k,
{
    if k > 0 {
        let before = k - 1;
        law_cleanup_goes_on(cleanup, steps, before);
        assert(steps[2 * before + 1 + 1] == cleanup.step_after(steps[2 * before + 1]));
        assert(2 * before + 2 == 2 * k);
        assert(waited(steps, 2 * before + 2) == waited(steps, 2 * before + 1));
        assert(k * cleanup.period_seconds == before * cleanup.period_seconds
            + cleanup.period_seconds) by (nonlinear_arith)
            requires
                before == k - 1,
        ;
    } else {
        assert(waited(steps, 1) == waited(steps, 0));
        assert(0 * cleanup.period_seconds == 0);
    }
    assert(steps[2 * k + 1] == cleanup.step_after(steps[2 * k]));
}

/// The clean-up of the event history; none where `retention_days` is 0.
pub fn setup(retention_days: u32) -> (r: Option<Cleanup>)
    ensures
        r == (if retention_days == 0 {
            None
        } else {
            Some(Cleanup { period_seconds: CLEANUP_PERIOD_SECONDS, retention_days })
        }),
{
    if retention_days == 0 {
        None
    } else {
        Some(Cleanup { period_seconds: CLEANUP_PERIOD_SECONDS, retention_days })
    }
}

} // verus!
