//! The startup sequence as a state machine: secrets, then logging, then
//! resources, then the router, then the service handed to the host. The
//! first failure ends the sequence; nothing runs after it.

use crate::error::BootstrapError;
use vstd::prelude::*;

verus! {

/// Where startup stands.
#[derive(Clone, Debug)]
pub enum Stage {
    Start,
    SecretsResolved,
    LoggingInstalled,
    ResourcesProvisioned,
    RouterBuilt,
    ServiceReady,
    Failed(BootstrapError),
}

/// What the caller is to do next.
#[derive(Clone, Copy, Debug, PartialEq, Eq, Structural)]
pub enum Action {
    /// Fetch the secret store and resolve the configuration.
    ResolveSecrets,
    /// Build and install the logging pipeline.
    InstallLogging,
    /// Acquire the database pool and the static folder, and initialise the database.
    ProvisionResources,
    /// Assemble the router over the provisioned resources.
    BuildRouter,
    /// Hand the service to the host.
    HandOver,
    /// Startup is over: the service is with the host.
    Done,
    /// Startup failed: report the error and stop.
    Abort,
}

/// How the step that the last action asked for ended.
#[derive(Clone, Debug)]
pub enum Event {
    StepSucceeded,
    StepFailed(BootstrapError),
}

/// The stage that follows `s` once `e` comes in.
pub open spec fn step_spec(s: Stage, e: Event) -> Stage {
    match s {
        Stage::Failed(_) => s,
        Stage::ServiceReady => s,
        _ => match e {
            Event::StepFailed(err) => Stage::Failed(err),
            Event::StepSucceeded => match s {
                Stage::Start => Stage::SecretsResolved,
                Stage::SecretsResolved => Stage::LoggingInstalled,
                Stage::LoggingInstalled => Stage::ResourcesProvisioned,
                Stage::ResourcesProvisioned => Stage::RouterBuilt,
                _ => Stage::ServiceReady,
            },
        },
    }
}

/// The action asked for at stage `s`.
pub open spec fn action_spec(s: Stage) -> Action {
    match s {
        Stage::Start => Action::ResolveSecrets,
        Stage::SecretsResolved => Action::InstallLogging,
        Stage::LoggingInstalled => Action::ProvisionResources,
        Stage::ResourcesProvisioned => Action::BuildRouter,
        Stage::RouterBuilt => Action::HandOver,
        Stage::ServiceReady => Action::Done,
        Stage::Failed(_) => Action::Abort,
    }
}

/// The stage after the events `events`, from the start.
pub open spec fn stage_after(events: Seq<Event>) -> Stage
    decreases events.len(),
{
    if events.len() == 0 {
        Stage::Start
    } else {
        step_spec(stage_after(events.drop_last()), events.last())
    }
}

/// The action asked for after the first `i` of `events`.
pub open spec fn action_at(events: Seq<Event>, i: int) -> Action {
    action_spec(stage_after(events.take(i)))
}

/// How many steps have succeeded at stage `s`.
pub open spec fn rank(s: Stage) -> int {
    match s {
        Stage::Start => 0,
        Stage::SecretsResolved => 1,
        Stage::LoggingInstalled => 2,
        Stage::ResourcesProvisioned => 3,
        Stage::RouterBuilt => 4,
        Stage::ServiceReady => 5,
        Stage::Failed(_) => -1,
    }
}

/// Along any run that has not failed, each event so far, up to the fifth, was
/// a success, and the stage counts them.
proof fn lemma_progress(events: Seq<Event>)
    ensures
        !(stage_after(events) is Failed) ==> {
            &&& events.len() < 5 ==> rank(stage_after(events)) == events.len()
            &&& events.len() >= 5 ==> stage_after(events) is ServiceReady
            &&& forall|j: int| 0 <= j < events.len() && j < 5 ==> #[trigger] events[j] is StepSucceeded
        },
    decreases events.len(),
{
    if events.len() > 0 {
        let prev = events.drop_last();
        lemma_progress(prev);
        if !(stage_after(events) is Failed) {
            assert(!(stage_after(prev) is Failed));
            assert forall|j: int| 0 <= j < events.len() && j < 5 implies #[trigger] events[j] is StepSucceeded by {
                if j < prev.len() {
                    assert(prev[j] == events[j]);
                }
            }
        }
    }
}

/// A run whose first event is a failure asks for nothing but to abort from
/// then on: when the secrets cannot be resolved, no resource is provisioned.
pub proof fn first_failure_stops_startup(events: Seq<Event>, i: int)
    requires
        events.len() > 0,
        events[0] is StepFailed,
        1 <= i <= events.len(),
    ensures
        stage_after(events.take(i)) is Failed,
        action_at(events, i) == Action::Abort,
{
    let t = events.take(i);
    lemma_progress(t);
    assert(t[0] == events[0]);
}

/// Provisioning is asked for only after the logging step was asked for and
/// succeeded.
pub proof fn logging_installed_before_provisioning(events: Seq<Event>, i: int)
    requires
        0 <= i <= events.len(),
        action_at(events, i) == Action::ProvisionResources,
    ensures
        i == 2,
        action_at(events, 1) == Action::InstallLogging,
        events[1] is StepSucceeded,
{
    let t = events.take(i);
    lemma_progress(t);
    assert(t[1] == events[1]);
    assert(t[0] == events[0]);
    lemma_successes(events, 1);
}

/// The service is handed to the host at one point of a run at most.
pub proof fn handed_over_at_most_once(events: Seq<Event>, i: int, j: int)
    requires
        0 <= i <= events.len(),
        0 <= j <= events.len(),
        action_at(events, i) == Action::HandOver,
        action_at(events, j) == Action::HandOver,
    ensures
        i == j,
{
    lemma_progress(events.take(i));
    lemma_progress(events.take(j));
}

/// Five successful steps bring startup to a ready service, handed over after
/// the fourth; the stage stays ready whatever comes after.
pub proof fn successful_run_is_ready(events: Seq<Event>)
    requires
        events.len() >= 5,
        forall|j: int| 0 <= j < 5 ==> #[trigger] events[j] is StepSucceeded,
    ensures
        action_at(events, 4) == Action::HandOver,
        forall|k: int| 5 <= k <= events.len() ==> #[trigger] stage_after(events.take(k)) is ServiceReady,
{
    lemma_successes(events, 4);
    assert forall|k: int| 5 <= k <= events.len() implies #[trigger] stage_after(events.take(k)) is ServiceReady by {
        lemma_successes_ready(events, k);
    }
}

/// After `n` successes, no more than four, the stage is the `n`-th.
proof fn lemma_successes(events: Seq<Event>, n: int)
    requires
        0 <= n <= 4,
        n <= events.len(),
        forall|j: int| 0 <= j < n ==> #[trigger] events[j] is StepSucceeded,
    ensures
        rank(stage_after(events.take(n))) == n,
    decreases n,
{
    if n > 0 {
        lemma_successes(events, n - 1);
        assert(events.take(n).drop_last() =~= events.take(n - 1));
    }
}

/// With the first five events successes, the stage after `k >= 5` events is
/// the ready service.
proof fn lemma_successes_ready(events: Seq<Event>, k: int)
    requires
        5 <= k <= events.len(),
        forall|j: int| 0 <= j < 5 ==> #[trigger] events[j] is StepSucceeded,
    ensures
        stage_after(events.take(k)) is ServiceReady,
    decreases k,
{
    assert(events.take(k).drop_last() =~= events.take(k - 1));
    if k == 5 {
        lemma_successes(events, 4);
    } else {
        lemma_successes_ready(events, k - 1);
    }
}

/// The event that a step's result gives.
pub fn event_of<T>(r: &Result<T, BootstrapError>) -> (e: Event)
    ensures
        match r {
            Ok(_) => e is StepSucceeded,
            Err(err) => e == Event::StepFailed(*err),
        },
{
    match r {
        Ok(_) => Event::StepSucceeded,
        Err(err) => Event::StepFailed(err.duplicate()),
    }
}

/// The state of one startup.
pub struct Bootstrapper {
    pub stage: Stage,
}

impl Bootstrapper {
    /// A startup that has done nothing yet.
    pub fn new() -> (r: Bootstrapper)
        ensures
            r.stage is Start,
    {
        Bootstrapper { stage: Stage::Start }
    }

    /// What to do next.
    pub fn next_action(&self) -> (a: Action)
        ensures
            a == action_spec(self.stage),
    {
        match &self.stage {
            Stage::Start => Action::ResolveSecrets,
            Stage::SecretsResolved => Action::InstallLogging,
            Stage::LoggingInstalled => Action::ProvisionResources,
            Stage::ResourcesProvisioned => Action::BuildRouter,
            Stage::RouterBuilt => Action::HandOver,
            Stage::ServiceReady => Action::Done,
            Stage::Failed(_) => Action::Abort,
        }
    }

    /// Takes in how the last step ended. A failure ends startup with its
    /// error; once startup is over, events change nothing.
    pub fn advance(&mut self, event: Event)
        ensures
            final(self).stage == step_spec(old(self).stage, event),
    {
        let next = match (&self.stage, event) {
            (Stage::Failed(_), _) => None,
            (Stage::ServiceReady, _) => None,
            (_, Event::StepFailed(err)) => Some(Stage::Failed(err)),
            (Stage::Start, Event::StepSucceeded) => Some(Stage::SecretsResolved),
            (Stage::SecretsResolved, Event::StepSucceeded) => Some(Stage::LoggingInstalled),
            (Stage::LoggingInstalled, Event::StepSucceeded) => Some(Stage::ResourcesProvisioned),
            (Stage::ResourcesProvisioned, Event::StepSucceeded) => Some(Stage::RouterBuilt),
            (Stage::RouterBuilt, Event::StepSucceeded) => Some(Stage::ServiceReady),
        };
        if let Some(s) = next {
            self.stage = s;
        }
    }

    /// The error that ended startup, if it failed.
    pub fn error(&self) -> (r: Option<BootstrapError>)
        ensures
            match self.stage {
                Stage::Failed(e) => r == Some(e),
                _ => r.is_none(),
            },
    {
        match &self.stage {
            Stage::Failed(e) => Some(e.duplicate()),
            _ => None,
        }
    }
}

} // verus!
