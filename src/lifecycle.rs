//! The top-level lifecycle: log in, connect, and recover from one logout.

use vstd::prelude::*;

use crate::error::Error;

verus! {

/// How one attempt to connect ended.
#[derive(Debug, Clone, Copy, PartialEq, Eq, Structural)]
pub enum ConnectOutcome {
    Connected,
    /// The server asked for a new login.
    Logout,
    Failed,
}

/// What the lifecycle does next.
#[derive(Debug, Clone, Copy, PartialEq, Eq, Structural)]
pub enum RunStep {
    /// Log in, then connect again.
    Login,
    /// Connect without logging in.
    Connect,
    /// Start and configure the tunnel.
    StartTunnel,
    /// Stop with an error.
    Fatal,
}

/// The outcome that an error of a connection attempt stands for.
pub open spec fn outcome_of(e: Error) -> ConnectOutcome {
    if e is Logout {
        ConnectOutcome::Logout
    } else {
        ConnectOutcome::Failed
    }
}

/// Whether an error asks for a new login.
pub fn classify_error(e: &Error) -> (r: ConnectOutcome)
    ensures
        r == outcome_of(*e),
{
    match e {
        Error::Logout(_) => ConnectOutcome::Logout,
        _ => ConnectOutcome::Failed,
    }
}

/// One decision after a connection attempt: whether the logout retry is
/// still available afterwards, and the next step.
pub open spec fn step(retry: bool, o: ConnectOutcome) -> (bool, RunStep) {
    match o {
        ConnectOutcome::Connected => (retry, RunStep::StartTunnel),
        ConnectOutcome::Logout => if retry {
            (false, RunStep::Login)
        } else {
            (false, RunStep::Fatal)
        },
        ConnectOutcome::Failed => (retry, RunStep::Fatal),
    }
}

/// The steps taken after a series of connection outcomes.
pub open spec fn run(retry: bool, outcomes: Seq<ConnectOutcome>) -> Seq<RunStep>
    decreases outcomes.len(),
{
    if outcomes.len() == 0 {
        Seq::empty()
    } else {
        let (next, s) = step(retry, outcomes[0]);
        seq![s] + run(next, outcomes.drop_first())
    }
}

/// How many of the steps are logins.
pub open spec fn logins(steps: Seq<RunStep>) -> nat
    decreases steps.len(),
{
    if steps.len() == 0 {
        0
    } else {
        (if steps[0] == RunStep::Login {
            1nat
        } else {
            0nat
        }) + logins(steps.drop_first())
    }
}

/// Tracks whether the single logout retry of a run has been used.
pub struct Orchestrator {
    logout_retry: bool,
}

impl Orchestrator {
    /// Whether the logout retry is still available.
    pub closed spec fn retry_left(&self) -> bool {
        self.logout_retry
    }

    /// A fresh run, with its logout retry available.
    pub fn new() -> (r: Self)
        ensures
            r.retry_left(),
    {
        Orchestrator { logout_retry: true }
    }

    /// The first step of an attempt: log in when no valid session is known.
    pub fn before_connect(&self, need_login: bool) -> (r: RunStep)
        ensures
            r == (if need_login {
                RunStep::Login
            } else {
                RunStep::Connect
            }),
    {
        if need_login {
            RunStep::Login
        } else {
            RunStep::Connect
        }
    }

    /// The step after a connection attempt: the tunnel starts on success;
    /// the first logout leads to one new login; a second logout, or any
    /// other failure, is fatal.
    pub fn after_connect(&mut self, outcome: ConnectOutcome) -> (r: RunStep)
        ensures
            (final(self).retry_left(), r) == step(old(self).retry_left(), outcome),
    {
        match outcome {
            ConnectOutcome::Connected => RunStep::StartTunnel,
            ConnectOutcome::Logout => {
                if self.logout_retry {
                    self.logout_retry = false;
                    RunStep::Login
                } else {
                    RunStep::Fatal
                }
            },
            ConnectOutcome::Failed => RunStep::Fatal,
        }
    }
}

proof fn lemma_run_len(retry: bool, outcomes: Seq<ConnectOutcome>)
    ensures
        run(retry, outcomes).len() == outcomes.len(),
    decreases outcomes.len(),
{
    if outcomes.len() > 0 {
        lemma_run_len(step(retry, outcomes[0]).0, outcomes.drop_first());
    }
}

proof fn lemma_logout_without_retry_fatal(outcomes: Seq<ConnectOutcome>, k: int)
    requires
        0 <= k < outcomes.len(),
        outcomes[k] == ConnectOutcome::Logout,
    ensures
        run(false, outcomes)[k] == RunStep::Fatal,
    decreases outcomes.len(),
{
    if k > 0 {
        let rest = outcomes.drop_first();
        lemma_logout_without_retry_fatal(rest, k - 1);
        lemma_run_len(false, rest);
        assert(run(false, outcomes)[k] == run(false, rest)[k - 1]);
    }
}

/// A logout that follows an earlier logout in the same run is fatal.
pub proof fn lemma_second_logout_fatal(
    retry: bool,
    outcomes: Seq<ConnectOutcome>,
    i: int,
    j: int,
)
    requires
        0 <= i < j < outcomes.len(),
        outcomes[i] == ConnectOutcome::Logout,
        outcomes[j] == ConnectOutcome::Logout,
    ensures
        run(retry, outcomes)[j] == RunStep::Fatal,
    decreases outcomes.len(),
{
    let rest = outcomes.drop_first();
    let next = step(retry, outcomes[0]).0;
    lemma_run_len(next, rest);
    assert(run(retry, outcomes)[j] == run(next, rest)[j - 1]);
    if i == 0 {
        lemma_logout_without_retry_fatal(rest, j - 1);
    } else {
        lemma_second_logout_fatal(next, rest, i - 1, j - 1);
    }
}

/// Whatever the connection attempts of a run give, at most one login
/// follows them, and a logout after an earlier logout is fatal.
pub proof fn lemma_logout_retry_bound(outcomes: Seq<ConnectOutcome>)
    ensures
        logins(run(true, outcomes)) <= 1,
        forall|i: int, j: int|
            #![trigger outcomes[i], outcomes[j]]
            0 <= i < j < outcomes.len() && outcomes[i] == ConnectOutcome::Logout && outcomes[j]
                == ConnectOutcome::Logout ==> run(true, outcomes)[j] == RunStep::Fatal,
{
    lemma_logins_at_most_one(true, outcomes);
    assert forall|i: int, j: int|
        #![trigger outcomes[i], outcomes[j]]
        0 <= i < j < outcomes.len() && outcomes[i] == ConnectOutcome::Logout && outcomes[j]
            == ConnectOutcome::Logout implies run(true, outcomes)[j] == RunStep::Fatal by {
        lemma_second_logout_fatal(true, outcomes, i, j);
    }
}

proof fn lemma_logins_at_most_one(retry: bool, outcomes: Seq<ConnectOutcome>)
    ensures
        logins(run(retry, outcomes)) <= (if retry {
            1nat
        } else {
            0nat
        }),
    decreases outcomes.len(),
{
    if outcomes.len() > 0 {
        let rest = outcomes.drop_first();
        let (next, st) = step(retry, outcomes[0]);
        lemma_logins_at_most_one(next, rest);
        let steps = run(retry, outcomes);
        assert(steps.drop_first() =~= run(next, rest));
        assert(steps[0] == st);
    }
}

} // verus!
