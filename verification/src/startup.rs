//! What the process does while it starts, one decision at a time.
//!
//! Starting the service is a fixed sequence of actions, each of which can
//! succeed, find nothing, or fail. The program performs an action and
//! reports its [`Outcome`]; [`next_action`] answers with the action that
//! follows. The sequence begins with [`first_action`] and is over when the
//! answer is [`Action::Exit`] or [`Action::Abort`].
//!
//! [`plan`] is the whole sequence for given outcomes. The laws at the end of
//! this file are stated of every such sequence.

use crate::settings::{fallback_address, SocketAddress, INHERITED_SLOT};
use crate::transport::Transport;
use vstd::prelude::*;

verus! {

/// How an action ended.
#[derive(Clone, Copy, PartialEq, Eq, Structural, Debug)]
pub enum Outcome {
    /// It did what it was for.
    Done,
    /// There was nothing to act on: no environment file, no socket handed
    /// over, no certificate file.
    Missing,
    /// It was tried and went wrong.
    Failed,
}

/// Why the process gives up.
#[derive(Clone, Copy, PartialEq, Eq, Structural, Debug)]
pub enum Failure {
    /// The error-report hook could not be installed.
    ErrorReporting,
    /// Logging could not be set up.
    Logging,
    /// The certificate or the private key is missing or malformed.
    Certificates,
    /// The slot of the handed-over socket could not be read.
    InheritedListener,
    /// The handed-over socket could not be made non-blocking.
    NonBlocking,
    /// The fallback address could not be bound.
    Bind,
    /// The accept loop ended abnormally.
    Server,
}

/// A thing for the program to do.
#[derive(Clone, Copy, PartialEq, Eq, Debug)]
pub enum Action {
    /// Install the hook that renders error reports.
    InstallErrorReporting,
    /// Load overrides of environment variables from the local file, if
    /// there is one.
    LoadEnvironment,
    /// Set up structured logging, filtered as the environment says or else
    /// by [`DEFAULT_LOG_FILTER`](crate::settings::DEFAULT_LOG_FILTER).
    InitLogging,
    /// Load the certificate chain and the private key.
    LoadCertificates,
    /// Take the listening socket that a supervisor may have handed over in
    /// `slot`.
    TakeInherited { slot: usize },
    /// Make the socket that was handed over non-blocking.
    SetNonBlocking,
    /// Open a listening socket of our own on `address`.
    Bind { address: SocketAddress },
    /// Serve the router on the listening socket until the loop ends.
    Serve,
    /// Leave; all went well.
    Exit,
    /// Leave with a non-zero status, because of `failure`.
    Abort { failure: Failure },
}

impl Action {
    /// Whether nothing follows this action.
    pub open spec fn is_final(self) -> bool {
        self is Exit || self is Abort
    }

    /// Whether this action obtains or uses a listening socket.
    pub open spec fn touches_listener(self) -> bool {
        self is TakeInherited || self is SetNonBlocking || self is Bind || self is Serve
    }

    /// How far into the sequence this action stands.
    pub open spec fn rank(self) -> int {
        match self {
            Action::InstallErrorReporting => 0,
            Action::LoadEnvironment => 1,
            Action::InitLogging => 2,
            Action::LoadCertificates => 3,
            Action::TakeInherited { .. } => 4,
            Action::SetNonBlocking => 5,
            Action::Bind { .. } => 5,
            Action::Serve => 6,
            Action::Exit => 7,
            Action::Abort { .. } => 7,
        }
    }
}

/// The action that the sequence begins with.
pub open spec fn first_action_spec() -> Action {
    Action::InstallErrorReporting
}

/// The action that follows `action` once it has ended in `outcome`.
///
/// A missing environment file is passed over, and so is a failure to read
/// it. A missing socket in the inherited slot sends the process to its
/// fallback address. Everything else that is missing or fails is fatal.
/// Certificates are loaded behind TLS only, and before any socket is
/// touched.
pub open spec fn next_action_spec(transport: Transport, action: Action, outcome: Outcome) -> Action {
    match action {
        Action::InstallErrorReporting => match outcome {
            Outcome::Done => Action::LoadEnvironment,
            _ => Action::Abort { failure: Failure::ErrorReporting },
        },
        Action::LoadEnvironment => Action::InitLogging,
        Action::InitLogging => match outcome {
            Outcome::Done => match transport {
                Transport::Plain => Action::TakeInherited { slot: INHERITED_SLOT },
                Transport::Tls => Action::LoadCertificates,
            },
            _ => Action::Abort { failure: Failure::Logging },
        },
        Action::LoadCertificates => match outcome {
            Outcome::Done => Action::TakeInherited { slot: INHERITED_SLOT },
            _ => Action::Abort { failure: Failure::Certificates },
        },
        Action::TakeInherited { .. } => match outcome {
            Outcome::Done => Action::SetNonBlocking,
            Outcome::Missing => Action::Bind { address: fallback_address() },
            Outcome::Failed => Action::Abort { failure: Failure::InheritedListener },
        },
        Action::SetNonBlocking => match outcome {
            Outcome::Done => Action::Serve,
            _ => Action::Abort { failure: Failure::NonBlocking },
        },
        Action::Bind { .. } => match outcome {
            Outcome::Done => Action::Serve,
            _ => Action::Abort { failure: Failure::Bind },
        },
        Action::Serve => match outcome {
            Outcome::Done => Action::Exit,
            _ => Action::Abort { failure: Failure::Server },
        },
        Action::Exit => Action::Exit,
        Action::Abort { failure } => Action::Abort { failure },
    }
}

/// Every action that the process is told to perform, in order, when the
/// actions end as `outcomes` say: the `i`-th outcome is that of the `i`-th
/// action, and one more action follows the last outcome.
pub open spec fn plan(transport: Transport, outcomes: Seq<Outcome>) -> Seq<Action>
    decreases outcomes.len(),
{
    if outcomes.len() == 0 {
        seq![first_action_spec()]
    } else {
        let before = plan(transport, outcomes.drop_last());
        before.push(next_action_spec(transport, before.last(), outcomes.last()))
    }
}

/// The action that the sequence begins with.
#[verifier::when_used_as_spec(first_action_spec)]
pub fn first_action() -> (action: Action)
    ensures
        action == first_action_spec(),
{
    Action::InstallErrorReporting
}

/// The action that follows `action` once it has ended in `outcome`.
#[verifier::when_used_as_spec(next_action_spec)]
pub fn next_action(transport: Transport, action: Action, outcome: Outcome) -> (next: Action)
    ensures
        next == next_action_spec(transport, action, outcome),
{
    match action {
        Action::InstallErrorReporting => match outcome {
            Outcome::Done => Action::LoadEnvironment,
            _ => Action::Abort { failure: Failure::ErrorReporting },
        },
        Action::LoadEnvironment => Action::InitLogging,
        Action::InitLogging => match outcome {
            Outcome::Done => match transport {
                Transport::Plain => Action::TakeInherited { slot: INHERITED_SLOT },
                Transport::Tls => Action::LoadCertificates,
            },
            _ => Action::Abort { failure: Failure::Logging },
        },
        Action::LoadCertificates => match outcome {
            Outcome::Done => Action::TakeInherited { slot: INHERITED_SLOT },
            _ => Action::Abort { failure: Failure::Certificates },
        },
        Action::TakeInherited { .. } => match outcome {
            Outcome::Done => Action::SetNonBlocking,
            Outcome::Missing => Action::Bind { address: fallback_address() },
            Outcome::Failed => Action::Abort { failure: Failure::InheritedListener },
        },
        Action::SetNonBlocking => match outcome {
            Outcome::Done => Action::Serve,
            _ => Action::Abort { failure: Failure::NonBlocking },
        },
        Action::Bind { .. } => match outcome {
            Outcome::Done => Action::Serve,
            _ => Action::Abort { failure: Failure::Bind },
        },
        Action::Serve => match outcome {
            Outcome::Done => Action::Exit,
            _ => Action::Abort { failure: Failure::Server },
        },
        Action::Exit => Action::Exit,
        Action::Abort { failure } => Action::Abort { failure },
    }
}

/// A plan holds one action more than there are outcomes, and begins with
/// the first action.
pub proof fn lemma_plan_len(transport: Transport, outcomes: Seq<Outcome>)
    ensures
        plan(transport, outcomes).len() == outcomes.len() + 1,
        plan(transport, outcomes)[0] == first_action_spec(),
    decreases outcomes.len(),
{
    if outcomes.len() > 0 {
        lemma_plan_len(transport, outcomes.drop_last());
    }
}

/// Each action of a plan but the first is the answer of [`next_action`] to
/// the action before it and to that action's outcome.
pub proof fn lemma_plan_step(transport: Transport, outcomes: Seq<Outcome>, k: int)
    requires
        0 <= k < outcomes.len(),
    ensures
        plan(transport, outcomes)[k + 1] == next_action_spec(
            transport,
            plan(transport, outcomes)[k],
            outcomes[k],
        ),
    decreases outcomes.len(),
{
    let shorter = outcomes.drop_last();
    lemma_plan_len(transport, outcomes);
    lemma_plan_len(transport, shorter);
    if k + 1 < outcomes.len() {
        lemma_plan_step(transport, shorter, k);
    }
}

/// The actions of a plan never step back: a later action stands at least as
/// far into the sequence, and strictly further unless the earlier one was
/// already final.
pub proof fn lemma_plan_advances(transport: Transport, outcomes: Seq<Outcome>, i: int, j: int)
    requires
        0 <= i <= j <= outcomes.len(),
    ensures
        plan(transport, outcomes)[i].rank() <= plan(transport, outcomes)[j].rank(),
        i < j && !plan(transport, outcomes)[i].is_final() ==> plan(transport, outcomes)[i].rank()
            < plan(transport, outcomes)[j].rank(),
    decreases j - i,
{
    if i < j {
        lemma_plan_advances(transport, outcomes, i, j - 1);
        lemma_plan_step(transport, outcomes, j - 1);
    }
}

/// Once a plan has reached a final action it repeats that action.
pub proof fn lemma_final_action_stays(
    transport: Transport,
    outcomes: Seq<Outcome>,
    i: int,
    j: int,
)
    requires
        0 <= i <= j <= outcomes.len(),
        plan(transport, outcomes)[i].is_final(),
    ensures
        plan(transport, outcomes)[j] == plan(transport, outcomes)[i],
    decreases j - i,
{
    if i < j {
        lemma_final_action_stays(transport, outcomes, i, j - 1);
        lemma_plan_step(transport, outcomes, j - 1);
    }
}

/// A socket that was handed over is the one that is served: where the
/// inherited slot holds a socket, the process asked for slot
/// [`INHERITED_SLOT`], goes on to make that socket non-blocking, and never
/// binds one of its own.
pub proof fn lemma_inherited_listener_is_adopted(
    transport: Transport,
    outcomes: Seq<Outcome>,
    i: int,
    j: int,
)
    requires
        0 <= i < outcomes.len(),
        0 <= j <= outcomes.len(),
        plan(transport, outcomes)[i] is TakeInherited,
        outcomes[i] == Outcome::Done,
    ensures
        plan(transport, outcomes)[i] == (Action::TakeInherited { slot: INHERITED_SLOT }),
        plan(transport, outcomes)[i + 1] == Action::SetNonBlocking,
        !(plan(transport, outcomes)[j] is Bind),
{
    lemma_plan_len(transport, outcomes);
    lemma_plan_step(transport, outcomes, i);
    if i > 0 {
        lemma_plan_step(transport, outcomes, i - 1);
    }
    if plan(transport, outcomes)[j] is Bind {
        // A `Bind` answers a `TakeInherited` that found nothing, and there
        // is only one `TakeInherited` in a plan.
        lemma_plan_step(transport, outcomes, j - 1);
        if i <= j - 1 {
            lemma_plan_advances(transport, outcomes, i, j - 1);
        } else {
            lemma_plan_advances(transport, outcomes, j - 1, i);
        }
    }
}

/// Without a socket handed over, the process binds the fallback address and
/// no other: where the inherited slot is empty, the next action binds
/// [`fallback_address`], and that is the only `Bind` of the plan.
pub proof fn lemma_fallback_address_is_bound(
    transport: Transport,
    outcomes: Seq<Outcome>,
    i: int,
    j: int,
)
    requires
        0 <= i < outcomes.len(),
        0 <= j <= outcomes.len(),
        plan(transport, outcomes)[i] is TakeInherited,
        outcomes[i] == Outcome::Missing,
    ensures
        plan(transport, outcomes)[i + 1] == (Action::Bind { address: fallback_address() }),
        plan(transport, outcomes)[j] is Bind ==> j == i + 1,
{
    lemma_plan_len(transport, outcomes);
    lemma_plan_step(transport, outcomes, i);
    if plan(transport, outcomes)[j] is Bind {
        lemma_plan_step(transport, outcomes, j - 1);
        if i <= j - 1 {
            lemma_plan_advances(transport, outcomes, i, j - 1);
        } else {
            lemma_plan_advances(transport, outcomes, j - 1, i);
        }
    }
}

/// Over plain TCP no certificates are asked for.
pub proof fn lemma_plain_loads_no_certificates(outcomes: Seq<Outcome>, j: int)
    requires
        0 <= j <= outcomes.len(),
    ensures
        plan(Transport::Plain, outcomes)[j] != Action::LoadCertificates,
    decreases j,
{
    lemma_plan_len(Transport::Plain, outcomes);
    if j > 0 {
        lemma_plain_loads_no_certificates(outcomes, j - 1);
        lemma_plan_step(Transport::Plain, outcomes, j - 1);
    }
}

/// Behind TLS no socket is touched before the certificates are there: an
/// action that obtains or uses a listening socket comes only after the
/// certificates were loaded, and loaded well.
pub proof fn lemma_certificates_come_first(outcomes: Seq<Outcome>, j: int)
    requires
        0 <= j <= outcomes.len(),
        plan(Transport::Tls, outcomes)[j].touches_listener(),
    ensures
        exists|i: int|
            0 <= i < j && #[trigger] plan(Transport::Tls, outcomes)[i] == Action::LoadCertificates
                && outcomes[i] == Outcome::Done,
    decreases j,
{
    let actions = plan(Transport::Tls, outcomes);
    lemma_plan_len(Transport::Tls, outcomes);
    lemma_plan_step(Transport::Tls, outcomes, j - 1);
    if actions[j - 1] == Action::LoadCertificates {
        assert(actions[j - 1] == Action::LoadCertificates && outcomes[j - 1] == Outcome::Done);
    } else {
        lemma_certificates_come_first(outcomes, j - 1);
        let i = choose|i: int|
            0 <= i < j - 1 && #[trigger] actions[i] == Action::LoadCertificates && outcomes[i]
                == Outcome::Done;
        assert(actions[i] == Action::LoadCertificates && outcomes[i] == Outcome::Done);
    }
}

/// Certificates that are missing or malformed end the start at once: every
/// action after the failed load is the abort for that reason, so the
/// process leaves with a non-zero status.
pub proof fn lemma_certificate_failure_is_fatal(
    transport: Transport,
    outcomes: Seq<Outcome>,
    i: int,
    j: int,
)
    requires
        0 <= i < j <= outcomes.len(),
        plan(transport, outcomes)[i] == Action::LoadCertificates,
        outcomes[i] != Outcome::Done,
    ensures
        plan(transport, outcomes)[j] == (Action::Abort { failure: Failure::Certificates }),
{
    lemma_plan_step(transport, outcomes, i);
    lemma_final_action_stays(transport, outcomes, i + 1, j);
}

/// Behind TLS, certificates that are missing or malformed leave the process
/// without a listening socket: no action of the plan, before or after the
/// failed load, obtains or uses one.
pub proof fn lemma_no_listener_without_certificates(outcomes: Seq<Outcome>, i: int, j: int)
    requires
        0 <= i < outcomes.len(),
        0 <= j <= outcomes.len(),
        plan(Transport::Tls, outcomes)[i] == Action::LoadCertificates,
        outcomes[i] != Outcome::Done,
    ensures
        !plan(Transport::Tls, outcomes)[j].touches_listener(),
{
    let actions = plan(Transport::Tls, outcomes);
    if actions[j].touches_listener() {
        lemma_certificates_come_first(outcomes, j);
        let loaded = choose|k: int|
            0 <= k < j && #[trigger] actions[k] == Action::LoadCertificates && outcomes[k]
                == Outcome::Done;
        // The load that went well and the load that did not would be two
        // different places of the plan with the same action.
        if loaded < i {
            lemma_plan_advances(Transport::Tls, outcomes, loaded, i);
        } else {
            lemma_plan_advances(Transport::Tls, outcomes, i, loaded);
        }
    }
}

} // verus!
