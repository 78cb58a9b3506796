//! The bounded retry policy for unary calls, as a state machine.
//!
//! The embedding client performs each action the policy returns and reports
//! what happened as the next event: it clones the request, attaches the
//! current token and invokes the call on `Attempt`, refreshes the session
//! token on `Refresh`, hands the response to the caller on `Deliver`, and
//! returns the error on `Abort`.

use vstd::prelude::*;
use crate::error::Error;
use crate::status::{code_of, classify, failure_class_of, FailureClass};

verus! {

/// The most attempts that one logical call may use.
pub const MAX_RETRY: u32 = 3;

#[derive(Clone, Copy, Debug, PartialEq, Eq, Structural)]
pub enum RetryPhase {
    /// No attempt has been made yet.
    Idle,
    /// An attempt is under way.
    InFlight,
    /// A token refresh is under way.
    Refreshing,
    /// The call has been decided.
    Finished,
}

/// Where one logical call stands: the attempts issued so far and what the
/// policy is waiting for.
#[derive(Clone, Copy, Debug, PartialEq, Eq, Structural)]
pub struct RetryState {
    pub attempts: u32,
    pub phase: RetryPhase,
}

/// What the client reports back to the policy.
#[derive(Debug)]
pub enum RetryEvent {
    /// The caller asks for the call to be made.
    Start,
    /// The attempt returned a response.
    Succeeded,
    /// The attempt completed with a failure status.
    Failed(tonic::Status),
    /// The token refresh completed.
    Refreshed,
    /// The token refresh failed.
    RefreshFailed(Error),
}

/// What the client has to do next.
#[derive(Debug)]
pub enum RetryAction {
    /// Issue one attempt with the current token attached.
    Attempt,
    /// Refresh the session token and report how that went.
    Refresh,
    /// Hand the response of the last attempt to the caller.
    Deliver,
    /// Return this error to the caller.
    Abort(Error),
}

impl RetryState {
    pub open spec fn initial() -> RetryState {
        RetryState { attempts: 0, phase: RetryPhase::Idle }
    }

    /// The attempt counter never passes the bound, and is zero exactly while
    /// the call has not started.
    pub open spec fn wf(self) -> bool {
        &&& self.attempts <= MAX_RETRY
        &&& (self.phase == RetryPhase::Idle <==> self.attempts == 0)
    }

    /// The events that make sense in each phase.
    pub open spec fn spec_accepts(self, event: RetryEvent) -> bool {
        match event {
            RetryEvent::Start => self.phase == RetryPhase::Idle,
            RetryEvent::Succeeded => self.phase == RetryPhase::InFlight,
            RetryEvent::Failed(_) => self.phase == RetryPhase::InFlight,
            RetryEvent::Refreshed => self.phase == RetryPhase::Refreshing,
            RetryEvent::RefreshFailed(_) => self.phase == RetryPhase::Refreshing,
        }
    }

    pub open spec fn finished(self) -> RetryState {
        RetryState { attempts: self.attempts, phase: RetryPhase::Finished }
    }

    /// Another attempt while the bound allows one, exhaustion otherwise.
    pub open spec fn next_attempt(self) -> (RetryState, RetryAction) {
        if self.attempts < MAX_RETRY {
            (
                RetryState { attempts: (self.attempts + 1) as u32, phase: RetryPhase::InFlight },
                RetryAction::Attempt,
            )
        } else {
            (self.finished(), RetryAction::Abort(Error::ExecuteFailed))
        }
    }

    /// The transition on a failed attempt of the given class.
    pub open spec fn spec_after_failure(self, class: FailureClass, status: tonic::Status) -> (
        RetryState,
        RetryAction,
    ) {
        match class {
            FailureClass::AuthExpired => (
                RetryState { attempts: self.attempts, phase: RetryPhase::Refreshing },
                RetryAction::Refresh,
            ),
            FailureClass::Transient => self.next_attempt(),
            FailureClass::Fatal => (self.finished(), RetryAction::Abort(Error::Response(status))),
        }
    }

    /// The transition function of the policy.
    pub open spec fn spec_step(self, event: RetryEvent) -> (RetryState, RetryAction) {
        match event {
            RetryEvent::Start => self.next_attempt(),
            RetryEvent::Succeeded => (self.finished(), RetryAction::Deliver),
            RetryEvent::Failed(status) => self.spec_after_failure(failure_class_of(status), status),
            RetryEvent::Refreshed => self.next_attempt(),
            RetryEvent::RefreshFailed(err) => (self.finished(), RetryAction::Abort(err)),
        }
    }

    /// The state of a call that has not started.
    pub fn new() -> (state: RetryState)
        ensures
            state == RetryState::initial(),
            state.wf(),
    {
        RetryState { attempts: 0, phase: RetryPhase::Idle }
    }

    /// The attempts issued so far.
    pub fn attempts(&self) -> (n: u32)
        ensures
            n == self.attempts,
    {
        self.attempts
    }

    /// Whether the call has been decided.
    pub fn is_finished(&self) -> (b: bool)
        ensures
            b == (self.phase == RetryPhase::Finished),
    {
        match self.phase {
            RetryPhase::Finished => true,
            _ => false,
        }
    }

    /// Whether the counter and the phase agree with each other.
    pub fn is_valid(&self) -> (b: bool)
        ensures
            b == self.wf(),
    {
        self.attempts <= MAX_RETRY && ((self.phase == RetryPhase::Idle) == (self.attempts == 0))
    }

    /// Whether `event` may be reported in this state.
    pub fn accepts(&self, event: &RetryEvent) -> (b: bool)
        ensures
            b == self.spec_accepts(*event),
    {
        match event {
            RetryEvent::Start => self.phase == RetryPhase::Idle,
            RetryEvent::Succeeded => self.phase == RetryPhase::InFlight,
            RetryEvent::Failed(_) => self.phase == RetryPhase::InFlight,
            RetryEvent::Refreshed => self.phase == RetryPhase::Refreshing,
            RetryEvent::RefreshFailed(_) => self.phase == RetryPhase::Refreshing,
        }
    }

    fn advance(&mut self) -> (action: RetryAction)
        requires
            old(self).wf(),
        ensures
            (*final(self), action) == old(self).next_attempt(),
            final(self).wf(),
    {
        if self.attempts < MAX_RETRY {
            self.attempts = self.attempts + 1;
            self.phase = RetryPhase::InFlight;
            RetryAction::Attempt
        } else {
            self.phase = RetryPhase::Finished;
            RetryAction::Abort(Error::ExecuteFailed)
        }
    }

    /// Decides what follows an attempt that failed with `status`, given the
    /// class the status falls in.
    pub fn after_failure(&mut self, class: FailureClass, status: tonic::Status) -> (action:
        RetryAction)
        requires
            old(self).wf(),
            old(self).phase == RetryPhase::InFlight,
        ensures
            (*final(self), action) == old(self).spec_after_failure(class, status),
            final(self).wf(),
    {
        match class {
            FailureClass::AuthExpired => {
                self.phase = RetryPhase::Refreshing;
                RetryAction::Refresh
            },
            FailureClass::Transient => self.advance(),
            FailureClass::Fatal => {
                self.phase = RetryPhase::Finished;
                RetryAction::Abort(Error::Response(status))
            },
        }
    }

    /// Takes one event and says what the client does next.
    pub fn step(&mut self, event: RetryEvent) -> (action: RetryAction)
        requires
            old(self).wf(),
            old(self).spec_accepts(event),
        ensures
            (*final(self), action) == old(self).spec_step(event),
            final(self).wf(),
    {
        match event {
            RetryEvent::Start => self.advance(),
            RetryEvent::Succeeded => {
                self.phase = RetryPhase::Finished;
                RetryAction::Deliver
            },
            RetryEvent::Failed(status) => {
                let class = classify(code_of(&status));
                self.after_failure(class, status)
            },
            RetryEvent::Refreshed => self.advance(),
            RetryEvent::RefreshFailed(err) => {
                self.phase = RetryPhase::Finished;
                RetryAction::Abort(err)
            },
        }
    }
}

/// The policy run over a script of events: the state it ends in and the
/// actions it asked for, one per event taken. The run stops at the first
/// event that the state does not accept.
pub open spec fn run(state: RetryState, events: Seq<RetryEvent>) -> (RetryState, Seq<RetryAction>)
    decreases events.len(),
{
    if events.len() == 0 || !state.spec_accepts(events[0]) {
        (state, Seq::empty())
    } else {
        let first = state.spec_step(events[0]);
        let rest = run(first.0, events.subrange(1, events.len() as int));
        (rest.0, seq![first.1] + rest.1)
    }
}

/// How many of the actions are attempts.
pub open spec fn attempts_among(actions: Seq<RetryAction>) -> nat
    decreases actions.len(),
{
    if actions.len() == 0 {
        0
    } else {
        let head: nat = if actions[0] is Attempt { 1 } else { 0 };
        head + attempts_among(actions.subrange(1, actions.len() as int))
    }
}

/// Whatever the call and the refresh report, and for however long, a logical
/// call is attempted at most `MAX_RETRY` times: the counter counts exactly the
/// attempts asked for and never passes the bound.
pub proof fn lemma_retry_bound(state: RetryState, events: Seq<RetryEvent>)
    requires
        state.wf(),
    ensures
        run(state, events).0.wf(),
        run(state, events).0.attempts == state.attempts + attempts_among(run(state, events).1),
        attempts_among(run(state, events).1) <= MAX_RETRY - state.attempts,
        run(state, events).1.len() <= events.len(),
    decreases events.len(),
{
    if events.len() == 0 || !state.spec_accepts(events[0]) {
    } else {
        let first = state.spec_step(events[0]);
        let tail = events.subrange(1, events.len() as int);
        lemma_retry_bound(first.0, tail);
        let rest = run(first.0, tail);
        let all = seq![first.1] + rest.1;
        assert(all.subrange(1, all.len() as int) =~= rest.1);
        assert(all[0] == first.1);
    }
}

/// The most actions that the policy can still ask for from a state.
pub open spec fn budget(state: RetryState) -> int {
    match state.phase {
        RetryPhase::Idle => 2 * MAX_RETRY + 1,
        RetryPhase::InFlight => 2 * (MAX_RETRY - state.attempts) + 2,
        RetryPhase::Refreshing => 2 * (MAX_RETRY - state.attempts) + 1,
        RetryPhase::Finished => 0,
    }
}

/// No script of reports keeps a call going for ever: from the start the
/// policy asks for at most seven actions, however many events follow, and
/// from any state for at most what its budget says.
pub proof fn lemma_run_is_bounded(state: RetryState, events: Seq<RetryEvent>)
    requires
        state.wf(),
    ensures
        run(state, events).1.len() <= budget(state),
        budget(RetryState::initial()) == 7,
    decreases events.len(),
{
    if events.len() == 0 || !state.spec_accepts(events[0]) {
    } else {
        let first = state.spec_step(events[0]);
        lemma_run_is_bounded(first.0, events.subrange(1, events.len() as int));
        assert(budget(first.0) < budget(state));
    }
}

/// A decided call takes no further event, so nothing is attempted after it.
pub proof fn lemma_finished_is_final(state: RetryState, events: Seq<RetryEvent>)
    requires
        state.phase == RetryPhase::Finished,
    ensures
        run(state, events) == (state, Seq::<RetryAction>::empty()),
{
}

/// A call that fails as transient every time is attempted exactly
/// `MAX_RETRY` times and then surfaces exhaustion.
pub proof fn lemma_transient_exhausts(s1: tonic::Status, s2: tonic::Status, s3: tonic::Status)
    requires
        failure_class_of(s1) == FailureClass::Transient,
        failure_class_of(s2) == FailureClass::Transient,
        failure_class_of(s3) == FailureClass::Transient,
    ensures
        ({
            let a = RetryState::initial().spec_step(RetryEvent::Start);
            let b = a.0.spec_step(RetryEvent::Failed(s1));
            let c = b.0.spec_step(RetryEvent::Failed(s2));
            let d = c.0.spec_step(RetryEvent::Failed(s3));
            &&& a.1 == RetryAction::Attempt
            &&& b.1 == RetryAction::Attempt
            &&& c.1 == RetryAction::Attempt
            &&& d.1 == RetryAction::Abort(Error::ExecuteFailed)
            &&& d.0 == (RetryState { attempts: MAX_RETRY, phase: RetryPhase::Finished })
        }),
{
}

/// When an attempt is rejected for its token and the refresh succeeds, the
/// same logical call is attempted again, provided an attempt is left, and a
/// success of that attempt is delivered.
pub proof fn lemma_auth_convergence(state: RetryState, status: tonic::Status)
    requires
        state.wf(),
        state.phase == RetryPhase::InFlight,
        state.attempts < MAX_RETRY,
        failure_class_of(status) == FailureClass::AuthExpired,
    ensures
        ({
            let a = state.spec_step(RetryEvent::Failed(status));
            let b = a.0.spec_step(RetryEvent::Refreshed);
            let c = b.0.spec_step(RetryEvent::Succeeded);
            &&& a.1 == RetryAction::Refresh
            &&& a.0.spec_accepts(RetryEvent::Refreshed)
            &&& b.1 == RetryAction::Attempt
            &&& b.0.spec_accepts(RetryEvent::Succeeded)
            &&& c.1 == RetryAction::Deliver
            &&& c.0.phase == RetryPhase::Finished
        }),
{
}

/// An attempt that fails with a status of neither recoverable class ends the
/// call: the status is surfaced unchanged, the attempt count stays as it
/// was, and no later report brings another attempt. When it is the first
/// attempt that fails so, exactly one attempt was made.
pub proof fn lemma_fatal_single_attempt(
    state: RetryState,
    status: tonic::Status,
    later: Seq<RetryEvent>,
)
    requires
        state.wf(),
        state.phase == RetryPhase::InFlight,
        failure_class_of(status) == FailureClass::Fatal,
    ensures
        ({
            let b = state.spec_step(RetryEvent::Failed(status));
            &&& b.1 == RetryAction::Abort(Error::Response(status))
            &&& b.0 == (RetryState { attempts: state.attempts, phase: RetryPhase::Finished })
            &&& run(b.0, later) == (b.0, Seq::<RetryAction>::empty())
        }),
        ({
            let a = RetryState::initial().spec_step(RetryEvent::Start);
            let b = a.0.spec_step(RetryEvent::Failed(status));
            &&& a.1 == RetryAction::Attempt
            &&& b.1 == RetryAction::Abort(Error::Response(status))
            &&& b.0.attempts == 1
        }),
{
}

/// Exhaustion is surfaced by the policy itself only when the bound has been
/// reached: it never stands in for a protocol status, and a status never
/// stands in for it.
pub proof fn lemma_exhaustion_means_bound_reached(state: RetryState, event: RetryEvent)
    requires
        state.wf(),
        state.spec_accepts(event),
        !(event is RefreshFailed),
        state.spec_step(event).1 == RetryAction::Abort(Error::ExecuteFailed),
    ensures
        state.attempts == MAX_RETRY,
        state.spec_step(event).0 == state.finished(),
        event is Refreshed || (event matches RetryEvent::Failed(status) && failure_class_of(status)
            == FailureClass::Transient),
{
}

} // verus!
