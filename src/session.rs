use vstd::prelude::*;

verus! {

/// The step whose error a failed session reports.
#[derive(Clone, Copy, Debug, PartialEq, Eq, Structural)]
pub enum FailureSource {
    Start,
    Work,
    Commit,
    Abort,
}

/// Where an atomic session stands.
#[derive(Clone, Copy, Debug, PartialEq, Eq, Structural)]
pub enum SessionState {
    /// The transaction is being started.
    Starting,
    /// The unit of work is running.
    Working,
    /// The commit is being attempted.
    Committing,
    /// The transaction is being aborted after the failure of the given step.
    Aborting(FailureSource),
    /// The session is over.
    Finished,
}

/// What the store answered to the last action.
#[derive(Clone, Copy, Debug, PartialEq, Eq, Structural)]
pub enum SessionEvent {
    Started,
    StartFailed,
    WorkDone,
    /// The unit of work failed; `transient` when the store labels the error
    /// as a transient transaction conflict.
    WorkFailed { transient: bool },
    CommitDone,
    /// The commit failed; `unknown_result` when the store cannot tell whether
    /// it took effect.
    CommitFailed { unknown_result: bool },
    AbortDone,
    AbortFailed,
}

/// What the runner of the session does next.
#[derive(Clone, Copy, Debug, PartialEq, Eq, Structural)]
pub enum SessionAction {
    StartTransaction,
    RunWork,
    Commit,
    Abort,
    ReturnOk,
    /// End the session with the error of this step.
    ReturnError(FailureSource),
}

/// Which answers can follow the action taken in a state.
pub open spec fn spec_accepts(state: SessionState, event: SessionEvent) -> bool {
    match state {
        SessionState::Starting => event is Started || event is StartFailed,
        SessionState::Working => event is WorkDone || event is WorkFailed,
        SessionState::Committing => event is CommitDone || event is CommitFailed,
        SessionState::Aborting(_) => event is AbortDone || event is AbortFailed,
        SessionState::Finished => false,
    }
}

/// A session starts by starting its transaction.
pub fn begin() -> (r: (SessionState, SessionAction))
    ensures
        r == (SessionState::Starting, SessionAction::StartTransaction),
{
    (SessionState::Starting, SessionAction::StartTransaction)
}

/// Whether `event` can answer the action taken in `state`.
pub fn accepts(state: SessionState, event: SessionEvent) -> (r: bool)
    ensures
        r == spec_accepts(state, event),
{
    match state {
        SessionState::Starting => matches!(event, SessionEvent::Started | SessionEvent::StartFailed),
        SessionState::Working => matches!(event, SessionEvent::WorkDone | SessionEvent::WorkFailed { .. }),
        SessionState::Committing => matches!(event, SessionEvent::CommitDone | SessionEvent::CommitFailed { .. }),
        SessionState::Aborting(_) => matches!(event, SessionEvent::AbortDone | SessionEvent::AbortFailed),
        SessionState::Finished => false,
    }
}

/// The retry policy of an atomic session. A transient failure of the unit of
/// work runs the whole unit again; an unknown commit result retries the commit
/// alone; any other failure aborts the transaction and ends the session with
/// that failure, or with the abort's own failure if the abort fails.
pub fn step(state: SessionState, event: SessionEvent) -> (r: (SessionState, SessionAction))
    requires
        spec_accepts(state, event),
    ensures
        state is Starting && event is Started ==> r == (SessionState::Working, SessionAction::RunWork),
        state is Starting && event is StartFailed ==> r == (
            SessionState::Finished,
            SessionAction::ReturnError(FailureSource::Start),
        ),
        state is Working && event is WorkDone ==> r == (SessionState::Committing, SessionAction::Commit),
        state is Working && event == (SessionEvent::WorkFailed { transient: true }) ==> r == (
            SessionState::Working,
            SessionAction::RunWork,
        ),
        state is Working && event == (SessionEvent::WorkFailed { transient: false }) ==> r == (
            SessionState::Aborting(FailureSource::Work),
            SessionAction::Abort,
        ),
        state is Committing && event is CommitDone ==> r == (SessionState::Finished, SessionAction::ReturnOk),
        state is Committing && event == (SessionEvent::CommitFailed { unknown_result: true }) ==> r == (
            SessionState::Committing,
            SessionAction::Commit,
        ),
        state is Committing && event == (SessionEvent::CommitFailed { unknown_result: false }) ==> r == (
            SessionState::Aborting(FailureSource::Commit),
            SessionAction::Abort,
        ),
        state matches SessionState::Aborting(f) ==> (event is AbortDone ==> r == (
            SessionState::Finished,
            SessionAction::ReturnError(f),
        )),
        state is Aborting && event is AbortFailed ==> r == (
            SessionState::Finished,
            SessionAction::ReturnError(FailureSource::Abort),
        ),
{
    match (state, event) {
        (SessionState::Starting, SessionEvent::Started) => (SessionState::Working, SessionAction::RunWork),
        (SessionState::Working, SessionEvent::WorkDone) => (SessionState::Committing, SessionAction::Commit),
        (SessionState::Working, SessionEvent::WorkFailed { transient }) => {
            if transient {
                (SessionState::Working, SessionAction::RunWork)
            } else {
                (SessionState::Aborting(FailureSource::Work), SessionAction::Abort)
            }
        },
        (SessionState::Committing, SessionEvent::CommitDone) => (SessionState::Finished, SessionAction::ReturnOk),
        (SessionState::Committing, SessionEvent::CommitFailed { unknown_result }) => {
            if unknown_result {
                (SessionState::Committing, SessionAction::Commit)
            } else {
                (SessionState::Aborting(FailureSource::Commit), SessionAction::Abort)
            }
        },
        (SessionState::Aborting(f), SessionEvent::AbortDone) => (SessionState::Finished, SessionAction::ReturnError(f)),
        (SessionState::Aborting(_), SessionEvent::AbortFailed) => (
            SessionState::Finished,
            SessionAction::ReturnError(FailureSource::Abort),
        ),
        _ => (SessionState::Finished, SessionAction::ReturnError(FailureSource::Start)),
    }
}

} // verus!
