use treatviewers_backend::session::{accepts, begin, step, FailureSource, SessionAction, SessionEvent, SessionState};

#[test]
fn session_commits_after_work() {
    let (s, a) = begin();
    assert_eq!(a, SessionAction::StartTransaction);
    let (s, a) = step(s, SessionEvent::Started);
    assert_eq!(a, SessionAction::RunWork);
    let (s, a) = step(s, SessionEvent::WorkDone);
    assert_eq!(a, SessionAction::Commit);
    let (s, a) = step(s, SessionEvent::CommitDone);
    assert_eq!((s, a), (SessionState::Finished, SessionAction::ReturnOk));
}

#[test]
fn session_reruns_work_on_transient_failure() {
    let (s, a) = step(SessionState::Working, SessionEvent::WorkFailed { transient: true });
    assert_eq!((s, a), (SessionState::Working, SessionAction::RunWork));
}

#[test]
fn session_aborts_on_other_work_failure() {
    let (s, a) = step(SessionState::Working, SessionEvent::WorkFailed { transient: false });
    assert_eq!((s, a), (SessionState::Aborting(FailureSource::Work), SessionAction::Abort));
    let (s, a) = step(s, SessionEvent::AbortDone);
    assert_eq!((s, a), (SessionState::Finished, SessionAction::ReturnError(FailureSource::Work)));
}

#[test]
fn session_retries_commit_on_unknown_result() {
    let (s, a) = step(SessionState::Committing, SessionEvent::CommitFailed { unknown_result: true });
    assert_eq!((s, a), (SessionState::Committing, SessionAction::Commit));
    let (s, a) = step(s, SessionEvent::CommitFailed { unknown_result: false });
    assert_eq!((s, a), (SessionState::Aborting(FailureSource::Commit), SessionAction::Abort));
    let (s, a) = step(s, SessionEvent::AbortFailed);
    assert_eq!((s, a), (SessionState::Finished, SessionAction::ReturnError(FailureSource::Abort)));
}

#[test]
fn session_start_failure_ends_session() {
    let (s, a) = step(SessionState::Starting, SessionEvent::StartFailed);
    assert_eq!((s, a), (SessionState::Finished, SessionAction::ReturnError(FailureSource::Start)));
}

#[test]
fn session_accepts_only_answers_to_its_action() {
    assert!(accepts(SessionState::Working, SessionEvent::WorkDone));
    assert!(!accepts(SessionState::Working, SessionEvent::CommitDone));
    assert!(!accepts(SessionState::Finished, SessionEvent::AbortDone));
    assert!(accepts(SessionState::Aborting(FailureSource::Commit), SessionEvent::AbortFailed));
}
