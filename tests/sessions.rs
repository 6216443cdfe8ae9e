use sn0int::protocol::{recv_event, Event, LogEvent, RecvError};
use sn0int::supervisor::{any_failed, job_outcome, Action, Input, JobError, Phase, Session};
use sn0int::worker::{run_worker, WorkerAction, WorkerError, WorkerInput, WorkerState};

fn received(line: &str) -> Input {
    Input::Received(recv_event(line))
}

#[test]
fn log_is_published() {
    let (s, a) = Session::new().step(received("{\"Log\":{\"Info\":\"hi\"}}\n"));
    assert!(matches!(s.phase, Phase::Running));
    assert!(matches!(a, Action::Publish(LogEvent::Info(ref m)) if m == "hi"));
}

#[test]
fn database_request_goes_to_bus_and_waits() {
    let (s, a) = Session::new().step(received("{\"Database\":\"select\"}\n"));
    assert!(matches!(s.phase, Phase::Awaiting));
    assert!(matches!(a, Action::Request(Event::Database(ref b)) if b == "select"));
    // Another line while waiting is not answered and not forwarded again.
    let (s, a) = s.step(received("{\"Database\":\"again\"}\n"));
    assert!(matches!(s.phase, Phase::Awaiting));
    assert!(matches!(a, Action::Ignore));
    let (s, a) = s.step(Input::Replied("[1,2]".to_string()));
    assert!(matches!(s.phase, Phase::Running));
    assert!(matches!(a, Action::Reply(ref r) if r == "[1,2]"));
}

#[test]
fn stdio_request_goes_to_bus() {
    let (s, a) = Session::new().step(received("{\"Stdio\":\"read\"}\n"));
    assert!(matches!(s.phase, Phase::Awaiting));
    assert!(matches!(a, Action::Request(Event::Stdio(ref b)) if b == "read"));
    let (s, a) = s.step(Input::BusGone);
    assert!(matches!(s.phase, Phase::Running));
    assert!(matches!(a, Action::Detach));
}

#[test]
fn nonzero_exit_after_success_fails() {
    let (s, a) = Session::new().step(received("{\"Exit\":\"Ok\"}\n"));
    assert!(matches!(a, Action::Reap));
    let (s, a) = s.step(Input::Exited(false));
    assert!(matches!(s.phase, Phase::Done));
    assert!(matches!(a, Action::Finish(Err(JobError::ProcessFailed))));
}

#[test]
fn clean_exit_succeeds() {
    let (s, _) = Session::new().step(received("{\"Exit\":\"Ok\"}\n"));
    let (_, a) = s.step(Input::Exited(true));
    assert!(matches!(a, Action::Finish(Ok(()))));
}

#[test]
fn module_failure_keeps_message() {
    let (s, a) = Session::new().step(received("{\"Exit\":{\"Err\":\"boom\"}}\n"));
    assert!(matches!(a, Action::Reap));
    let (s, a) = s.step(Input::Replied("late".to_string()));
    assert!(matches!(a, Action::Ignore));
    let (s, a) = s.step(Input::Exited(true));
    assert!(matches!(a, Action::Finish(Err(JobError::Module(ref m))) if m == "boom"));
    let (_, a) = s.step(Input::Replied("later".to_string()));
    assert!(matches!(a, Action::Ignore));
}

#[test]
fn closed_pipe_fails_job() {
    let (s, a) = Session::new().step(received(""));
    assert!(matches!(s.phase, Phase::Done));
    assert!(matches!(a, Action::Finish(Err(JobError::ChildClosed))));
}

#[test]
fn malformed_line_fails_job() {
    let (_, a) = Session::new().step(Input::Received(Err(RecvError::Malformed)));
    assert!(matches!(a, Action::Finish(Err(JobError::Protocol))));
}

#[test]
fn job_outcome_needs_both() {
    assert!(job_outcome(None, true).is_ok());
    assert!(matches!(job_outcome(None, false), Err(JobError::ProcessFailed)));
    assert!(matches!(job_outcome(Some("boom".to_string()), true), Err(JobError::Module(ref m)) if m == "boom"));
    assert!(matches!(job_outcome(Some("x".to_string()), false), Err(JobError::Module(_))));
}

#[test]
fn any_failed_detects_one() {
    assert!(!any_failed(&vec![]));
    assert!(!any_failed(&vec![Ok(()), Ok(())]));
    assert!(any_failed(&vec![Ok(()), Err(JobError::ProcessFailed), Ok(())]));
}

#[test]
fn independent_sessions_do_not_block() {
    // One job waits on a reply while another keeps logging.
    let (a, _) = Session::new().step(received("{\"Database\":\"slow\"}\n"));
    let (b, act) = Session::new().step(received("{\"Log\":{\"Info\":\"still here\"}}\n"));
    assert!(matches!(a.phase, Phase::Awaiting));
    assert!(matches!(act, Action::Publish(LogEvent::Info(ref m)) if m == "still here"));
    assert!(matches!(b.phase, Phase::Running));
}

#[test]
fn worker_fails_handshake_on_closed_stream() {
    let (s, a) = run_worker(WorkerState::AwaitStart, WorkerInput::Started(Err(RecvError::Closed)));
    assert_eq!(s, WorkerState::Finished);
    assert!(matches!(a, WorkerAction::Fail(WorkerError::Handshake(RecvError::Closed))));
}

#[test]
fn worker_runs_through() {
    let (s, a) = run_worker(WorkerState::AwaitStart, WorkerInput::Started(Ok(())));
    assert_eq!(s, WorkerState::Loading);
    assert!(matches!(a, WorkerAction::LoadEnvironment));
    let (s, a) = run_worker(s, WorkerInput::SuffixList(true));
    assert_eq!(s, WorkerState::Running);
    assert!(matches!(a, WorkerAction::RunModule));
    let (s, a) = run_worker(s, WorkerInput::ModuleReturned { result: Ok(()), holders: 1 });
    assert_eq!(s, WorkerState::Finished);
    assert!(matches!(a, WorkerAction::Send(ref l) if l == "{\"Exit\":\"Ok\"}\n"));
}

#[test]
fn worker_reports_module_error() {
    let (_, a) = run_worker(
        WorkerState::Running,
        WorkerInput::ModuleReturned { result: Err("boom".to_string()), holders: 1 },
    );
    assert!(matches!(a, WorkerAction::Send(ref l) if l == "{\"Exit\":{\"Err\":\"boom\"}}\n"));
}

#[test]
fn worker_refuses_shared_reporter() {
    let (s, a) = run_worker(
        WorkerState::Running,
        WorkerInput::ModuleReturned { result: Ok(()), holders: 2 },
    );
    assert_eq!(s, WorkerState::Finished);
    assert!(matches!(a, WorkerAction::Fail(WorkerError::ReporterShared)));
}

#[test]
fn worker_reports_bad_suffix_list() {
    let (s, a) = run_worker(WorkerState::Loading, WorkerInput::SuffixList(false));
    assert_eq!(s, WorkerState::Finished);
    assert!(matches!(a, WorkerAction::Send(ref l)
        if l == "{\"Exit\":{\"Err\":\"Failed to load public suffix list\"}}\n"));
}

#[test]
fn worker_ignores_out_of_order_input() {
    let (s, a) = run_worker(WorkerState::AwaitStart, WorkerInput::SuffixList(true));
    assert_eq!(s, WorkerState::AwaitStart);
    assert!(matches!(a, WorkerAction::Ignore));
    let (s, a) = run_worker(WorkerState::Finished, WorkerInput::Started(Ok(())));
    assert_eq!(s, WorkerState::Finished);
    assert!(matches!(a, WorkerAction::Ignore));
}
