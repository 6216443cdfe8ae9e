//! The decisions of the parent side of a sandbox.
//!
//! A supervisor owns one child process. The process itself, its pipes and
//! the shared bus are driven by the caller; this module decides, for each
//! thing that happens, what the supervisor does next.
use vstd::prelude::*;
use crate::protocol::{Event, ExitEvent, LogEvent, RecvError};

verus! {

/// Why a job failed.
#[derive(Clone, Debug)]
pub enum JobError {
    /// The child's output closed before it reported an exit.
    ChildClosed,
    /// The child wrote a line that is not an event.
    Protocol,
    /// The module reported this failure.
    Module(String),
    /// The module reported success, but the process exited with a failure.
    ProcessFailed,
}

/// Where a supervisor stands in the life of its child.
#[derive(Clone, Debug)]
pub enum Phase {
    /// Waiting for the next event from the child.
    Running,
    /// A request of the child is out on the bus; waiting for its reply.
    Awaiting,
    /// The child reported its exit (with the module's failure message, if
    /// any); waiting for the process to end.
    Reaping(Option<String>),
    /// The job is over.
    Done,
}

/// What happened, as the caller saw it.
#[derive(Debug)]
pub enum Input {
    /// A line was read from the child (or the read failed).
    Received(Result<Event, RecvError>),
    /// The owner of the resource replied to the outstanding request.
    Replied(String),
    /// The bus could not take the request, or dropped its reply slot.
    BusGone,
    /// The child process ended, successfully or not.
    Exited(bool),
}

/// What the supervisor does next.
#[derive(Debug)]
pub enum Action {
    /// Hand a log message to the bus; nothing comes back.
    Publish(LogEvent),
    /// Hand a request to the bus together with a reply slot, and wait on it.
    Request(Event),
    /// Write this reply, one line, to the child's input.
    Reply(String),
    /// Close the child's input: its request will never be answered.
    Detach,
    /// Wait for the child process to end.
    Reap,
    /// Report the job's result.
    Finish(Result<(), JobError>),
    /// Nothing to do: the input does not belong to this phase.
    Ignore,
}

/// The result of a job whose child reported `failure` (`None` for success)
/// and whose process ended with status `process_ok`: success only when both
/// say so.
pub open spec fn outcome(failure: Option<String>, process_ok: bool) -> Result<(), JobError> {
    match failure {
        Some(m) => Err(JobError::Module(m)),
        None => if process_ok {
            Ok(())
        } else {
            Err(JobError::ProcessFailed)
        },
    }
}

/// One step of a supervisor.
pub open spec fn step_spec(p: Phase, i: Input) -> (Phase, Action) {
    match (p, i) {
        (Phase::Running, Input::Received(Ok(Event::Log(l)))) => (Phase::Running, Action::Publish(l)),
        (Phase::Running, Input::Received(Ok(Event::Database(b)))) => (
            Phase::Awaiting,
            Action::Request(Event::Database(b)),
        ),
        (Phase::Running, Input::Received(Ok(Event::Stdio(b)))) => (
            Phase::Awaiting,
            Action::Request(Event::Stdio(b)),
        ),
        (Phase::Running, Input::Received(Ok(Event::Exit(ExitEvent::Success)))) => (
            Phase::Reaping(None),
            Action::Reap,
        ),
        (Phase::Running, Input::Received(Ok(Event::Exit(ExitEvent::Failure(m))))) => (
            Phase::Reaping(Some(m)),
            Action::Reap,
        ),
        (Phase::Running, Input::Received(Err(RecvError::Closed))) => (
            Phase::Done,
            Action::Finish(Err(JobError::ChildClosed)),
        ),
        (Phase::Running, Input::Received(Err(RecvError::Malformed))) => (
            Phase::Done,
            Action::Finish(Err(JobError::Protocol)),
        ),
        (Phase::Awaiting, Input::Replied(r)) => (Phase::Running, Action::Reply(r)),
        (Phase::Awaiting, Input::BusGone) => (Phase::Running, Action::Detach),
        (Phase::Reaping(m), Input::Exited(ok)) => (Phase::Done, Action::Finish(outcome(m, ok))),
        (p, _) => (p, Action::Ignore),
    }
}

/// Combines what the child reported with how its process ended.
pub fn job_outcome(failure: Option<String>, process_ok: bool) -> (r: Result<(), JobError>)
    ensures
        r == outcome(failure, process_ok),
        r is Ok <==> (failure is None && process_ok),
{
    match failure {
        Some(m) => Err(JobError::Module(m)),
        None => if process_ok {
            Ok(())
        } else {
            Err(JobError::ProcessFailed)
        },
    }
}

/// The state of one supervisor, after its start command was sent.
pub struct Session {
    pub phase: Phase,
}

impl Session {
    /// A session whose child has been sent its start command.
    pub fn new() -> (s: Session)
        ensures
            s.phase == Phase::Running,
    {
        Session { phase: Phase::Running }
    }

    /// Takes in what happened and says what to do next.
    pub fn step(self, i: Input) -> (r: (Session, Action))
        ensures
            (r.0.phase, r.1) == step_spec(self.phase, i),
    {
        let (p, a) = match (self.phase, i) {
            (Phase::Running, Input::Received(Ok(Event::Log(l)))) => (Phase::Running, Action::Publish(l)),
            (Phase::Running, Input::Received(Ok(Event::Database(b)))) => (
                Phase::Awaiting,
                Action::Request(Event::Database(b)),
            ),
            (Phase::Running, Input::Received(Ok(Event::Stdio(b)))) => (
                Phase::Awaiting,
                Action::Request(Event::Stdio(b)),
            ),
            (Phase::Running, Input::Received(Ok(Event::Exit(ExitEvent::Success)))) => (
                Phase::Reaping(None),
                Action::Reap,
            ),
            (Phase::Running, Input::Received(Ok(Event::Exit(ExitEvent::Failure(m))))) => (
                Phase::Reaping(Some(m)),
                Action::Reap,
            ),
            (Phase::Running, Input::Received(Err(RecvError::Closed))) => (
                Phase::Done,
                Action::Finish(Err(JobError::ChildClosed)),
            ),
            (Phase::Running, Input::Received(Err(RecvError::Malformed))) => (
                Phase::Done,
                Action::Finish(Err(JobError::Protocol)),
            ),
            (Phase::Awaiting, Input::Replied(r)) => (Phase::Running, Action::Reply(r)),
            (Phase::Awaiting, Input::BusGone) => (Phase::Running, Action::Detach),
            (Phase::Reaping(m), Input::Exited(ok)) => (Phase::Done, Action::Finish(job_outcome(m, ok))),
            (p, _) => (p, Action::Ignore),
        };
        (Session { phase: p }, a)
    }
}

/// A job is reported as successful only when the child reported success and
/// its process also ended successfully: the exit status is not made redundant
/// by the exit event.
pub proof fn lemma_exit_status_counts(failure: Option<String>, process_ok: bool)
    ensures
        step_spec(Phase::Reaping(failure), Input::Exited(process_ok)).1 == Action::Finish(Ok(()))
            <==> (failure is None && process_ok),
        failure is None && !process_ok ==> step_spec(Phase::Reaping(failure), Input::Exited(process_ok)).1
            == Action::Finish(Err(JobError::ProcessFailed)),
{
}

/// A module that fails with a message is reported as failed with exactly
/// that message, whatever the status of its process; and once the child has
/// reported its exit, the supervisor never writes to it again.
pub proof fn lemma_failure_is_final(m: String, process_ok: bool, later: Input)
    ensures
        ({
            let (p1, a1) = step_spec(Phase::Running, Input::Received(Ok(Event::Exit(ExitEvent::Failure(m)))));
            let (p2, a2) = step_spec(p1, Input::Exited(process_ok));
            &&& a1 == Action::Reap
            &&& a2 == Action::Finish(Err(JobError::Module(m)))
            &&& !(step_spec(p1, later).1 is Reply)
            &&& !(step_spec(p2, later).1 is Reply)
            &&& !(step_spec(p1, later).1 is Request)
            &&& !(step_spec(p2, later).1 is Request)
        }),
{
}

/// A request of the child is never answered by the supervisor itself: it is
/// handed to the bus once, unchanged, and until the bus replies nothing is
/// written to the child and nothing more is handed to the bus.
pub proof fn lemma_request_goes_through_bus(req: Event, pending: Input, reply: String)
    requires
        req is Database || req is Stdio,
        !(pending is Replied),
    ensures
        step_spec(Phase::Running, Input::Received(Ok(req))) == (Phase::Awaiting, Action::Request(req)),
        !(step_spec(Phase::Awaiting, pending).1 is Reply),
        !(step_spec(Phase::Awaiting, pending).1 is Request),
        !(pending is BusGone) ==> step_spec(Phase::Awaiting, pending).0 == Phase::Awaiting,
        step_spec(Phase::Awaiting, Input::Replied(reply)) == (Phase::Running, Action::Reply(reply)),
{
}


/// Whether any job of a run failed: the run as a whole then fails.
pub fn any_failed(results: &Vec<Result<(), JobError>>) -> (r: bool)
    ensures
        r == exists|i: int| 0 <= i < results@.len() && #[trigger] results@[i] is Err,
{
    let mut i: usize = 0;
    while i < results.len()
        invariant
            i <= results@.len(),
            forall|j: int| 0 <= j < i ==> !(#[trigger] results@[j] is Err),
        decreases results@.len() - i,
    {
        if results[i].is_err() {
            return true;
        }
        i += 1;
    }
    false
}

} // verus!
