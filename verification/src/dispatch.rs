//! The lifecycle of a run: its webhook attempts, how each attempt is
//! recorded, and the status the run ends in.

use vstd::prelude::*;
use crate::strings::owned;

verus! {

/// The state of a run.
#[derive(PartialEq, Eq, Structural, Clone, Copy)]
pub enum RunStatus {
    Attempting,
    Succeeded,
    Failed,
}

/// The state of one attempt.
#[derive(PartialEq, Eq, Structural)]
pub enum AttemptStatus {
    Succeeded,
    Failed,
}

/// How a dispatch request wants its run executed.
#[derive(PartialEq, Eq, Structural)]
pub enum DispatchMode {
    Unknown,
    /// Return at once and run in the background.
    Async,
    /// Return once the run has ended.
    Sync,
}

/// The HTTP methods a webhook can use.
pub enum HttpMethod {
    Get,
    Post,
    Put,
    Delete,
    Head,
    Patch,
}

impl HttpMethod {
    /// The method's name on the wire.
    pub open spec fn spec_name(&self) -> Seq<char> {
        match self {
            HttpMethod::Get => "GET"@,
            HttpMethod::Post => "POST"@,
            HttpMethod::Put => "PUT"@,
            HttpMethod::Delete => "DELETE"@,
            HttpMethod::Head => "HEAD"@,
            HttpMethod::Patch => "PATCH"@,
        }
    }

    /// The name of the method as the HTTP client takes it.
    pub fn to_reqwest_http_method(&self) -> (name: &'static str)
        ensures
            name@ == self.spec_name(),
    {
        match self {
            HttpMethod::Get => "GET",
            HttpMethod::Post => "POST",
            HttpMethod::Put => "PUT",
            HttpMethod::Delete => "DELETE",
            HttpMethod::Head => "HEAD",
            HttpMethod::Patch => "PATCH",
        }
    }
}

/// A run of a trigger, as the dispatcher tracks it.
pub struct Run {
    pub id: String,
    pub trigger_id: String,
    pub project_id: String,
    /// When the run was created, in seconds since the Unix epoch.
    pub created_at: i64,
    pub status: RunStatus,
    pub latest_attempt_id: Option<String>,
}

/// What one webhook attempt got back.
pub struct WebhookAttemptDetails {
    pub response_code: Option<i32>,
    pub response_latency_ms: u64,
    pub error_message: Option<String>,
}

impl WebhookAttemptDetails {
    /// An attempt that got no response, with the reason.
    pub fn with_error(message: String) -> (d: WebhookAttemptDetails)
        ensures
            d.response_code is None,
            d.response_latency_ms == 0,
            d.error_message == Some(message),
    {
        WebhookAttemptDetails { response_code: None, response_latency_ms: 0, error_message: Some(message) }
    }

    /// An attempt that got a response with a status code.
    pub fn with_response(status: u16, latency_ms: u64) -> (d: WebhookAttemptDetails)
        ensures
            d.response_code == Some(status as i32),
            d.response_latency_ms == latency_ms,
            d.error_message is None,
    {
        WebhookAttemptDetails { response_code: Some(status as i32), response_latency_ms: latency_ms, error_message: None }
    }
}

/// Why sending a webhook request failed, as the HTTP client reports it.
pub open spec fn failure_text(is_connect: bool, is_timeout: bool) -> Seq<char> {
    if is_connect {
        "Connection Failed"@
    } else if is_timeout {
        "Request timeout"@
    } else {
        "Request failed"@
    }
}

/// The details recorded for a request that failed to get a response:
/// connection failures are told apart from timeouts and other failures.
pub fn failed_request_details(is_connect: bool, is_timeout: bool) -> (d: WebhookAttemptDetails)
    ensures
        d.response_code is None,
        d.error_message matches Some(m) && m@ == failure_text(is_connect, is_timeout),
{
    let message = if is_connect {
        owned("Connection Failed")
    } else if is_timeout {
        owned("Request timeout")
    } else {
        owned("Request failed")
    };
    WebhookAttemptDetails::with_error(message)
}

/// The status of an attempt given whether its response was a success.
pub fn attempt_status(success: bool) -> (s: AttemptStatus)
    ensures
        success ==> s == AttemptStatus::Succeeded,
        !success ==> s == AttemptStatus::Failed,
{
    if success {
        AttemptStatus::Succeeded
    } else {
        AttemptStatus::Failed
    }
}

/// The status of a run after an attempt: a successful attempt makes the
/// run succeed, a failed one leaves it as it was.
pub open spec fn status_after_attempt(status: RunStatus, success: bool) -> RunStatus {
    if success {
        RunStatus::Succeeded
    } else {
        status
    }
}

/// The status a run ends in once no attempt is left: a run that has not
/// succeeded has failed.
pub open spec fn final_status(status: RunStatus) -> RunStatus {
    if status == RunStatus::Succeeded {
        RunStatus::Succeeded
    } else {
        RunStatus::Failed
    }
}

/// The status of a run after attempts with the given outcomes, attempts
/// stopping once one succeeded.
pub open spec fn status_after_attempts(status: RunStatus, outcomes: Seq<bool>) -> RunStatus
    decreases outcomes.len(),
{
    if outcomes.len() == 0 || status == RunStatus::Succeeded {
        status
    } else {
        status_after_attempts(status_after_attempt(status, outcomes[0]), outcomes.drop_first())
    }
}

impl Run {
    /// A run just created by a dispatch request: attempting, with no attempt
    /// yet.
    pub fn new_attempting(id: String, trigger_id: String, project_id: String, created_at: i64) -> (r: Run)
        ensures
            r.id == id,
            r.trigger_id == trigger_id,
            r.project_id == project_id,
            r.created_at == created_at,
            r.status == RunStatus::Attempting,
            r.latest_attempt_id is None,
    {
        Run { id, trigger_id, project_id, created_at, status: RunStatus::Attempting, latest_attempt_id: None }
    }

    /// Whether another attempt is due: only while the run has not succeeded.
    pub fn wants_attempt(&self) -> (r: bool)
        ensures
            r == (self.status != RunStatus::Succeeded),
    {
        self.status != RunStatus::Succeeded
    }

    /// Records an attempt: it becomes the latest one, and a successful one
    /// makes the run succeed.
    pub fn record_attempt(&mut self, attempt_id: String, success: bool)
        ensures
            final(self).latest_attempt_id == Some(attempt_id),
            final(self).status == status_after_attempt(old(self).status, success),
            final(self).id == old(self).id,
            final(self).trigger_id == old(self).trigger_id,
            final(self).project_id == old(self).project_id,
            final(self).created_at == old(self).created_at,
    {
        self.latest_attempt_id = Some(attempt_id);
        if success {
            self.status = RunStatus::Succeeded;
        }
    }

    /// Ends the run once the attempts ran out: a run that has not succeeded
    /// fails. Returns whether the status changed and must be stored.
    pub fn conclude(&mut self) -> (changed: bool)
        ensures
            final(self).status == final_status(old(self).status),
            changed == (old(self).status != RunStatus::Succeeded),
            final(self).latest_attempt_id == old(self).latest_attempt_id,
            final(self).id == old(self).id,
            final(self).trigger_id == old(self).trigger_id,
            final(self).project_id == old(self).project_id,
            final(self).created_at == old(self).created_at,
    {
        if self.status != RunStatus::Succeeded {
            self.status = RunStatus::Failed;
            true
        } else {
            false
        }
    }

    /// The seconds between the run's creation and `now`, zero when `now` is
    /// earlier.
    pub fn total_duration_seconds(&self, now: i64) -> (d: u64)
        ensures
            d == (if now >= self.created_at { now - self.created_at } else { 0 }),
    {
        if now >= self.created_at {
            (now as i128 - self.created_at as i128) as u64
        } else {
            0
        }
    }
}

/// The run as it stands once the outcome of an attempt (its id and whether
/// it succeeded) is recorded, if an attempt was made.
pub open spec fn run_after(run: Run, last: Option<(String, bool)>) -> Run {
    match last {
        Some((attempt_id, success)) => Run {
            latest_attempt_id: Some(attempt_id),
            status: status_after_attempt(run.status, success),
            ..run
        },
        None => run,
    }
}

/// What a webhook job does next.
pub enum JobAction {
    /// Make another attempt (after the retry policy's delay).
    Attempt,
    /// The job is over; `store` tells whether the run has yet to be
    /// concluded as failed (`Run::conclude`) and written to the run store.
    Finish { store: bool },
}

/// One step of a webhook job: records the attempt just made, if any (the
/// run so recorded is what the job writes to the run store after an
/// attempt), and decides what comes next. Another attempt comes exactly when
/// the run has not succeeded and the retry policy has attempts left;
/// otherwise the job ends, and a run that has not succeeded is then
/// concluded as failed and written again.
pub fn webhook_job_step(run: Run, attempts_left: u32, last: Option<(String, bool)>) -> (r: (Run, JobAction))
    ensures
        r.0 == run_after(run, last),
        (r.1 is Attempt) == (run_after(run, last).status != RunStatus::Succeeded && attempts_left > 0),
        r.1 matches JobAction::Finish { store } ==> store == (run_after(run, last).status != RunStatus::Succeeded),
{
    let mut run = run;
    if let Some((attempt_id, success)) = last {
        run.record_attempt(attempt_id, success);
    }
    if run.wants_attempt() && attempts_left > 0 {
        (run, JobAction::Attempt)
    } else {
        let store = run.wants_attempt();
        (run, JobAction::Finish { store })
    }
}

/// An attempt of a run, as the attempt log keeps it.
pub struct Attempt {
    pub id: String,
    pub run_id: String,
    pub trigger_id: String,
    pub project_id: String,
    pub status: AttemptStatus,
    pub details: WebhookAttemptDetails,
    pub attempt_num: u32,
    /// When the attempt started, in seconds since the Unix epoch.
    pub created_at: i64,
}

/// The record of an attempt of a run: its id, the run's ids, whether the
/// response counted as a success, what the request got back, its number
/// and when it started.
pub fn attempt_record(
    run: &Run,
    attempt_id: String,
    attempt_num: u32,
    details: WebhookAttemptDetails,
    success: bool,
    started_at: i64,
) -> (a: Attempt)
    ensures
        a.id == attempt_id,
        a.run_id == run.id,
        a.trigger_id == run.trigger_id,
        a.project_id == run.project_id,
        success ==> a.status == AttemptStatus::Succeeded,
        !success ==> a.status == AttemptStatus::Failed,
        a.details == details,
        a.attempt_num == attempt_num,
        a.created_at == started_at,
{
    Attempt {
        id: attempt_id,
        run_id: run.id.clone(),
        trigger_id: run.trigger_id.clone(),
        project_id: run.project_id.clone(),
        status: attempt_status(success),
        details,
        attempt_num,
        created_at: started_at,
    }
}

/// The event a finished run emits.
pub enum RunEvent {
    RunSucceeded,
    RunFailed,
}

/// The event for a run that has ended, if its status is final.
pub fn run_outcome_event(status: &RunStatus) -> (e: Option<RunEvent>)
    ensures
        *status == RunStatus::Failed <==> e matches Some(RunEvent::RunFailed),
        *status == RunStatus::Succeeded <==> e matches Some(RunEvent::RunSucceeded),
        *status == RunStatus::Attempting <==> e is None,
{
    match status {
        RunStatus::Failed => Some(RunEvent::RunFailed),
        RunStatus::Succeeded => Some(RunEvent::RunSucceeded),
        RunStatus::Attempting => None,
    }
}

/// A run ends succeeded exactly when one of its attempts succeeded, and
/// failed otherwise; a run that started attempting never ends attempting.
pub proof fn lemma_run_ends_by_attempts(outcomes: Seq<bool>)
    ensures
        final_status(status_after_attempts(RunStatus::Attempting, outcomes)) == (if outcomes.contains(true) {
            RunStatus::Succeeded
        } else {
            RunStatus::Failed
        }),
    decreases outcomes.len(),
{
    if outcomes.len() > 0 {
        if outcomes[0] {
            assert(outcomes.contains(true));
            assert(status_after_attempts(RunStatus::Succeeded, outcomes.drop_first()) == RunStatus::Succeeded);
        } else {
            lemma_run_ends_by_attempts(outcomes.drop_first());
            assert(outcomes.contains(true) <==> outcomes.drop_first().contains(true)) by {
                if outcomes.contains(true) {
                    let i = choose|i: int| 0 <= i < outcomes.len() && outcomes[i] == true;
                    assert(i > 0);
                    assert(outcomes.drop_first()[i - 1] == true);
                }
                if outcomes.drop_first().contains(true) {
                    let i = choose|i: int| 0 <= i < outcomes.drop_first().len() && outcomes.drop_first()[i] == true;
                    assert(outcomes[i + 1] == true);
                }
            }
        }
    }
}

/// Stores, with the run under dispatch, the run store and attempt store a
/// dispatcher works with.
pub struct RunJob<R, A> {
    pub run: Run,
    pub run_store: R,
    pub attempt_store: A,
}

impl<R, A> RunJob<R, A> {
    pub fn from(run: Run, run_store: R, attempt_store: A) -> (j: RunJob<R, A>)
        ensures
            j.run == run,
            j.run_store == run_store,
            j.attempt_store == attempt_store,
    {
        RunJob { run, run_store, attempt_store }
    }
}

/// Why the dispatch manager could not start or record a run.
pub enum DispatcherManagerError {
    /// The run store failed; holds its message.
    Store(String),
}

/// Starts and tracks runs for one dispatcher cell.
pub struct DispatchManager<R, A> {
    pub cell_id: u32,
    pub run_store: R,
    pub attempt_store: A,
}

impl<R, A> DispatchManager<R, A> {
    pub fn new(cell_id: u32, run_store: R, attempt_store: A) -> (m: DispatchManager<R, A>)
        ensures
            m.cell_id == cell_id,
            m.run_store == run_store,
            m.attempt_store == attempt_store,
    {
        DispatchManager { cell_id, run_store, attempt_store }
    }
}

/// What the dispatch manager does with a run once the run store has taken
/// it: give the run back at once and leave its job running in the
/// background, or run the job and give back the run it ends with.
pub enum DispatchPlan {
    Background(Run),
    Await(Run),
}

/// The decision of the dispatch manager on a new run. The run is stored
/// first (`stored` is the run store's answer): a store failure is passed on
/// and nothing is dispatched. A stored run is dispatched by the request's
/// mode: asynchronously in the background, synchronously awaited. An unknown
/// mode is refused after the run was stored (the caller stops there).
pub fn dispatch_plan(stored: Result<(), String>, run: Run, mode: DispatchMode) -> (r: Result<
    DispatchPlan,
    DispatcherManagerError,
>)
    requires
        stored is Ok ==> mode != DispatchMode::Unknown,
    ensures
        match stored {
            Err(e) => r == Err::<DispatchPlan, DispatcherManagerError>(DispatcherManagerError::Store(e)),
            Ok(_) => if mode == DispatchMode::Async {
                r == Ok::<DispatchPlan, DispatcherManagerError>(DispatchPlan::Background(run))
            } else {
                r == Ok::<DispatchPlan, DispatcherManagerError>(DispatchPlan::Await(run))
            },
        },
{
    match stored {
        Err(e) => Err(DispatcherManagerError::Store(e)),
        Ok(()) => match mode {
            DispatchMode::Async => Ok(DispatchPlan::Background(run)),
            _ => Ok(DispatchPlan::Await(run)),
        },
    }
}

} // verus!
