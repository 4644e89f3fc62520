//! Background tasks of the service and the rule for waiting on one.

use vstd::prelude::*;
use vstd::string::StringExecFns;
use crate::client::Client;
use crate::errors::Error;
use crate::errors::ErrorView;
use crate::indexes::ApiCall;
use crate::indexes::ApiCallView;
use crate::indexes::Index;
use crate::indexes::ACCEPTED;
use crate::indexes::OK;
use crate::indexes::no_query;
use crate::request::Method;
use crate::request::document_outcome;
use crate::request::effective_body;
use crate::request::outcome_view;
use crate::request::parse_response;
use crate::json::json_document;
use crate::request::Verb;
use crate::json::JsonDocument;
use crate::json::JsonDocumentView;
use crate::text::same_text;
use crate::text::decimal;
use crate::text::to_decimal;

verus! {

/// Pause between two polls when the caller names none, in milliseconds.
pub const DEFAULT_INTERVAL_MS: u64 = 50;

/// Longest wait when the caller names none, in milliseconds.
pub const DEFAULT_TIMEOUT_MS: u64 = 5000;

/// Complaint used when a body does not describe a task.
pub const NOT_A_TASK: &'static str = "the body is not a task";

/// Where a task stands.
#[derive(Debug, Clone, Copy, PartialEq, Eq, Structural)]
pub enum TaskStatus {
    Enqueued,
    Processing,
    Succeeded,
    Failed,
    Canceled,
}

impl TaskStatus {
    /// A status that will not change any more.
    pub open spec fn is_terminal(self) -> bool {
        self == TaskStatus::Succeeded || self == TaskStatus::Failed || self == TaskStatus::Canceled
    }

    /// The status as the service writes it.
    pub open spec fn name(self) -> Seq<char> {
        match self {
            TaskStatus::Enqueued => "enqueued"@,
            TaskStatus::Processing => "processing"@,
            TaskStatus::Succeeded => "succeeded"@,
            TaskStatus::Failed => "failed"@,
            TaskStatus::Canceled => "canceled"@,
        }
    }

    /// The status a name stands for.
    pub open spec fn named(name: Seq<char>) -> Option<TaskStatus> {
        if name == "enqueued"@ {
            Some(TaskStatus::Enqueued)
        } else if name == "processing"@ {
            Some(TaskStatus::Processing)
        } else if name == "succeeded"@ {
            Some(TaskStatus::Succeeded)
        } else if name == "failed"@ {
            Some(TaskStatus::Failed)
        } else if name == "canceled"@ {
            Some(TaskStatus::Canceled)
        } else {
            None
        }
    }

    /// Whether the status will not change any more.
    pub fn terminal(self) -> (r: bool)
        ensures
            r == self.is_terminal(),
    {
        match self {
            TaskStatus::Enqueued => false,
            TaskStatus::Processing => false,
            TaskStatus::Succeeded => true,
            TaskStatus::Failed => true,
            TaskStatus::Canceled => true,
        }
    }

    /// The status as the service writes it.
    pub fn as_str(self) -> (s: &'static str)
        ensures
            s@ == self.name(),
    {
        match self {
            TaskStatus::Enqueued => "enqueued",
            TaskStatus::Processing => "processing",
            TaskStatus::Succeeded => "succeeded",
            TaskStatus::Failed => "failed",
            TaskStatus::Canceled => "canceled",
        }
    }

    /// Reads a status as the service writes it.
    pub fn from_name(name: &str) -> (r: Option<TaskStatus>)
        ensures
            r == TaskStatus::named(name@),
    {
        if same_text(name, "enqueued") {
            Some(TaskStatus::Enqueued)
        } else if same_text(name, "processing") {
            Some(TaskStatus::Processing)
        } else if same_text(name, "succeeded") {
            Some(TaskStatus::Succeeded)
        } else if same_text(name, "failed") {
            Some(TaskStatus::Failed)
        } else if same_text(name, "canceled") {
            Some(TaskStatus::Canceled)
        } else {
            None
        }
    }
}

/// Reading the written form of a status gives the status back.
pub proof fn lemma_status_name_round_trip(status: TaskStatus)
    ensures
        TaskStatus::named(status.name()) == Some(status),
{
    reveal_strlit("enqueued");
    reveal_strlit("processing");
    reveal_strlit("succeeded");
    reveal_strlit("failed");
    reveal_strlit("canceled");
    assert("enqueued"@.len() == 8 && "enqueued"@[0] == 'e');
    assert("processing"@.len() == 10);
    assert("succeeded"@.len() == 9);
    assert("failed"@.len() == 6);
    assert("canceled"@.len() == 8 && "canceled"@[0] == 'c');
}

/// What a mutating call returns: the task it created.
#[derive(Debug, Clone, Copy, PartialEq, Eq, Structural)]
pub struct TaskInfo {
    pub id: u64,
    pub status: TaskStatus,
}

/// The identifier and status a document spells out: the root must be an
/// object whose member `id` is an unsigned integer and whose member
/// `status` is one of the five status names.
pub open spec fn task_info_in(document: JsonDocumentView) -> Option<TaskInfo> {
    match (document.unsigned_of("id"@), document.text_of("status"@)) {
        (Some(id), Some(name)) => match TaskStatus::named(name) {
            Some(status) => Some(TaskInfo { id, status }),
            None => None,
        },
        _ => None,
    }
}

/// The URL under which the service reports on a task.
pub open spec fn task_url(host: Seq<char>, id: u64) -> Seq<char> {
    host + "/tasks/"@ + decimal(id as nat)
}

/// The call that asks for the current state of a task.
pub open spec fn task_call(host: Seq<char>, id: u64) -> ApiCallView {
    ApiCallView {
        url: task_url(host, id),
        verb: Verb::Get,
        query: Seq::empty(),
        body: None,
        expected_status_code: OK,
    }
}

impl TaskInfo {
    /// The call that asks the service where the task stands.
    pub fn status_call(&self, client: &Client) -> (r: ApiCall)
        ensures
            r@ == task_call(client.host@, self.id),
    {
        let mut url = client.host.clone();
        url.append("/tasks/");
        url.append(to_decimal(self.id).as_str());
        ApiCall { url, method: Method::Get { query: no_query() }, expected_status_code: OK }
    }

    /// Begins the wait for the task to reach a terminal status: the call
    /// to repeat and the rule that says when to stop. A missing interval or
    /// timeout stands for the default. Nothing is sent.
    pub fn wait_for_completion(
        &self,
        client: &Client,
        interval_ms: Option<u64>,
        timeout_ms: Option<u64>,
    ) -> (r: Wait)
        ensures
            r.call@ == task_call(client.host@, self.id),
            r.poller.config == PollConfig::chosen(interval_ms, timeout_ms),
            r.poller.polls == 0,
    {
        Wait { call: self.status_call(client), poller: Poller::new(interval_ms, timeout_ms) }
    }

    /// Reads the handle of a task out of a response body.
    pub fn from_document(document: &JsonDocument) -> (r: Result<TaskInfo, Error>)
        ensures
            match task_info_in(document@) {
                Some(info) => r matches Ok(read) && read == info,
                None => r matches Err(e) && e@ == ErrorView::ParseError(NOT_A_TASK@),
            },
    {
        let id = document.unsigned_of("id");
        let name = document.text_of("status");
        match (id, name) {
            (Some(id), Some(name)) => match TaskStatus::from_name(name.as_str()) {
                Some(status) => Ok(TaskInfo { id, status }),
                None => Err(Error::ParseError(String::from_str(NOT_A_TASK))),
            },
            _ => Err(Error::ParseError(String::from_str(NOT_A_TASK))),
        }
    }
}

/// A task as the service reports it when asked.
#[derive(Debug)]
pub struct Task {
    pub id: u64,
    pub status: TaskStatus,
    /// The index the task works on.
    pub index_uid: Option<String>,
    /// The kind of work, as the service names it.
    pub kind: Option<String>,
    /// What the work produced, as JSON.
    pub details: Option<String>,
    /// Why the work failed, as JSON.
    pub error: Option<String>,
}

/// Mathematical counterpart of [`Task`].
pub struct TaskView {
    pub id: u64,
    pub status: TaskStatus,
    pub index_uid: Option<Seq<char>>,
    pub kind: Option<Seq<char>>,
    pub details: Option<Seq<char>>,
    pub error: Option<Seq<char>>,
}

impl View for Task {
    type V = TaskView;

    open spec fn view(&self) -> TaskView {
        TaskView {
            id: self.id,
            status: self.status,
            index_uid: self.index_uid.deep_view(),
            kind: self.kind.deep_view(),
            details: self.details.deep_view(),
            error: self.error.deep_view(),
        }
    }
}

/// The JSON text of a member, unless it is missing or `null`.
pub open spec fn payload_of(document: JsonDocumentView, name: Seq<char>) -> Option<Seq<char>> {
    match document.raw_of(name) {
        Some(raw) => if raw == "null"@ {
            None
        } else {
            Some(raw)
        },
        None => None,
    }
}

/// The task a document spells out: identifier and status as for a
/// [`TaskInfo`], the strings `indexUid` and `type` when present, and the
/// JSON of `details` and `error` when present and not `null`.
pub open spec fn task_in(document: JsonDocumentView) -> Option<TaskView> {
    match task_info_in(document) {
        Some(info) => Some(
            TaskView {
                id: info.id,
                status: info.status,
                index_uid: document.text_of("indexUid"@),
                kind: document.text_of("type"@),
                details: payload_of(document, "details"@),
                error: payload_of(document, "error"@),
            },
        ),
        None => None,
    }
}

/// The JSON text of a member, unless it is missing or `null`.
fn read_payload(document: &JsonDocument, name: &str) -> (r: Option<String>)
    ensures
        r.deep_view() == payload_of(document@, name@),
{
    match document.raw_of(name) {
        Some(raw) => if same_text(raw.as_str(), "null") {
            None
        } else {
            Some(raw)
        },
        None => None,
    }
}

/// The kind of the tasks that create an index.
pub const INDEX_CREATION: &'static str = "indexCreation";

impl TaskView {
    /// The index a task has created: the task succeeded, its kind is index
    /// creation and it names the index.
    pub open spec fn created_index(self) -> Option<Seq<char>> {
        if self.status == TaskStatus::Succeeded && self.kind == Some(INDEX_CREATION@) {
            self.index_uid
        } else {
            None
        }
    }
}

impl Task {
    /// Reads a task out of a response body.
    pub fn from_document(document: &JsonDocument) -> (r: Result<Task, Error>)
        ensures
            match task_in(document@) {
                Some(task) => r matches Ok(read) && read@ == task,
                None => r matches Err(e) && e@ == ErrorView::ParseError(NOT_A_TASK@),
            },
    {
        match TaskInfo::from_document(document) {
            Ok(info) => Ok(
                Task {
                    id: info.id,
                    status: info.status,
                    index_uid: document.text_of("indexUid"),
                    kind: document.text_of("type"),
                    details: read_payload(document, "details"),
                    error: read_payload(document, "error"),
                },
            ),
            Err(e) => Err(e),
        }
    }

    /// Turns the report of a finished index creation into a handle on the
    /// new index; any other task is handed back untouched. Nothing is sent.
    pub fn try_make_index(self, client: &Client) -> (r: Result<Index, Task>)
        ensures
            match self@.created_index() {
                Some(uid) => r matches Ok(index) && index.uid@ == uid && index.client@ == client@,
                None => r matches Err(task) && task == self,
            },
    {
        let creates = match &self.kind {
            Some(kind) => same_text(kind.as_str(), INDEX_CREATION),
            None => false,
        };
        if self.status.terminal() && self.status == TaskStatus::Succeeded && creates {
            match &self.index_uid {
                Some(uid) => {
                    return Ok(client.index(uid.as_str()));
                },
                None => {},
            }
        }
        Err(self)
    }
}

/// How often to ask and how long to keep asking, in milliseconds.
#[derive(Debug, Clone, Copy, PartialEq, Eq, Structural)]
pub struct PollConfig {
    pub interval_ms: u64,
    pub timeout_ms: u64,
}

impl PollConfig {
    /// The configuration a caller's wishes amount to: a missing value
    /// stands for the default.
    pub open spec fn chosen(interval_ms: Option<u64>, timeout_ms: Option<u64>) -> PollConfig {
        PollConfig {
            interval_ms: match interval_ms {
                Some(ms) => ms,
                None => DEFAULT_INTERVAL_MS,
            },
            timeout_ms: match timeout_ms {
                Some(ms) => ms,
                None => DEFAULT_TIMEOUT_MS,
            },
        }
    }

    /// Fills in the defaults for what the caller left out.
    pub fn new(interval_ms: Option<u64>, timeout_ms: Option<u64>) -> (r: PollConfig)
        ensures
            r == PollConfig::chosen(interval_ms, timeout_ms),
    {
        PollConfig {
            interval_ms: match interval_ms {
                Some(ms) => ms,
                None => DEFAULT_INTERVAL_MS,
            },
            timeout_ms: match timeout_ms {
                Some(ms) => ms,
                None => DEFAULT_TIMEOUT_MS,
            },
        }
    }
}

/// What to do after a poll.
#[derive(Debug)]
pub enum PollAction {
    /// The task is over: hand it to the caller.
    Return(Task),
    /// The wait has lasted too long: give up.
    TimedOut,
    /// Pause for so many milliseconds, then ask again.
    Sleep(u64),
}

/// Mathematical counterpart of [`PollAction`].
pub enum PollActionView {
    Return(TaskView),
    TimedOut,
    Sleep(u64),
}

impl View for PollAction {
    type V = PollActionView;

    open spec fn view(&self) -> PollActionView {
        match self {
            PollAction::Return(task) => PollActionView::Return(task@),
            PollAction::TimedOut => PollActionView::TimedOut,
            PollAction::Sleep(ms) => PollActionView::Sleep(*ms),
        }
    }
}

/// The three ways a poll can go.
pub enum Verdict {
    Return,
    TimedOut,
    Sleep,
}

/// The rule of the wait: a terminal status ends it at once, whatever the
/// clock says; otherwise it ends once more time has passed than the
/// timeout allows; otherwise it goes on after a pause.
pub open spec fn verdict(config: PollConfig, status: TaskStatus, elapsed_ms: int) -> Verdict {
    if status.is_terminal() {
        Verdict::Return
    } else if elapsed_ms > config.timeout_ms {
        Verdict::TimedOut
    } else {
        Verdict::Sleep
    }
}

/// What to do with a task just fetched: return it, give up, or pause for
/// one interval, as [`verdict`] says of its status.
pub open spec fn next_action(config: PollConfig, task: TaskView, elapsed_ms: u64) -> PollActionView {
    match verdict(config, task.status, elapsed_ms as int) {
        Verdict::Return => PollActionView::Return(task),
        Verdict::TimedOut => PollActionView::TimedOut,
        Verdict::Sleep => PollActionView::Sleep(config.interval_ms),
    }
}

/// A task in a terminal status ends the wait and is returned unchanged,
/// however much time has passed and whatever the configuration.
pub proof fn lemma_terminal_task_is_returned(config: PollConfig, task: TaskView, elapsed_ms: u64)
    requires
        task.status.is_terminal(),
    ensures
        next_action(config, task, elapsed_ms) == PollActionView::Return(task),
{
}

/// A task that is enqueued or processing is never returned: the wait times
/// out exactly when more time has passed than the timeout, and otherwise
/// pauses for the configured interval.
pub proof fn lemma_pending_task_waits_or_times_out(
    config: PollConfig,
    task: TaskView,
    elapsed_ms: u64,
)
    requires
        task.status == TaskStatus::Enqueued || task.status == TaskStatus::Processing,
    ensures
        elapsed_ms > config.timeout_ms ==> next_action(config, task, elapsed_ms)
            == PollActionView::TimedOut,
        elapsed_ms <= config.timeout_ms ==> next_action(config, task, elapsed_ms)
            == PollActionView::Sleep(config.interval_ms),
{
}

/// A wait configured without interval or timeout uses the defaults.
pub proof fn lemma_defaults_apply()
    ensures
        PollConfig::chosen(None, None) == (PollConfig {
            interval_ms: DEFAULT_INTERVAL_MS,
            timeout_ms: DEFAULT_TIMEOUT_MS,
        }),
        forall|interval_ms: u64, timeout_ms: u64|
            PollConfig::chosen(Some(interval_ms), Some(timeout_ms)) == (PollConfig {
                interval_ms,
                timeout_ms,
            }),
{
}

/// How a wait over recorded statuses ends.
pub enum WaitEnd {
    /// With the task in this terminal status.
    Returned(TaskStatus),
    /// With a timeout.
    TimedOut,
    /// Not at all: the record is used up.
    Unfinished,
}

/// Where a wait over recorded statuses stands at its end.
pub struct Replay {
    /// The polls made.
    pub polls: int,
    /// The time passed, in milliseconds.
    pub elapsed_ms: int,
    pub end: WaitEnd,
}

/// The course of a wait whose polls are answered from a record of
/// statuses, on a clock that stands still during a poll and moves by one
/// interval during a pause.
pub open spec fn replay(config: PollConfig, statuses: Seq<TaskStatus>, polls: int, elapsed_ms: int) -> Replay
    decreases statuses.len(),
{
    if statuses.len() == 0 {
        Replay { polls, elapsed_ms, end: WaitEnd::Unfinished }
    } else {
        match verdict(config, statuses[0], elapsed_ms) {
            Verdict::Return => Replay {
                polls: polls + 1,
                elapsed_ms,
                end: WaitEnd::Returned(statuses[0]),
            },
            Verdict::TimedOut => Replay { polls: polls + 1, elapsed_ms, end: WaitEnd::TimedOut },
            Verdict::Sleep => replay(
                config,
                statuses.skip(1),
                polls + 1,
                elapsed_ms + config.interval_ms,
            ),
        }
    }
}

/// If the first terminal status of the record is the one after `k`
/// others, and the last of those is polled in time, the wait returns that
/// status at poll `k + 1`, after `k` pauses.
pub proof fn lemma_wait_returns_first_terminal(
    config: PollConfig,
    statuses: Seq<TaskStatus>,
    k: int,
    polls: int,
    elapsed_ms: int,
)
    requires
        0 <= k < statuses.len(),
        forall|j: int| 0 <= j < k ==> !(#[trigger] statuses[j]).is_terminal(),
        statuses[k].is_terminal(),
        k > 0 ==> elapsed_ms + (k - 1) * config.interval_ms <= config.timeout_ms,
    ensures
        replay(config, statuses, polls, elapsed_ms) == (Replay {
            polls: polls + k + 1,
            elapsed_ms: elapsed_ms + k * config.interval_ms,
            end: WaitEnd::Returned(statuses[k]),
        }),
    decreases k,
{
    let interval = config.interval_ms as int;
    if k > 0 {
        let rest = statuses.skip(1);
        assert((k - 1) * interval >= 0) by (nonlinear_arith)
            requires
                k >= 1,
                interval >= 0,
        ;
        assert(interval + (k - 2) * interval == (k - 1) * interval) by (nonlinear_arith);
        assert(interval + (k - 1) * interval == k * interval) by (nonlinear_arith);
        assert(!statuses[0].is_terminal());
        assert(forall|j: int| 0 <= j < k - 1 ==> rest[j] == statuses[j + 1]);
        assert(rest[k - 1] == statuses[k]);
        lemma_wait_returns_first_terminal(config, rest, k - 1, polls + 1, elapsed_ms + interval);
    } else {
        assert(0 * interval == 0) by (nonlinear_arith);
    }
}

/// If none of the first `k + 1` recorded statuses is terminal, and poll
/// `k + 1` is the first to come later than the timeout allows, the wait
/// ends there with a timeout, after `k` pauses: later than the timeout by
/// one interval at most.
pub proof fn lemma_wait_times_out(
    config: PollConfig,
    statuses: Seq<TaskStatus>,
    k: int,
    polls: int,
    elapsed_ms: int,
)
    requires
        0 <= k < statuses.len(),
        forall|j: int| 0 <= j <= k ==> !(#[trigger] statuses[j]).is_terminal(),
        k > 0 ==> elapsed_ms + (k - 1) * config.interval_ms <= config.timeout_ms,
        elapsed_ms + k * config.interval_ms > config.timeout_ms,
    ensures
        replay(config, statuses, polls, elapsed_ms) == (Replay {
            polls: polls + k + 1,
            elapsed_ms: elapsed_ms + k * config.interval_ms,
            end: WaitEnd::TimedOut,
        }),
        k > 0 ==> elapsed_ms + k * config.interval_ms <= config.timeout_ms + config.interval_ms,
    decreases k,
{
    let interval = config.interval_ms as int;
    assert(!statuses[0].is_terminal());
    if k > 0 {
        let rest = statuses.skip(1);
        assert((k - 1) * interval >= 0) by (nonlinear_arith)
            requires
                k >= 1,
                interval >= 0,
        ;
        assert(interval + (k - 2) * interval == (k - 1) * interval) by (nonlinear_arith);
        assert(interval + (k - 1) * interval == k * interval) by (nonlinear_arith);
        assert(forall|j: int| 0 <= j <= k - 1 ==> rest[j] == statuses[j + 1]);
        lemma_wait_times_out(config, rest, k - 1, polls + 1, elapsed_ms + interval);
    } else {
        assert(0 * interval == 0) by (nonlinear_arith);
    }
}

/// The number of polls after one more, which stops counting at the
/// largest number.
pub open spec fn one_more(polls: u64) -> u64 {
    if polls < u64::MAX {
        (polls + 1) as u64
    } else {
        polls
    }
}

/// The state of one wait: its configuration and the polls made so far.
#[derive(Debug, Clone, Copy, PartialEq, Eq, Structural)]
pub struct Poller {
    pub config: PollConfig,
    pub polls: u64,
}

impl Poller {
    /// The state of a wait that has not asked yet.
    pub fn new(interval_ms: Option<u64>, timeout_ms: Option<u64>) -> (r: Poller)
        ensures
            r.config == PollConfig::chosen(interval_ms, timeout_ms),
            r.polls == 0,
    {
        Poller { config: PollConfig::new(interval_ms, timeout_ms), polls: 0 }
    }

    /// Takes in the task as just fetched and the time passed since the wait
    /// began, and says what to do next.
    pub fn observe(&mut self, task: Task, elapsed_ms: u64) -> (r: PollAction)
        ensures
            final(self).config == old(self).config,
            final(self).polls == one_more(old(self).polls),
            r@ == next_action(old(self).config, task@, elapsed_ms),
            r matches PollAction::Return(returned) ==> returned == task,
    {
        if self.polls < u64::MAX {
            self.polls = self.polls + 1;
        }
        if task.status.terminal() {
            PollAction::Return(task)
        } else if elapsed_ms > self.config.timeout_ms {
            PollAction::TimedOut
        } else {
            PollAction::Sleep(self.config.interval_ms)
        }
    }
}

/// A wait in progress: the call that is repeated and the state of the
/// polling.
#[derive(Debug)]
pub struct Wait {
    pub call: ApiCall,
    pub poller: Poller,
}

/// What a wait does after a poll.
#[derive(Debug)]
pub enum WaitStep {
    /// The wait is over, with the task in a terminal status or with the
    /// error that ended it.
    Done(Result<Task, Error>),
    /// Pause for so many milliseconds, then send the call again.
    Sleep(u64),
}

/// Mathematical counterpart of [`WaitStep`].
pub enum WaitStepView {
    Done(Result<TaskView, ErrorView>),
    Sleep(u64),
}

impl View for WaitStep {
    type V = WaitStepView;

    open spec fn view(&self) -> WaitStepView {
        match self {
            WaitStep::Done(Ok(task)) => WaitStepView::Done(Ok(task@)),
            WaitStep::Done(Err(e)) => WaitStepView::Done(Err(e@)),
            WaitStep::Sleep(ms) => WaitStepView::Sleep(*ms),
        }
    }
}

/// The view of a task or of the error met while fetching it.
pub open spec fn task_result_view(r: Result<Task, Error>) -> Result<TaskView, ErrorView> {
    match r {
        Ok(task) => Ok(task@),
        Err(e) => Err(e@),
    }
}

/// The step a wait takes on the outcome of a poll: an error ends it; a
/// task is judged by [`next_action`].
pub open spec fn wait_step(config: PollConfig, fetched: Result<TaskView, ErrorView>, elapsed_ms: u64) -> WaitStepView {
    match fetched {
        Err(e) => WaitStepView::Done(Err(e)),
        Ok(task) => match next_action(config, task, elapsed_ms) {
            PollActionView::Return(task) => WaitStepView::Done(Ok(task)),
            PollActionView::TimedOut => WaitStepView::Done(Err(ErrorView::Timeout)),
            PollActionView::Sleep(ms) => WaitStepView::Sleep(ms),
        },
    }
}

/// The task a response to a status call stands for, given what the JSON
/// parser made of its body.
pub open spec fn task_outcome(
    status_code: u16,
    parsed: Result<JsonDocumentView, Seq<char>>,
    url: Seq<char>,
) -> Result<TaskView, ErrorView> {
    match document_outcome(status_code, OK, parsed, url) {
        Ok(document) => match task_in(document) {
            Some(task) => Ok(task),
            None => Err(ErrorView::ParseError(NOT_A_TASK@)),
        },
        Err(e) => Err(e),
    }
}

/// The handle a response to a mutating call stands for, given what the
/// JSON parser made of its body.
pub open spec fn task_info_outcome(
    status_code: u16,
    parsed: Result<JsonDocumentView, Seq<char>>,
    url: Seq<char>,
) -> Result<TaskInfo, ErrorView> {
    match document_outcome(status_code, ACCEPTED, parsed, url) {
        Ok(document) => match task_info_in(document) {
            Some(info) => Ok(info),
            None => Err(ErrorView::ParseError(NOT_A_TASK@)),
        },
        Err(e) => Err(e),
    }
}

/// Reads the response to a status call.
pub fn decode_task(status_code: u16, body: &str, url: String) -> (r: Result<Task, Error>)
    ensures
        task_result_view(r) == task_outcome(status_code, json_document(effective_body(body@)), url@),
{
    match parse_response(status_code, OK, body, url) {
        Ok(document) => Task::from_document(&document),
        Err(e) => Err(e),
    }
}

/// Reads the response to a mutating call.
pub fn decode_task_info(status_code: u16, body: &str, url: String) -> (r: Result<TaskInfo, Error>)
    ensures
        outcome_view(r) == task_info_outcome(
            status_code,
            json_document(effective_body(body@)),
            url@,
        ),
{
    match parse_response(status_code, ACCEPTED, body, url) {
        Ok(document) => TaskInfo::from_document(&document),
        Err(e) => Err(e),
    }
}

impl Wait {
    /// Takes in the outcome of a poll and the time passed since the wait
    /// began, and says what to do next.
    pub fn on_task(&mut self, fetched: Result<Task, Error>, elapsed_ms: u64) -> (r: WaitStep)
        ensures
            final(self).call == old(self).call,
            final(self).poller.config == old(self).poller.config,
            final(self).poller.polls == one_more(old(self).poller.polls),
            r@ == wait_step(old(self).poller.config, task_result_view(fetched), elapsed_ms),
            fetched matches Ok(task) ==> task.status.is_terminal() ==> r == WaitStep::Done(
                Ok(task),
            ),
    {
        match fetched {
            Err(e) => {
                if self.poller.polls < u64::MAX {
                    self.poller.polls = self.poller.polls + 1;
                }
                WaitStep::Done(Err(e))
            },
            Ok(task) => match self.poller.observe(task, elapsed_ms) {
                PollAction::Return(task) => WaitStep::Done(Ok(task)),
                PollAction::TimedOut => WaitStep::Done(Err(Error::Timeout)),
                PollAction::Sleep(ms) => WaitStep::Sleep(ms),
            },
        }
    }

    /// Takes in status and body of the response to the call and the time
    /// passed since the wait began, and says what to do next.
    pub fn on_response(&mut self, status_code: u16, body: &str, elapsed_ms: u64) -> (r: WaitStep)
        ensures
            final(self).call == old(self).call,
            final(self).poller.config == old(self).poller.config,
            final(self).poller.polls == one_more(old(self).poller.polls),
            r@ == wait_step(
                old(self).poller.config,
                task_outcome(status_code, json_document(effective_body(body@)), old(self).call.url@),
                elapsed_ms,
            ),
    {
        let fetched = decode_task(status_code, body, self.call.url.clone());
        self.on_task(fetched, elapsed_ms)
    }
}

} // verus!
