//! Cline sessions and the tasks run on them.

use crate::chance::{is_lower_hex, uuid_prefix8};
use crate::text::{debug_str, debug_text, decimal, fmt_u64, join2, join3, join_strings, join_with, push_line, str_equal, strings_view, svec4};
use vstd::prelude::*;

verus! {

broadcast use vstd::string::group_string_axioms;

/// The state of a Cline session.
#[derive(Debug, Clone)]
pub enum SessionStatus {
    Connected,
    Disconnected,
    Connecting,
    Busy,
    Error(String),
}

/// The state of a remote task.
#[derive(Debug, Clone, Copy, PartialEq, Eq, Structural)]
pub enum TaskStatus {
    Pending,
    Running,
    Completed,
    Failed,
    Cancelled,
}

/// An engineering workflow run remotely.
#[derive(Debug, Clone)]
pub enum EngineeringWorkflow {
    CodeReview { file_path: String, language: String },
    RunTests { test_suite: String },
    DeployApplication { environment: String },
    SystemMonitoring,
    GitOperations { operation: String, params: String },
    CustomScript { script_path: String, args: String },
}

/// A Cline instance TARS talks to. Times are UTC text.
#[derive(Debug, Clone)]
pub struct ClineSession {
    pub id: String,
    pub name: String,
    pub host: String,
    pub port: u16,
    pub api_key: Option<String>,
    pub status: SessionStatus,
    pub last_activity: Option<String>,
    pub capabilities: Vec<String>,
}

/// A task sent to a session. Times are UTC text.
#[derive(Debug, Clone)]
pub struct ClineTask {
    pub id: String,
    pub session_id: String,
    pub command: String,
    pub context: String,
    pub status: TaskStatus,
    pub created_at: String,
    pub completed_at: Option<String>,
    pub result: Option<String>,
    pub error: Option<String>,
}

/// The sessions and tasks TARS keeps.
pub struct ClineRegistry {
    pub sessions: Vec<ClineSession>,
    pub tasks: Vec<ClineTask>,
}

/// What an HTTP exchange gave: a reply, with whether its status was a
/// success and the status as text, or the failure of the request.
pub enum HttpOutcome {
    Reply { success: bool, status: String },
    Failed(String),
}

/// What running a task gave: the reply body, a body that could not be read,
/// a reply whose status was not a success, or the failure of the request.
pub enum TaskOutcome {
    Body(String),
    Unreadable(String),
    Status(String),
    Failed(String),
}

/// What to send to run a task.
#[derive(Debug)]
pub struct TaskRequest {
    pub task_id: String,
    pub url: String,
    pub authorization: Option<String>,
    pub command: String,
    pub context: String,
}

/// The capabilities a new session is given.
pub open spec fn session_capabilities() -> Seq<Seq<char>> {
    seq!["file_operations"@, "code_execution"@, "system_commands"@, "git_operations"@]
}

/// An identifier made of a prefix, a host or owner, an underscore and
/// eight lower-case hexadecimal digits.
pub open spec fn is_tagged_id(id: Seq<char>, prefix: Seq<char>, owner: Seq<char>) -> bool {
    let head = prefix + owner + "_"@;
    &&& id.len() == head.len() + 8
    &&& id.subrange(0, head.len() as int) == head
    &&& forall|i: int| head.len() <= i < id.len() ==> is_lower_hex(#[trigger] id[i])
}

/// The index of the first session with an identifier.
pub open spec fn first_session(v: Seq<ClineSession>, id: Seq<char>, i: int) -> bool {
    &&& 0 <= i < v.len()
    &&& v[i].id@ == id
    &&& forall|j: int| 0 <= j < i ==> v[j].id@ != id
}

/// Whether a session has an identifier.
pub open spec fn has_session(v: Seq<ClineSession>, id: Seq<char>) -> bool {
    exists|i: int| 0 <= i < v.len() && v[i].id@ == id
}

/// The index of the first task with an identifier.
pub open spec fn first_task(v: Seq<ClineTask>, id: Seq<char>, i: int) -> bool {
    &&& 0 <= i < v.len()
    &&& v[i].id@ == id
    &&& forall|j: int| 0 <= j < i ==> v[j].id@ != id
}

/// The task list with `t` stored under its identifier: it takes the place
/// of the first task with that identifier, or is added at the end.
pub open spec fn put_task(v: Seq<ClineTask>, t: ClineTask) -> Seq<ClineTask> {
    if has_task(v, t.id@) {
        v.update(choose|i: int| first_task(v, t.id@, i), t)
    } else {
        v.push(t)
    }
}

proof fn lemma_first_task_unique(v: Seq<ClineTask>, id: Seq<char>, i: int)
    requires
        first_task(v, id, i),
    ensures
        has_task(v, id),
        (choose|j: int| first_task(v, id, j)) == i,
{
    assert(0 <= i < v.len() && v[i].id@ == id);
    let j = choose|j: int| first_task(v, id, j);
    assert(first_task(v, id, j));
    if j < i {
        assert(v[j].id@ != id);
    }
    if i < j {
        assert(v[i].id@ != id);
    }
}

/// A task prepared for a connected session: `after` is `before` with the
/// new running task stored under its fresh identifier, and the request
/// goes to that session's execute endpoint with its key.
pub open spec fn task_prepared(
    sessions: Seq<ClineSession>,
    before: Seq<ClineTask>,
    after: Seq<ClineTask>,
    session_id: Seq<char>,
    command: Seq<char>,
    context: Seq<char>,
    now: String,
    req: TaskRequest,
) -> bool {
    exists|t: ClineTask| #[trigger] put_task(before, t) == after && {
        &&& is_tagged_id(req.task_id@, "task_"@, session_id)
        &&& t.id@ == req.task_id@
        &&& t.session_id@ == session_id
        &&& t.command@ == command && req.command@ == command
        &&& t.context@ == context && req.context@ == context
        &&& t.status == TaskStatus::Running
        &&& t.created_at == now
        &&& t.completed_at is None && t.result is None && t.error is None
        &&& exists|i: int| first_session(sessions, session_id, i) && {
            let s = sessions[i];
            &&& req.url@ == "http://"@ + s.host@ + ":"@ + decimal(s.port as nat) + "/api/execute"@
            &&& auth_header_matches(s.api_key, req.authorization)
        }
    }
}

/// How recording a task's outcome changes the task list `before` into
/// `after`, and what `r` reports: the first task with the identifier is
/// completed with the reply's body, or failed with the reason.
pub open spec fn task_completed(
    before: Seq<ClineTask>,
    after: Seq<ClineTask>,
    id: Seq<char>,
    outcome: TaskOutcome,
    now: String,
    r: Result<String, String>,
) -> bool {
    exists|i: int| first_task(before, id, i) && {
        let t = before[i];
        let u = after[i];
        &&& after.len() == before.len()
        &&& forall|j: int| 0 <= j < before.len() && j != i ==> after[j] == before[j]
        &&& u.id == t.id && u.session_id == t.session_id && u.command == t.command && u.context == t.context
        &&& u.created_at == t.created_at
        &&& match outcome {
            TaskOutcome::Body(body) => {
                &&& u.status == TaskStatus::Completed
                &&& u.completed_at == Some(now)
                &&& u.result == Some(body)
                &&& r matches Ok(m) && m@ == "[REMOTE TASK COMPLETED]\n\nTask ID: "@ + id + "\nCommand: "@
                    + t.command@ + "\nStatus: SUCCESS\n\nResult:\n"@ + body@
                    + "\n\nRemote engineering operation completed successfully."@
            },
            TaskOutcome::Unreadable(e) => {
                &&& u.status == TaskStatus::Failed
                &&& u.error matches Some(x) && x@ == "Failed to read response: "@ + e@
                &&& r matches Err(m) && m@ == "Task failed: "@ + e@
            },
            TaskOutcome::Status(st) => {
                &&& u.status == TaskStatus::Failed
                &&& u.error matches Some(x) && x@ == "HTTP "@ + st@
                &&& r matches Err(m) && m@ == "Remote task failed: HTTP "@ + st@
            },
            TaskOutcome::Failed(e) => {
                &&& u.status == TaskStatus::Failed
                &&& u.error matches Some(x) && x@ == "Request failed: "@ + e@
                &&& r matches Err(m) && m@ == "Failed to execute remote task: "@ + e@
            },
        }
    }
}

/// Whether a task can still be cancelled: it is pending or running.
pub open spec fn is_cancellable(t: ClineTask) -> bool {
    t.status == TaskStatus::Running || t.status == TaskStatus::Pending
}

/// A task as cancelling leaves it: cancelled, completed at `now`.
pub open spec fn cancelled(t: ClineTask, now: String) -> ClineTask {
    ClineTask { status: TaskStatus::Cancelled, completed_at: Some(now), ..t }
}

/// Whether a task has an identifier.
pub open spec fn has_task(v: Seq<ClineTask>, id: Seq<char>) -> bool {
    exists|i: int| 0 <= i < v.len() && v[i].id@ == id
}

/// The command and context a workflow runs as.
pub open spec fn workflow_command_text(w: EngineeringWorkflow) -> (Seq<char>, Seq<char>) {
    match w {
        EngineeringWorkflow::CodeReview { file_path, language } => (
            "review_code --file "@ + file_path@ + " --language "@ + language@,
            "code_review"@,
        ),
        EngineeringWorkflow::RunTests { test_suite } => ("run_tests --suite "@ + test_suite@, "testing"@),
        EngineeringWorkflow::DeployApplication { environment } => ("deploy --env "@ + environment@, "deployment"@),
        EngineeringWorkflow::SystemMonitoring => ("monitor_system --report"@, "monitoring"@),
        EngineeringWorkflow::GitOperations { operation, params } => (
            "git "@ + operation@ + " "@ + params@,
            "git_operations"@,
        ),
        EngineeringWorkflow::CustomScript { script_path, args } => (
            "execute_script "@ + script_path@ + " "@ + args@,
            "custom_execution"@,
        ),
    }
}

/// The variant name of a task state, as `{:?}` prints it.
pub open spec fn task_status_debug(s: TaskStatus) -> Seq<char> {
    match s {
        TaskStatus::Pending => "Pending"@,
        TaskStatus::Running => "Running"@,
        TaskStatus::Completed => "Completed"@,
        TaskStatus::Failed => "Failed"@,
        TaskStatus::Cancelled => "Cancelled"@,
    }
}

/// The command and context a workflow runs as.
pub fn workflow_command(w: &EngineeringWorkflow) -> (r: (String, String))
    ensures
        (r.0@, r.1@) == workflow_command_text(*w),
{
    match w {
        EngineeringWorkflow::CodeReview { file_path, language } => {
            let mut c = join3("review_code --file ", file_path.as_str(), " --language ");
            c.append(language.as_str());
            (c, String::from_str("code_review"))
        },
        EngineeringWorkflow::RunTests { test_suite } => (
            join2("run_tests --suite ", test_suite.as_str()),
            String::from_str("testing"),
        ),
        EngineeringWorkflow::DeployApplication { environment } => (
            join2("deploy --env ", environment.as_str()),
            String::from_str("deployment"),
        ),
        EngineeringWorkflow::SystemMonitoring => (
            String::from_str("monitor_system --report"),
            String::from_str("monitoring"),
        ),
        EngineeringWorkflow::GitOperations { operation, params } => {
            let mut c = join3("git ", operation.as_str(), " ");
            c.append(params.as_str());
            (c, String::from_str("git_operations"))
        },
        EngineeringWorkflow::CustomScript { script_path, args } => {
            let mut c = join3("execute_script ", script_path.as_str(), " ");
            c.append(args.as_str());
            (c, String::from_str("custom_execution"))
        },
    }
}

fn task_status_name(s: TaskStatus) -> (r: &'static str)
    ensures
        r@ == task_status_debug(s),
{
    match s {
        TaskStatus::Pending => "Pending",
        TaskStatus::Running => "Running",
        TaskStatus::Completed => "Completed",
        TaskStatus::Failed => "Failed",
        TaskStatus::Cancelled => "Cancelled",
    }
}

/// A tagged identifier: prefix, owner, underscore, eight fresh hex digits.
pub fn tagged_id(prefix: &str, owner: &str) -> (r: String)
    ensures
        is_tagged_id(r@, prefix@, owner@),
{
    let tail = uuid_prefix8();
    let mut r = join3(prefix, owner, "_");
    let ghost head = r@;
    r.append(tail.as_str());
    assert(r@.subrange(0, head.len() as int) =~= head);
    assert forall|i: int| head.len() <= i < r@.len() implies is_lower_hex(#[trigger] r@[i]) by {
        assert(r@[i] == tail@[i - head.len()]);
    }
    r
}

impl ClineRegistry {
    /// No sessions, no tasks.
    pub fn new() -> (r: Self)
        ensures
            r.sessions@.len() == 0,
            r.tasks@.len() == 0,
    {
        ClineRegistry { sessions: Vec::new(), tasks: Vec::new() }
    }

    /// The index of the first session with an identifier.
    pub fn find_session(&self, id: &str) -> (r: Option<usize>)
        ensures
            match r {
                Some(i) => first_session(self.sessions@, id@, i as int),
                None => !has_session(self.sessions@, id@),
            },
    {
        let mut i: usize = 0;
        while i < self.sessions.len()
            invariant
                i <= self.sessions@.len(),
                forall|j: int| 0 <= j < i ==> self.sessions@[j].id@ != id@,
            decreases self.sessions@.len() - i,
        {
            if str_equal(self.sessions[i].id.as_str(), id) {
                return Some(i);
            }
            i = i + 1;
        }
        None
    }

    /// The index of the first task with an identifier.
    pub fn find_task(&self, id: &str) -> (r: Option<usize>)
        ensures
            match r {
                Some(i) => first_task(self.tasks@, id@, i as int),
                None => !has_task(self.tasks@, id@),
            },
    {
        let mut i: usize = 0;
        while i < self.tasks.len()
            invariant
                i <= self.tasks@.len(),
                forall|j: int| 0 <= j < i ==> self.tasks@[j].id@ != id@,
            decreases self.tasks@.len() - i,
        {
            if str_equal(self.tasks[i].id.as_str(), id) {
                return Some(i);
            }
            i = i + 1;
        }
        None
    }

    /// Registers a disconnected session under a fresh identifier
    /// `cline_<host>_<8 hex digits>`, with the standard capabilities.
    pub fn register_session(&mut self, name: String, host: String, port: u16, api_key: Option<String>) -> (r: Result<String, String>)
        ensures
            r matches Ok(id) && is_tagged_id(id@, "cline_"@, host@) && {
                let s = final(self).sessions@.last();
                &&& final(self).sessions@ == old(self).sessions@.push(s)
                &&& s.id@ == id@
                &&& s.name@ == name@
                &&& s.host@ == host@
                &&& s.port == port
                &&& s.api_key == api_key
                &&& s.status is Disconnected
                &&& s.last_activity is None
                &&& strings_view(s.capabilities@) == session_capabilities()
            },
            final(self).tasks@ == old(self).tasks@,
    {
        let id = tagged_id("cline_", host.as_str());
        let session = ClineSession {
            id: id.clone(),
            name,
            host,
            port,
            api_key,
            status: SessionStatus::Disconnected,
            last_activity: None,
            capabilities: svec4("file_operations", "code_execution", "system_commands", "git_operations"),
        };
        self.sessions.push(session);
        Ok(id)
    }

    /// Marks a session connecting and gives the status URL to probe and
    /// the authorization header, if the session has a key.
    pub fn begin_connect(&mut self, session_id: &str) -> (r: Result<(String, Option<String>), String>)
        ensures
            r is Ok <==> has_session(old(self).sessions@, session_id@),
            r matches Err(m) ==> m@ == "Session '"@ + session_id@ + "' not found"@ && final(self).sessions@
                == old(self).sessions@,
            r matches Ok((url, auth)) ==> session_connect_begun(old(self).sessions@, final(self).sessions@, session_id@, url@, auth),
            final(self).tasks@ == old(self).tasks@,
    {
        match self.find_session(session_id) {
            None => Err(join3("Session '", session_id, "' not found")),
            Some(i) => {
                self.sessions[i].status = SessionStatus::Connecting;
                let url = endpoint(&self.sessions[i], "/api/status");
                let auth = bearer(&self.sessions[i].api_key);
                Ok((url, auth))
            },
        }
    }

    /// Records how the status probe went and reports it.
    pub fn finish_connect(&mut self, session_id: &str, outcome: HttpOutcome, now: String) -> (r: Result<String, String>)
        requires
            has_session(old(self).sessions@, session_id@),
        ensures
            session_connect_finished(old(self).sessions@, final(self).sessions@, session_id@, outcome, now, r),
            final(self).tasks@ == old(self).tasks@,
    {
        let i = match self.find_session(session_id) {
            Some(i) => i,
            None => {
                return Err(join3("Session '", session_id, "' not found"));
            },
        };
        match outcome {
            HttpOutcome::Reply { success, status } => {
                if success {
                    self.sessions[i].status = SessionStatus::Connected;
                    self.sessions[i].last_activity = Some(now);
                    let s = &self.sessions[i];
                    let port = fmt_u64(s.port as u64);
                    let caps = join_strings(&s.capabilities, ", ");
                    let mut m = join3("[CLINE SESSION ESTABLISHED]\n\nSession: ", s.name.as_str(), "\nTarget: ");
                    m.append(s.host.as_str());
                    m.append(":");
                    m.append(port.as_str());
                    m.append("\nStatus: CONNECTED\nCapabilities: ");
                    m.append(caps.as_str());
                    m.append("\n\nTARS can now execute remote engineering tasks.\nRemote development environment access confirmed.");
                    Ok(m)
                } else {
                    self.sessions[i].status = SessionStatus::Error(join2("HTTP ", status.as_str()));
                    Err(join2("Cline connection failed: HTTP ", status.as_str()))
                }
            },
            HttpOutcome::Failed(e) => {
                self.sessions[i].status = SessionStatus::Error(join2("Connection failed: ", e.as_str()));
                Err(join2("Failed to connect to Cline: ", e.as_str()))
            },
        }
    }
}

/// The first step of connecting a session: the first session named `id`
/// is marked connecting, nothing else changes, and the status URL and
/// authorization header to probe with are its own.
pub open spec fn session_connect_begun(
    before: Seq<ClineSession>,
    after: Seq<ClineSession>,
    id: Seq<char>,
    url: Seq<char>,
    auth: Option<String>,
) -> bool {
    exists|i: int| first_session(before, id, i) && {
        let s = before[i];
        &&& url == "http://"@ + s.host@ + ":"@ + decimal(s.port as nat) + "/api/status"@
        &&& auth_header_matches(s.api_key, auth)
        &&& after == before.update(i, ClineSession { status: SessionStatus::Connecting, ..s })
    }
}

/// The second step: the probe's outcome decides the session's state and
/// the report `r`; nothing else changes.
pub open spec fn session_connect_finished(
    before: Seq<ClineSession>,
    after: Seq<ClineSession>,
    id: Seq<char>,
    outcome: HttpOutcome,
    now: String,
    r: Result<String, String>,
) -> bool {
    exists|i: int| first_session(before, id, i) && {
        let s = before[i];
        let t = after[i];
        &&& after.len() == before.len()
        &&& forall|j: int| 0 <= j < before.len() && j != i ==> after[j] == before[j]
        &&& t.id == s.id && t.name == s.name && t.host == s.host && t.port == s.port && t.api_key == s.api_key
        &&& t.capabilities == s.capabilities
        &&& match outcome {
            HttpOutcome::Reply { success: true, status: _ } => {
                &&& t.status is Connected
                &&& t.last_activity == Some(now)
                &&& r matches Ok(m) && m@ == "[CLINE SESSION ESTABLISHED]\n\nSession: "@ + s.name@ + "\nTarget: "@
                    + s.host@ + ":"@ + decimal(s.port as nat) + "\nStatus: CONNECTED\nCapabilities: "@
                    + join_with(strings_view(s.capabilities@), ", "@)
                    + "\n\nTARS can now execute remote engineering tasks.\nRemote development environment access confirmed."@
            },
            HttpOutcome::Reply { success: false, status } => {
                &&& t.status matches SessionStatus::Error(e) && e@ == "HTTP "@ + status@
                &&& t.last_activity == s.last_activity
                &&& r matches Err(m) && m@ == "Cline connection failed: HTTP "@ + status@
            },
            HttpOutcome::Failed(e) => {
                &&& t.status matches SessionStatus::Error(x) && x@ == "Connection failed: "@ + e@
                &&& t.last_activity == s.last_activity
                &&& r matches Err(m) && m@ == "Failed to connect to Cline: "@ + e@
            },
        }
    }
}

/// The header for a key: `Bearer` and the key; none without a key.
pub open spec fn auth_header_matches(key: Option<String>, header: Option<String>) -> bool {
    match key {
        Some(k) => header matches Some(h) && h@ == "Bearer "@ + k@,
        None => header is None,
    }
}

fn endpoint(s: &ClineSession, path: &str) -> (r: String)
    ensures
        r@ == "http://"@ + s.host@ + ":"@ + decimal(s.port as nat) + path@,
{
    let port = fmt_u64(s.port as u64);
    let mut r = join3("http://", s.host.as_str(), ":");
    r.append(port.as_str());
    r.append(path);
    r
}

fn bearer(key: &Option<String>) -> (r: Option<String>)
    ensures
        auth_header_matches(*key, r),
{
    match key {
        Some(k) => Some(join2("Bearer ", k.as_str())),
        None => None,
    }
}

/// The icon of a session state.
pub open spec fn session_icon(s: SessionStatus) -> Seq<char> {
    match s {
        SessionStatus::Connected => "🟢"@,
        SessionStatus::Connecting => "🟡"@,
        SessionStatus::Busy => "🔵"@,
        SessionStatus::Disconnected => "⚫"@,
        SessionStatus::Error(_) => "🔴"@,
    }
}

/// A session state as `{:?}` prints it.
pub open spec fn session_status_debug(s: SessionStatus) -> Seq<char> {
    match s {
        SessionStatus::Connected => "Connected"@,
        SessionStatus::Connecting => "Connecting"@,
        SessionStatus::Busy => "Busy"@,
        SessionStatus::Disconnected => "Disconnected"@,
        SessionStatus::Error(m) => "Error("@ + debug_text(m@) + ")"@,
    }
}

/// How many of the tasks belong to a session and are in a state.
pub open spec fn tasks_in_state(tasks: Seq<ClineTask>, session_id: Seq<char>, st: TaskStatus) -> nat {
    tasks.filter(|t: ClineTask| t.session_id@ == session_id && t.status == st).len()
}

/// The report's paragraph on a session.
pub open spec fn session_paragraph(s: ClineSession, tasks: Seq<ClineTask>) -> Seq<char> {
    session_icon(s.status) + " "@ + s.name@ + "\nHost: "@ + s.host@ + ":"@ + decimal(s.port as nat) + "\nStatus: "@
        + session_status_debug(s.status) + "\nCapabilities: "@ + join_with(strings_view(s.capabilities@), ", "@)
        + "\nActive Tasks: "@ + decimal(tasks_in_state(tasks, s.id@, TaskStatus::Running))
        + "\nCompleted Tasks: "@ + decimal(tasks_in_state(tasks, s.id@, TaskStatus::Completed)) + "\n\n"@
}

/// The paragraphs of the sessions, in order.
pub open spec fn session_paragraphs(v: Seq<ClineSession>, tasks: Seq<ClineTask>) -> Seq<char>
    decreases v.len(),
{
    if v.len() == 0 {
        Seq::empty()
    } else {
        session_paragraphs(v.drop_last(), tasks) + session_paragraph(v.last(), tasks)
    }
}

/// The sessions report.
pub open spec fn sessions_report(v: Seq<ClineSession>, tasks: Seq<ClineTask>) -> Seq<char> {
    "[TARS REMOTE SESSIONS REPORT]\n================================\n\n"@ + (if v.len() == 0 {
        "No remote Cline sessions configured.\nStanding by for remote engineering directives.\n"@
    } else {
        session_paragraphs(v, tasks)
    }) + "[MISSION STATUS] Remote engineering capabilities "@ + (if v.len() == 0 {
        "STANDBY"@
    } else {
        "OPERATIONAL"@
    }) + ".\n"@
}

/// Lines each opened by a marker.
pub open spec fn marked_lines(marker: Seq<char>, v: Seq<Seq<char>>) -> Seq<char>
    decreases v.len(),
{
    if v.len() == 0 {
        Seq::empty()
    } else {
        marked_lines(marker, v.drop_last()) + marker + v.last() + "\n"@
    }
}

/// The successes of a list of outcomes, numbered from 1 by position.
pub open spec fn numbered_successes(outcomes: Seq<Result<String, String>>) -> Seq<Seq<char>>
    decreases outcomes.len(),
{
    if outcomes.len() == 0 {
        Seq::empty()
    } else {
        let rest = numbered_successes(outcomes.drop_last());
        match outcomes.last() {
            Ok(m) => rest.push("Session "@ + decimal(outcomes.len()) + ": "@ + m@),
            Err(_) => rest,
        }
    }
}

/// The failures of a list of outcomes, numbered from 1 by position.
pub open spec fn numbered_failures(outcomes: Seq<Result<String, String>>) -> Seq<Seq<char>>
    decreases outcomes.len(),
{
    if outcomes.len() == 0 {
        Seq::empty()
    } else {
        let rest = numbered_failures(outcomes.drop_last());
        match outcomes.last() {
            Ok(_) => rest,
            Err(e) => rest.push("Session "@ + decimal(outcomes.len()) + ": "@ + e@),
        }
    }
}

/// The report of a task distributed over sessions.
pub open spec fn distributed_report_text(task_name: Seq<char>, outcomes: Seq<Result<String, String>>) -> Seq<char> {
    let ok = numbered_successes(outcomes);
    let bad = numbered_failures(outcomes);
    "[DISTRIBUTED TASK: "@ + task_name + "]\n=====================================\n\n"@ + "Successful Operations: "@
        + decimal(ok.len()) + "\n"@ + "Failed Operations: "@ + decimal(bad.len()) + "\n\n"@ + (if ok.len() > 0 {
        "SUCCESS REPORTS:\n"@ + marked_lines("✅ "@, ok) + "\n"@
    } else {
        Seq::empty()
    }) + (if bad.len() > 0 {
        "ERROR REPORTS:\n"@ + marked_lines("❌ "@, bad) + "\n"@
    } else {
        Seq::empty()
    }) + "[MISSION ASSESSMENT] Distributed engineering operation "@ + (if bad.len() == 0 {
        "SUCCESSFUL"@
    } else {
        "PARTIALLY COMPLETED"@
    }) + ".\n"@
}

fn session_icon_exec(s: &SessionStatus) -> (r: &'static str)
    ensures
        r@ == session_icon(*s),
{
    match s {
        SessionStatus::Connected => "🟢",
        SessionStatus::Connecting => "🟡",
        SessionStatus::Busy => "🔵",
        SessionStatus::Disconnected => "⚫",
        SessionStatus::Error(_) => "🔴",
    }
}

/// A session state as `{:?}` prints it.
pub fn session_status_text(s: &SessionStatus) -> (r: String)
    ensures
        r@ == session_status_debug(*s),
{
    match s {
        SessionStatus::Connected => String::from_str("Connected"),
        SessionStatus::Connecting => String::from_str("Connecting"),
        SessionStatus::Busy => String::from_str("Busy"),
        SessionStatus::Disconnected => String::from_str("Disconnected"),
        SessionStatus::Error(m) => {
            let d = debug_str(m.as_str());
            join3("Error(", d.as_str(), ")")
        },
    }
}

fn count_tasks(tasks: &Vec<ClineTask>, session_id: &str, st: TaskStatus) -> (n: usize)
    ensures
        n == tasks_in_state(tasks@, session_id@, st),
{
    let ghost pred = |t: ClineTask| t.session_id@ == session_id@ && t.status == st;
    let mut n: usize = 0;
    let mut i: usize = 0;
    while i < tasks.len()
        invariant
            i <= tasks@.len(),
            pred == (|t: ClineTask| t.session_id@ == session_id@ && t.status == st),
            n == tasks@.take(i as int).filter(pred).len(),
            n <= i,
        decreases tasks@.len() - i,
    {
        proof {
            assert(tasks@.take(i as int + 1) =~= tasks@.take(i as int).push(tasks@[i as int]));
            tasks@.take(i as int).lemma_filter_push(tasks@[i as int], pred);
        }
        if str_equal(tasks[i].session_id.as_str(), session_id) && tasks[i].status == st {
            n = n + 1;
        }
        i = i + 1;
    }
    assert(tasks@.take(tasks@.len() as int) =~= tasks@);
    n
}

fn session_paragraph_text(s: &ClineSession, tasks: &Vec<ClineTask>) -> (r: String)
    ensures
        r@ == session_paragraph(*s, tasks@),
{
    let port = fmt_u64(s.port as u64);
    let status = session_status_text(&s.status);
    let caps = join_strings(&s.capabilities, ", ");
    let running = fmt_u64(count_tasks(tasks, s.id.as_str(), TaskStatus::Running) as u64);
    let done = fmt_u64(count_tasks(tasks, s.id.as_str(), TaskStatus::Completed) as u64);
    let mut r = join3(session_icon_exec(&s.status), " ", s.name.as_str());
    r.append("\nHost: ");
    r.append(s.host.as_str());
    r.append(":");
    r.append(port.as_str());
    r.append("\nStatus: ");
    r.append(status.as_str());
    r.append("\nCapabilities: ");
    r.append(caps.as_str());
    r.append("\nActive Tasks: ");
    r.append(running.as_str());
    r.append("\nCompleted Tasks: ");
    r.append(done.as_str());
    r.append("\n\n");
    r
}

fn append_marked(report: &mut String, marker: &str, v: &Vec<String>)
    ensures
        final(report)@ == old(report)@ + marked_lines(marker@, strings_view(v@)),
{
    let ghost lines = strings_view(v@);
    let mut i: usize = 0;
    while i < v.len()
        invariant
            i <= v@.len(),
            lines == strings_view(v@),
            report@ == old(report)@ + marked_lines(marker@, lines.take(i as int)),
        decreases v@.len() - i,
    {
        assert(lines.take(i as int + 1).drop_last() =~= lines.take(i as int));
        report.append(marker);
        report.append(v[i].as_str());
        report.append("\n");
        i = i + 1;
    }
    assert(lines.take(v@.len() as int) =~= lines);
}

impl ClineRegistry {
    /// Records a task for a connected session, marked running, and gives
    /// what to send. Refused for an unknown or unconnected session.
    pub fn prepare_task(&mut self, session_id: &str, command: String, context: String, now: String) -> (r: Result<TaskRequest, String>)
        ensures
            !has_session(old(self).sessions@, session_id@) ==> (r matches Err(m) && m@ == "Session '"@ + session_id@
                + "' not found"@),
            r is Ok <==> exists|i: int| first_session(old(self).sessions@, session_id@, i) && old(self).sessions@[i].status is Connected,
            (exists|i: int| first_session(old(self).sessions@, session_id@, i) && !(old(self).sessions@[i].status is Connected))
                ==> (r matches Err(m) && m@ == "Session '"@ + session_id@ + "' is not connected"@),
            r is Err ==> final(self).tasks@ == old(self).tasks@,
            r matches Ok(req) ==> task_prepared(old(self).sessions@, old(self).tasks@, final(self).tasks@, session_id@, command@, context@, now, req),
            final(self).sessions@ == old(self).sessions@,
    {
        let i = match self.find_session(session_id) {
            Some(i) => i,
            None => {
                return Err(join3("Session '", session_id, "' not found"));
            },
        };
        let connected = match &self.sessions[i].status {
            SessionStatus::Connected => true,
            _ => false,
        };
        if !connected {
            return Err(join3("Session '", session_id, "' is not connected"));
        }
        let task_id = tagged_id("task_", session_id);
        let url = endpoint(&self.sessions[i], "/api/execute");
        let authorization = bearer(&self.sessions[i].api_key);
        let task = ClineTask {
            id: task_id.clone(),
            session_id: String::from_str(session_id),
            command: command.clone(),
            context: context.clone(),
            status: TaskStatus::Running,
            created_at: now,
            completed_at: None,
            result: None,
            error: None,
        };
        let ghost t = task;
        let ghost before = self.tasks@;
        match self.find_task(task_id.as_str()) {
            Some(j) => {
                self.tasks.set(j, task);
                proof {
                    lemma_first_task_unique(before, t.id@, j as int);
                }
            },
            None => {
                self.tasks.push(task);
            },
        }
        assert(put_task(before, t) == self.tasks@);
        Ok(TaskRequest { task_id, url, authorization, command, context })
    }

    /// Records how a task went and reports it.
    pub fn complete_task(&mut self, task_id: &str, outcome: TaskOutcome, now: String) -> (r: Result<String, String>)
        requires
            has_task(old(self).tasks@, task_id@),
        ensures
            task_completed(old(self).tasks@, final(self).tasks@, task_id@, outcome, now, r),
            final(self).sessions@ == old(self).sessions@,
    {
        let i = match self.find_task(task_id) {
            Some(i) => i,
            None => {
                return Err(join3("Task '", task_id, "' not found"));
            },
        };
        match outcome {
            TaskOutcome::Body(body) => {
                let mut m = join3("[REMOTE TASK COMPLETED]\n\nTask ID: ", task_id, "\nCommand: ");
                m.append(self.tasks[i].command.as_str());
                m.append("\nStatus: SUCCESS\n\nResult:\n");
                m.append(body.as_str());
                m.append("\n\nRemote engineering operation completed successfully.");
                self.tasks[i].status = TaskStatus::Completed;
                self.tasks[i].completed_at = Some(now);
                self.tasks[i].result = Some(body);
                Ok(m)
            },
            TaskOutcome::Unreadable(e) => {
                self.tasks[i].status = TaskStatus::Failed;
                self.tasks[i].error = Some(join2("Failed to read response: ", e.as_str()));
                Err(join2("Task failed: ", e.as_str()))
            },
            TaskOutcome::Status(st) => {
                self.tasks[i].status = TaskStatus::Failed;
                self.tasks[i].error = Some(join2("HTTP ", st.as_str()));
                Err(join2("Remote task failed: HTTP ", st.as_str()))
            },
            TaskOutcome::Failed(e) => {
                self.tasks[i].status = TaskStatus::Failed;
                self.tasks[i].error = Some(join2("Request failed: ", e.as_str()));
                Err(join2("Failed to execute remote task: ", e.as_str()))
            },
        }
    }

    /// Cancels a pending or running task; refused for an unknown task or
    /// one that has ended.
    pub fn cancel_task(&mut self, task_id: &str, now: String) -> (r: Result<String, String>)
        ensures
            !has_task(old(self).tasks@, task_id@) ==> (r matches Err(m) && m@ == "Task '"@ + task_id@ + "' not found"@
                && final(self).tasks@ == old(self).tasks@),
            has_task(old(self).tasks@, task_id@) ==> exists|i: int| first_task(old(self).tasks@, task_id@, i) && {
                let t = old(self).tasks@[i];
                if is_cancellable(t) {
                    &&& final(self).tasks@ == old(self).tasks@.update(i, cancelled(t, now))
                    &&& r matches Ok(m) && m@ == "[TASK CANCELLED]\n\nTask ID: "@ + task_id@ + "\nCommand: "@ + t.command@
                        + "\nStatus: CANCELLED\n\nRemote operation terminated as requested."@
                } else {
                    &&& final(self).tasks@ == old(self).tasks@
                    &&& r matches Err(m) && m@ == "Task '"@ + task_id@ + "' cannot be cancelled (status: "@
                        + task_status_debug(t.status) + ")"@
                }
            },
            final(self).sessions@ == old(self).sessions@,
    {
        let i = match self.find_task(task_id) {
            Some(i) => i,
            None => {
                return Err(join3("Task '", task_id, "' not found"));
            },
        };
        let st = self.tasks[i].status;
        if st == TaskStatus::Running || st == TaskStatus::Pending {
            self.tasks[i].status = TaskStatus::Cancelled;
            self.tasks[i].completed_at = Some(now);
            let mut m = join3("[TASK CANCELLED]\n\nTask ID: ", task_id, "\nCommand: ");
            m.append(self.tasks[i].command.as_str());
            m.append("\nStatus: CANCELLED\n\nRemote operation terminated as requested.");
            Ok(m)
        } else {
            let mut m = join3("Task '", task_id, "' cannot be cancelled (status: ");
            m.append(task_status_name(st));
            m.append(")");
            Err(m)
        }
    }

    /// The task with an identifier, where there is one.
    pub fn get_task_status(&self, task_id: &str) -> (r: Option<&ClineTask>)
        ensures
            r is None <==> !has_task(self.tasks@, task_id@),
            r matches Some(t) ==> exists|i: int| first_task(self.tasks@, task_id@, i) && *t == self.tasks@[i],
    {
        match self.find_task(task_id) {
            Some(i) => Some(&self.tasks[i]),
            None => None,
        }
    }

    /// Every registered session, in the order they were registered.
    pub fn list_sessions(&self) -> (r: &[ClineSession])
        ensures
            r@ == self.sessions@,
    {
        self.sessions.as_slice()
    }

    /// The URL of a session's health probe and its authorization header.
    pub fn health_request(&self, session_id: &str) -> (r: Result<(String, Option<String>), String>)
        ensures
            r is Ok <==> has_session(self.sessions@, session_id@),
            r matches Err(m) ==> m@ == "Session '"@ + session_id@ + "' not found"@,
            r matches Ok((url, auth)) ==> exists|i: int| first_session(self.sessions@, session_id@, i) && {
                let s = self.sessions@[i];
                &&& url@ == "http://"@ + s.host@ + ":"@ + decimal(s.port as nat) + "/api/health"@
                &&& auth_header_matches(s.api_key, auth)
            },
    {
        match self.find_session(session_id) {
            None => Err(join3("Session '", session_id, "' not found")),
            Some(i) => Ok((endpoint(&self.sessions[i], "/api/health"), bearer(&self.sessions[i].api_key))),
        }
    }

    /// The verdict of a health probe; the response time is the reply's
    /// `x-response-time` header, where it has one.
    pub fn health_result(&self, session_id: &str, outcome: HttpOutcome, response_time: Option<String>) -> (r: Result<String, String>)
        requires
            has_session(self.sessions@, session_id@),
        ensures
            exists|i: int| first_session(self.sessions@, session_id@, i) && {
                let s = self.sessions@[i];
                match outcome {
                    HttpOutcome::Reply { success: true, status: _ } => r matches Ok(m) && m@
                        == "[SESSION HEALTH CHECK]\n\nSession: "@ + s.name@ + "\nStatus: HEALTHY\nResponse Time: "@
                        + (match response_time {
                        Some(t) => t@,
                        None => "N/A"@,
                    }) + "ms\nLast Activity: "@ + (match s.last_activity {
                        Some(t) => t@,
                        None => "Never"@,
                    }) + "\n\nRemote system operational and ready for tasks."@,
                    HttpOutcome::Reply { success: false, status } => r matches Err(m) && m@ == "Health check failed: HTTP "@
                        + status@,
                    HttpOutcome::Failed(e) => r matches Err(m) && m@ == "Health check failed: "@ + e@,
                }
            },
    {
        let i = match self.find_session(session_id) {
            Some(i) => i,
            None => {
                return Err(join3("Session '", session_id, "' not found"));
            },
        };
        let s = &self.sessions[i];
        match outcome {
            HttpOutcome::Reply { success, status } => {
                if success {
                    let mut m = join3("[SESSION HEALTH CHECK]\n\nSession: ", s.name.as_str(), "\nStatus: HEALTHY\nResponse Time: ");
                    match &response_time {
                        Some(t) => m.append(t.as_str()),
                        None => m.append("N/A"),
                    }
                    m.append("ms\nLast Activity: ");
                    match &s.last_activity {
                        Some(t) => m.append(t.as_str()),
                        None => m.append("Never"),
                    }
                    m.append("\n\nRemote system operational and ready for tasks.");
                    Ok(m)
                } else {
                    Err(join2("Health check failed: HTTP ", status.as_str()))
                }
            },
            HttpOutcome::Failed(e) => Err(join2("Health check failed: ", e.as_str())),
        }
    }

    /// The sessions report.
    pub fn generate_session_report(&self) -> (r: String)
        ensures
            r@ == sessions_report(self.sessions@, self.tasks@),
    {
        let mut r = String::from_str("[TARS REMOTE SESSIONS REPORT]\n================================\n\n");
        if self.sessions.len() == 0 {
            r.append("No remote Cline sessions configured.\nStanding by for remote engineering directives.\n");
        } else {
            let ghost head = r@;
            let mut i: usize = 0;
            while i < self.sessions.len()
                invariant
                    i <= self.sessions@.len(),
                    r@ == head + session_paragraphs(self.sessions@.take(i as int), self.tasks@),
                decreases self.sessions@.len() - i,
            {
                assert(self.sessions@.take(i as int + 1).drop_last() =~= self.sessions@.take(i as int));
                let p = session_paragraph_text(&self.sessions[i], &self.tasks);
                r.append(p.as_str());
                i = i + 1;
            }
            assert(self.sessions@.take(self.sessions@.len() as int) =~= self.sessions@);
        }
        r.append("[MISSION STATUS] Remote engineering capabilities ");
        r.append(if self.sessions.len() == 0 { "STANDBY" } else { "OPERATIONAL" });
        r.append(".\n");
        r
    }
}

/// A distributed task needs one workflow per session.
pub fn check_distributed_inputs(sessions: usize, workflows: usize) -> (r: Result<(), String>)
    ensures
        r is Ok <==> sessions == workflows,
        r matches Err(m) ==> m@ == "Number of sessions must match number of workflows"@,
{
    if sessions != workflows {
        Err(String::from_str("Number of sessions must match number of workflows"))
    } else {
        Ok(())
    }
}

/// The report of a task distributed over sessions, from the outcome on
/// each session in order.
pub fn distributed_task_report(task_name: &str, outcomes: &Vec<Result<String, String>>) -> (r: String)
    ensures
        r@ == distributed_report_text(task_name@, outcomes@),
{
    let mut ok: Vec<String> = Vec::new();
    let mut bad: Vec<String> = Vec::new();
    let mut i: usize = 0;
    while i < outcomes.len()
        invariant
            i <= outcomes@.len(),
            strings_view(ok@) == numbered_successes(outcomes@.take(i as int)),
            strings_view(bad@) == numbered_failures(outcomes@.take(i as int)),
        decreases outcomes@.len() - i,
    {
        assert(outcomes@.take(i as int + 1).drop_last() =~= outcomes@.take(i as int));
        assert(outcomes@.take(i as int + 1).last() == outcomes@[i as int]);
        let n = fmt_u64((i + 1) as u64);
        match &outcomes[i] {
            Ok(m) => {
                let mut line = join3("Session ", n.as_str(), ": ");
                line.append(m.as_str());
                push_line(&mut ok, line);
            },
            Err(e) => {
                let mut line = join3("Session ", n.as_str(), ": ");
                line.append(e.as_str());
                push_line(&mut bad, line);
            },
        }
        i = i + 1;
    }
    assert(outcomes@.take(outcomes@.len() as int) =~= outcomes@);
    let mut r = join3("[DISTRIBUTED TASK: ", task_name, "]\n=====================================\n\n");
    let a = fmt_u64(ok.len() as u64);
    let b = fmt_u64(bad.len() as u64);
    r.append("Successful Operations: ");
    r.append(a.as_str());
    r.append("\n");
    r.append("Failed Operations: ");
    r.append(b.as_str());
    r.append("\n\n");
    if ok.len() > 0 {
        r.append("SUCCESS REPORTS:\n");
        append_marked(&mut r, "✅ ", &ok);
        r.append("\n");
    }
    if bad.len() > 0 {
        r.append("ERROR REPORTS:\n");
        append_marked(&mut r, "❌ ", &bad);
        r.append("\n");
    }
    r.append("[MISSION ASSESSMENT] Distributed engineering operation ");
    r.append(if bad.len() == 0 { "SUCCESSFUL" } else { "PARTIALLY COMPLETED" });
    r.append(".\n");
    r
}

/// Every outcome of a distributed task is reported once: successes and
/// failures together number the sessions.
pub proof fn law_distributed_outcomes_all_reported(outcomes: Seq<Result<String, String>>)
    ensures
        numbered_successes(outcomes).len() + numbered_failures(outcomes).len() == outcomes.len(),
    decreases outcomes.len(),
{
    if outcomes.len() > 0 {
        law_distributed_outcomes_all_reported(outcomes.drop_last());
    }
}

/// Cancelling is final: after a task is cancelled its identifier still
/// names it first, and it is no longer cancellable, so a second
/// cancellation is refused and changes nothing.
pub proof fn law_cancel_is_final(tasks: Seq<ClineTask>, id: Seq<char>, i: int, now: String)
    requires
        first_task(tasks, id, i),
        is_cancellable(tasks[i]),
    ensures
        ({
            let after = tasks.update(i, cancelled(tasks[i], now));
            first_task(after, id, i) && !is_cancellable(after[i])
        }),
{
    let after = tasks.update(i, cancelled(tasks[i], now));
    assert forall|j: int| 0 <= j < i implies after[j].id@ != id by {
        assert(after[j] == tasks[j]);
    }
}

/// Connecting a session takes two steps: the first marks it connecting and
/// gives its own status URL; once the probe's outcome is recorded, only
/// that session has changed and it is connected exactly when the probe
/// succeeded, so that tasks can be prepared for it exactly then.
pub proof fn law_session_connects_in_two_steps(
    s0: Seq<ClineSession>,
    s1: Seq<ClineSession>,
    s2: Seq<ClineSession>,
    id: Seq<char>,
    url: Seq<char>,
    auth: Option<String>,
    outcome: HttpOutcome,
    now: String,
    r: Result<String, String>,
)
    requires
        session_connect_begun(s0, s1, id, url, auth),
        session_connect_finished(s1, s2, id, outcome, now, r),
    ensures
        exists|i: int| first_session(s0, id, i) && first_session(s2, id, i) && {
            &&& url == "http://"@ + s0[i].host@ + ":"@ + decimal(s0[i].port as nat) + "/api/status"@
            &&& s2.len() == s0.len()
            &&& forall|j: int| 0 <= j < s0.len() && j != i ==> s2[j] == s0[j]
            &&& (s2[i].status is Connected <==> (outcome matches HttpOutcome::Reply { success: true, .. }))
            &&& (r is Ok <==> s2[i].status is Connected)
        },
{
    let i = choose|i: int| first_session(s0, id, i) && {
        let s = s0[i];
        &&& url == "http://"@ + s.host@ + ":"@ + decimal(s.port as nat) + "/api/status"@
        &&& auth_header_matches(s.api_key, auth)
        &&& s1 == s0.update(i, ClineSession { status: SessionStatus::Connecting, ..s })
    };
    assert(first_session(s1, id, i)) by {
        assert forall|j: int| 0 <= j < i implies s1[j].id@ != id by {
            assert(s1[j] == s0[j]);
        }
    }
    let k = choose|k: int| first_session(s1, id, k) && {
        let s = s1[k];
        let t = s2[k];
        &&& s2.len() == s1.len()
        &&& forall|j: int| 0 <= j < s1.len() && j != k ==> s2[j] == s1[j]
        &&& t.id == s.id && t.name == s.name && t.host == s.host && t.port == s.port && t.api_key == s.api_key
        &&& t.capabilities == s.capabilities
        &&& match outcome {
            HttpOutcome::Reply { success: true, status: _ } => {
                &&& t.status is Connected
                &&& t.last_activity == Some(now)
                &&& r matches Ok(m) && m@ == "[CLINE SESSION ESTABLISHED]\n\nSession: "@ + s.name@ + "\nTarget: "@
                    + s.host@ + ":"@ + decimal(s.port as nat) + "\nStatus: CONNECTED\nCapabilities: "@
                    + join_with(strings_view(s.capabilities@), ", "@)
                    + "\n\nTARS can now execute remote engineering tasks.\nRemote development environment access confirmed."@
            },
            HttpOutcome::Reply { success: false, status } => {
                &&& t.status matches SessionStatus::Error(e) && e@ == "HTTP "@ + status@
                &&& t.last_activity == s.last_activity
                &&& r matches Err(m) && m@ == "Cline connection failed: HTTP "@ + status@
            },
            HttpOutcome::Failed(e) => {
                &&& t.status matches SessionStatus::Error(x) && x@ == "Connection failed: "@ + e@
                &&& t.last_activity == s.last_activity
                &&& r matches Err(m) && m@ == "Failed to connect to Cline: "@ + e@
            },
        }
    };
    if k < i {
        assert(s1[k] == s0[k]);
    }
    if i < k {
        assert(s1[i].id@ == id);
    }
    assert(k == i);
    assert forall|j: int| 0 <= j < s0.len() && j != i implies s2[j] == s0[j] by {
        assert(s1[j] == s0[j]);
    }
    assert(first_session(s2, id, i)) by {
        assert forall|j: int| 0 <= j < i implies s2[j].id@ != id by {
            assert(s2[j] == s0[j]);
        }
    }
}

proof fn lemma_first_task_same(v: Seq<ClineTask>, id: Seq<char>, i: int, k: int)
    requires
        first_task(v, id, i),
        first_task(v, id, k),
    ensures
        i == k,
{
    if k < i {
        assert(v[k].id@ != id);
    }
    if i < k {
        assert(v[i].id@ != id);
    }
}

proof fn lemma_put_task_places(v: Seq<ClineTask>, t: ClineTask) -> (i: int)
    ensures
        first_task(put_task(v, t), t.id@, i),
        put_task(v, t)[i] == t,
        has_task(v, t.id@) ==> put_task(v, t).len() == v.len() && forall|j: int|
            0 <= j < v.len() && j != i ==> put_task(v, t)[j] == v[j],
        !has_task(v, t.id@) ==> i == v.len() && put_task(v, t).len() == v.len() + 1 && forall|j: int|
            0 <= j < v.len() ==> put_task(v, t)[j] == v[j],
{
    let w = put_task(v, t);
    if has_task(v, t.id@) {
        let i = choose|i: int| first_task(v, t.id@, i);
        let j0 = choose|j: int| 0 <= j < v.len() && v[j].id@ == t.id@;
        assert(exists|i: int| first_task(v, t.id@, i)) by {
            lemma_has_task_first(v, t.id@, j0);
        }
        assert forall|j: int| 0 <= j < i implies w[j].id@ != t.id@ by {
            assert(w[j] == v[j]);
        }
        i
    } else {
        assert forall|j: int| 0 <= j < v.len() implies w[j].id@ != t.id@ by {
            assert(w[j] == v[j]);
        }
        v.len() as int
    }
}

proof fn lemma_has_task_first(v: Seq<ClineTask>, id: Seq<char>, j: int)
    requires
        0 <= j < v.len(),
        v[j].id@ == id,
    ensures
        exists|i: int| first_task(v, id, i),
    decreases j,
{
    if exists|k: int| 0 <= k < j && v[k].id@ == id {
        let k = choose|k: int| 0 <= k < j && v[k].id@ == id;
        lemma_has_task_first(v, id, k);
    } else {
        assert(first_task(v, id, j));
    }
}

/// Executing a task takes two steps. A session that is unknown or not
/// connected refuses it and the tasks stay as they were. For a connected
/// session, once the outcome is recorded, the task list holds exactly one
/// more task (or, should its fresh identifier already be taken, the task
/// in its place) and nothing else changed; that task belongs to the
/// session, carries the command and context, and is completed with the
/// reply's body when the remote answered, the execution succeeding, or
/// failed with a reason, the execution failing.
pub proof fn law_execute_task_in_two_steps(
    sessions: Seq<ClineSession>,
    t0: Seq<ClineTask>,
    t1: Seq<ClineTask>,
    t2: Seq<ClineTask>,
    session_id: Seq<char>,
    command: Seq<char>,
    context: Seq<char>,
    now: String,
    r1: Result<TaskRequest, String>,
    outcome: TaskOutcome,
    later: String,
    r2: Result<String, String>,
)
    requires
        r1 is Ok <==> exists|i: int| first_session(sessions, session_id, i) && sessions[i].status is Connected,
        r1 is Err ==> t1 == t0,
        r1 matches Ok(req) ==> task_prepared(sessions, t0, t1, session_id, command, context, now, req)
            && task_completed(t1, t2, req.task_id@, outcome, later, r2),
    ensures
        !(exists|i: int| first_session(sessions, session_id, i) && sessions[i].status is Connected) ==> t1 == t0,
        r1 matches Ok(req) ==> exists|i: int| first_task(t2, req.task_id@, i) && {
            let u = t2[i];
            &&& u.session_id@ == session_id && u.command@ == command && u.context@ == context
            &&& u.created_at == now
            &&& (outcome matches TaskOutcome::Body(b) ==> u.status == TaskStatus::Completed && u.result == Some(b) && r2 is Ok)
            &&& (!(outcome is Body) ==> u.status == TaskStatus::Failed && u.error is Some && r2 is Err)
            &&& !has_task(t0, req.task_id@) ==> t2.len() == t0.len() + 1 && forall|j: int| 0 <= j < t0.len() ==> t2[j] == t0[j]
            &&& has_task(t0, req.task_id@) ==> t2.len() == t0.len() && forall|j: int| 0 <= j < t0.len() && j != i ==> t2[j] == t0[j]
        },
{
    match r1 {
        Ok(req) => {
            let t = choose|t: ClineTask| #[trigger] put_task(t0, t) == t1 && {
                &&& is_tagged_id(req.task_id@, "task_"@, session_id)
                &&& t.id@ == req.task_id@
                &&& t.session_id@ == session_id
                &&& t.command@ == command && req.command@ == command
                &&& t.context@ == context && req.context@ == context
                &&& t.status == TaskStatus::Running
                &&& t.created_at == now
                &&& t.completed_at is None && t.result is None && t.error is None
                &&& exists|i: int| first_session(sessions, session_id, i) && {
                    let s = sessions[i];
                    &&& req.url@ == "http://"@ + s.host@ + ":"@ + decimal(s.port as nat) + "/api/execute"@
                    &&& auth_header_matches(s.api_key, req.authorization)
                }
            };
            let i = lemma_put_task_places(t0, t);
            let k = choose|k: int| first_task(t1, req.task_id@, k) && {
                let a = t1[k];
                let u = t2[k];
                &&& t2.len() == t1.len()
                &&& forall|j: int| 0 <= j < t1.len() && j != k ==> t2[j] == t1[j]
                &&& u.id == a.id && u.session_id == a.session_id && u.command == a.command && u.context == a.context
                &&& u.created_at == a.created_at
                &&& match outcome {
                    TaskOutcome::Body(body) => {
                        &&& u.status == TaskStatus::Completed
                        &&& u.completed_at == Some(later)
                        &&& u.result == Some(body)
                        &&& r2 matches Ok(m) && m@ == "[REMOTE TASK COMPLETED]\n\nTask ID: "@ + req.task_id@ + "\nCommand: "@
                            + a.command@ + "\nStatus: SUCCESS\n\nResult:\n"@ + body@
                            + "\n\nRemote engineering operation completed successfully."@
                    },
                    TaskOutcome::Unreadable(e) => {
                        &&& u.status == TaskStatus::Failed
                        &&& u.error matches Some(x) && x@ == "Failed to read response: "@ + e@
                        &&& r2 matches Err(m) && m@ == "Task failed: "@ + e@
                    },
                    TaskOutcome::Status(st) => {
                        &&& u.status == TaskStatus::Failed
                        &&& u.error matches Some(x) && x@ == "HTTP "@ + st@
                        &&& r2 matches Err(m) && m@ == "Remote task failed: HTTP "@ + st@
                    },
                    TaskOutcome::Failed(e) => {
                        &&& u.status == TaskStatus::Failed
                        &&& u.error matches Some(x) && x@ == "Request failed: "@ + e@
                        &&& r2 matches Err(m) && m@ == "Failed to execute remote task: "@ + e@
                    },
                }
            };
            lemma_first_task_same(t1, req.task_id@, i, k);
            assert(first_task(t2, req.task_id@, i)) by {
                assert forall|j: int| 0 <= j < i implies t2[j].id@ != req.task_id@ by {
                    assert(t2[j] == t1[j]);
                }
            }
        },
        Err(_) => {},
    }
}

} // verus!
