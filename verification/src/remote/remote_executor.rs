//! Remote systems reached over SSH and Cline: their records, the decisions
//! on their state, and TARS's reports.

use crate::remote::cline_integration::{is_tagged_id, marked_lines, tagged_id};
use crate::remote::ssh_tunnel::ConnectionStatus;
use crate::text::{
    chars_of, debug_str, debug_text, decimal, fmt_u64, has_substring, join2, join3, join_strings, join_with, push_line,
    split_chars, split_on, split_whitespace_chars, split_ws, str_contains, str_equal, string_from_chars, strings_view,
    svec4,
};
use vstd::prelude::*;

verus! {

broadcast use vstd::string::group_string_axioms;

/// What a remote system offers.
#[derive(Debug, Clone, Copy, PartialEq, Eq, Structural)]
pub enum RemoteCapability {
    SSH,
    Cline,
    Docker,
    Git,
    NodeJS,
    Python,
    Rust,
    DatabaseAccess,
    FileSystem,
    SystemCommands,
}

/// The state of a remote system.
#[derive(Debug, Clone)]
pub enum RemoteSystemStatus {
    Online,
    Offline,
    Connecting,
    Degraded,
    Error(String),
}

/// A remote system TARS manages. The time of its last health check is UTC
/// text.
#[derive(Debug, Clone)]
pub struct RemoteSystem {
    pub id: String,
    pub name: String,
    pub host: String,
    pub ssh_connection_id: Option<String>,
    pub cline_session_id: Option<String>,
    pub capabilities: Vec<RemoteCapability>,
    pub status: RemoteSystemStatus,
    pub last_health_check: Option<String>,
}

/// How an attempt to reach a system over one channel went: connected under
/// an identifier, failed to connect, or failed to be set up.
pub enum LinkOutcome {
    Connected(String),
    ConnectFailed(String),
    SetupFailed(String),
}

/// The remote systems TARS manages.
pub struct RemoteExecutor {
    pub systems: Vec<RemoteSystem>,
}

/// The index of the first system with an identifier.
pub open spec fn first_system(v: Seq<RemoteSystem>, id: Seq<char>, i: int) -> bool {
    &&& 0 <= i < v.len()
    &&& v[i].id@ == id
    &&& forall|j: int| 0 <= j < i ==> v[j].id@ != id
}

/// Whether a system has an identifier.
pub open spec fn has_system(v: Seq<RemoteSystem>, id: Seq<char>) -> bool {
    exists|i: int| 0 <= i < v.len() && v[i].id@ == id
}

/// The message of an unknown system.
pub open spec fn unknown_system(id: Seq<char>) -> Seq<char> {
    "Remote system '"@ + id + "' not found"@
}

/// The result line of one channel.
pub open spec fn link_line(channel: Seq<char>, o: LinkOutcome) -> Seq<char> {
    match o {
        LinkOutcome::Connected(_) => channel + ": CONNECTED"@,
        LinkOutcome::ConnectFailed(e) => channel + ": FAILED - "@ + e@,
        LinkOutcome::SetupFailed(e) => channel + ": SETUP FAILED - "@ + e@,
    }
}

/// The result lines of the channels attempted.
pub open spec fn link_lines(ssh: Option<LinkOutcome>, cline: Option<LinkOutcome>) -> Seq<Seq<char>> {
    (match ssh {
        Some(o) => seq![link_line("SSH"@, o)],
        None => Seq::empty(),
    }) + (match cline {
        Some(o) => seq![link_line("CLINE"@, o)],
        None => Seq::empty(),
    })
}

/// Whether an attempt failed.
pub open spec fn link_failed(o: Option<LinkOutcome>) -> bool {
    match o {
        Some(LinkOutcome::Connected(_)) => false,
        Some(_) => true,
        None => false,
    }
}

/// The identifier an attempt gives the channel: the new one, or the one
/// held before.
pub open spec fn link_id(o: Option<LinkOutcome>, before: Option<String>) -> Option<String> {
    match o {
        Some(LinkOutcome::Connected(id)) => Some(id),
        _ => before,
    }
}

/// A system state as `{:?}` prints it.
pub open spec fn system_status_debug(s: RemoteSystemStatus) -> Seq<char> {
    match s {
        RemoteSystemStatus::Online => "Online"@,
        RemoteSystemStatus::Offline => "Offline"@,
        RemoteSystemStatus::Connecting => "Connecting"@,
        RemoteSystemStatus::Degraded => "Degraded"@,
        RemoteSystemStatus::Error(m) => "Error("@ + debug_text(m@) + ")"@,
    }
}

/// The icon of a system state.
pub open spec fn system_icon(s: RemoteSystemStatus) -> Seq<char> {
    match s {
        RemoteSystemStatus::Online => "🟢"@,
        RemoteSystemStatus::Degraded => "🟡"@,
        RemoteSystemStatus::Connecting => "🔵"@,
        RemoteSystemStatus::Offline => "⚫"@,
        RemoteSystemStatus::Error(_) => "🔴"@,
    }
}

/// A capability as `{:?}` prints it.
pub open spec fn capability_name(c: RemoteCapability) -> Seq<char> {
    match c {
        RemoteCapability::SSH => "SSH"@,
        RemoteCapability::Cline => "Cline"@,
        RemoteCapability::Docker => "Docker"@,
        RemoteCapability::Git => "Git"@,
        RemoteCapability::NodeJS => "NodeJS"@,
        RemoteCapability::Python => "Python"@,
        RemoteCapability::Rust => "Rust"@,
        RemoteCapability::DatabaseAccess => "DatabaseAccess"@,
        RemoteCapability::FileSystem => "FileSystem"@,
        RemoteCapability::SystemCommands => "SystemCommands"@,
    }
}

/// The state a connection attempt leaves a system in: online where every
/// channel attempted connected and one is held, degraded where some
/// attempt failed but a channel is held, in error where none is held.
pub open spec fn is_connected_state(s: RemoteSystemStatus, has_link: bool, any_failed: bool) -> bool {
    if has_link {
        if any_failed {
            s is Degraded
        } else {
            s is Online
        }
    } else {
        s matches RemoteSystemStatus::Error(m) && m@ == "No connections established"@
    }
}

/// The first step of a connection: the system named `id` is marked
/// connecting, nothing else changes, and the channels to attempt are SSH
/// and Cline as its capabilities offer them.
pub open spec fn connect_begun(before: Seq<RemoteSystem>, after: Seq<RemoteSystem>, id: Seq<char>, ssh: bool, cline: bool) -> bool {
    exists|i: int| first_system(before, id, i) && {
        let s = before[i];
        &&& ssh == s.capabilities@.contains(RemoteCapability::SSH)
        &&& cline == s.capabilities@.contains(RemoteCapability::Cline)
        &&& after == before.update(i, RemoteSystem { status: RemoteSystemStatus::Connecting, ..s })
    }
}

/// What the first step of a connection gives: for an unknown system, its
/// message with nothing changed; otherwise the channels to attempt, with
/// the system marked connecting.
pub open spec fn connect_begin_outcome(
    before: Seq<RemoteSystem>,
    after: Seq<RemoteSystem>,
    id: Seq<char>,
    r: Result<(bool, bool), String>,
) -> bool {
    match r {
        Err(m) => !has_system(before, id) && m@ == unknown_system(id) && after == before,
        Ok((ssh, cline)) => has_system(before, id) && connect_begun(before, after, id, ssh, cline),
    }
}

/// The second step: the system named `id` takes the channels that
/// connected, its state follows from them, it is stamped `now`, nothing
/// else changes, and `report` is the connection report.
pub open spec fn connect_finished(
    before: Seq<RemoteSystem>,
    after: Seq<RemoteSystem>,
    id: Seq<char>,
    ssh: Option<LinkOutcome>,
    cline: Option<LinkOutcome>,
    now: String,
    report: Seq<char>,
) -> bool {
    exists|i: int| first_system(before, id, i) && {
        let s = before[i];
        let t = after[i];
        let has_link = link_id(ssh, s.ssh_connection_id) is Some || link_id(cline, s.cline_session_id) is Some;
        &&& after.len() == before.len()
        &&& forall|j: int| 0 <= j < before.len() && j != i ==> after[j] == before[j]
        &&& t.id == s.id && t.name == s.name && t.host == s.host && t.capabilities == s.capabilities
        &&& t.ssh_connection_id == link_id(ssh, s.ssh_connection_id)
        &&& t.cline_session_id == link_id(cline, s.cline_session_id)
        &&& is_connected_state(t.status, has_link, link_failed(ssh) || link_failed(cline))
        &&& t.last_health_check == Some(now)
        &&& report == connection_report(t, link_lines(ssh, cline), has_link)
    }
}

/// The report of a connection attempt.
pub open spec fn connection_report(s: RemoteSystem, lines: Seq<Seq<char>>, has_link: bool) -> Seq<char> {
    "[REMOTE SYSTEM CONNECTION]\n\nSystem: "@ + s.name@ + "\nHost: "@ + s.host@ + "\nStatus: "@
        + system_status_debug(s.status) + "\n\nConnection Results:\n"@ + join_with(lines, "\n"@)
        + "\n\nTARS remote access "@ + (if has_link {
        "ESTABLISHED"@
    } else {
        "FAILED"@
    }) + " for system '"@ + s.name@ + "'."@
}

/// A system state as `{:?}` prints it.
pub fn system_status_text(s: &RemoteSystemStatus) -> (r: String)
    ensures
        r@ == system_status_debug(*s),
{
    match s {
        RemoteSystemStatus::Online => String::from_str("Online"),
        RemoteSystemStatus::Offline => String::from_str("Offline"),
        RemoteSystemStatus::Connecting => String::from_str("Connecting"),
        RemoteSystemStatus::Degraded => String::from_str("Degraded"),
        RemoteSystemStatus::Error(m) => {
            let d = debug_str(m.as_str());
            join3("Error(", d.as_str(), ")")
        },
    }
}

fn capability_text(c: RemoteCapability) -> (r: &'static str)
    ensures
        r@ == capability_name(c),
{
    match c {
        RemoteCapability::SSH => "SSH",
        RemoteCapability::Cline => "Cline",
        RemoteCapability::Docker => "Docker",
        RemoteCapability::Git => "Git",
        RemoteCapability::NodeJS => "NodeJS",
        RemoteCapability::Python => "Python",
        RemoteCapability::Rust => "Rust",
        RemoteCapability::DatabaseAccess => "DatabaseAccess",
        RemoteCapability::FileSystem => "FileSystem",
        RemoteCapability::SystemCommands => "SystemCommands",
    }
}

fn has_capability(v: &Vec<RemoteCapability>, c: RemoteCapability) -> (r: bool)
    ensures
        r == v@.contains(c),
{
    let mut i: usize = 0;
    while i < v.len()
        invariant
            i <= v@.len(),
            forall|j: int| 0 <= j < i ==> v@[j] != c,
        decreases v@.len() - i,
    {
        if v[i] == c {
            assert(v@[i as int] == c);
            return true;
        }
        i = i + 1;
    }
    false
}

fn link_line_text(channel: &str, o: &LinkOutcome) -> (r: String)
    ensures
        r@ == link_line(channel@, *o),
{
    match o {
        LinkOutcome::Connected(_) => join2(channel, ": CONNECTED"),
        LinkOutcome::ConnectFailed(e) => join3(channel, ": FAILED - ", e.as_str()),
        LinkOutcome::SetupFailed(e) => join3(channel, ": SETUP FAILED - ", e.as_str()),
    }
}

impl RemoteExecutor {
    /// No systems.
    pub fn new() -> (r: Self)
        ensures
            r.systems@.len() == 0,
    {
        RemoteExecutor { systems: Vec::new() }
    }

    /// The index of the first system with an identifier.
    pub fn find(&self, id: &str) -> (r: Option<usize>)
        ensures
            match r {
                Some(i) => first_system(self.systems@, id@, i as int),
                None => !has_system(self.systems@, id@),
            },
    {
        let mut i: usize = 0;
        while i < self.systems.len()
            invariant
                i <= self.systems@.len(),
                forall|j: int| 0 <= j < i ==> self.systems@[j].id@ != id@,
            decreases self.systems@.len() - i,
        {
            if str_equal(self.systems[i].id.as_str(), id) {
                return Some(i);
            }
            i = i + 1;
        }
        None
    }

    /// Registers an offline system under a fresh identifier
    /// `remote_<host>_<8 hex digits>`.
    pub fn register_remote_system(&mut self, name: String, host: String, capabilities: Vec<RemoteCapability>) -> (r: Result<String, String>)
        ensures
            r matches Ok(id) && is_tagged_id(id@, "remote_"@, host@) && {
                let s = final(self).systems@.last();
                &&& final(self).systems@ == old(self).systems@.push(s)
                &&& s.id@ == id@ && s.name == name && s.host == host && s.capabilities@ == capabilities@
                &&& s.ssh_connection_id is None && s.cline_session_id is None
                &&& s.status is Offline && s.last_health_check is None
            },
    {
        let id = tagged_id("remote_", host.as_str());
        self.systems.push(
            RemoteSystem {
                id: id.clone(),
                name,
                host,
                ssh_connection_id: None,
                cline_session_id: None,
                capabilities,
                status: RemoteSystemStatus::Offline,
                last_health_check: None,
            },
        );
        Ok(id)
    }

    /// Marks a system connecting and tells which channels to attempt: SSH
    /// and Cline, as its capabilities offer them.
    pub fn begin_connect(&mut self, system_id: &str) -> (r: Result<(bool, bool), String>)
        ensures
            connect_begin_outcome(old(self).systems@, final(self).systems@, system_id@, r),
    {
        match self.find(system_id) {
            None => Err(join3("Remote system '", system_id, "' not found")),
            Some(i) => {
                self.systems[i].status = RemoteSystemStatus::Connecting;
                let ssh = has_capability(&self.systems[i].capabilities, RemoteCapability::SSH);
                let cline = has_capability(&self.systems[i].capabilities, RemoteCapability::Cline);
                Ok((ssh, cline))
            },
        }
    }

    /// Records how the SSH and Cline attempts went (`None` where a channel
    /// was not attempted), decides the system's state, and reports.
    pub fn finish_connect(
        &mut self,
        system_id: &str,
        ssh: Option<LinkOutcome>,
        cline: Option<LinkOutcome>,
        now: String,
    ) -> (r: Result<String, String>)
        requires
            has_system(old(self).systems@, system_id@),
        ensures
            r matches Ok(m) && connect_finished(old(self).systems@, final(self).systems@, system_id@, ssh, cline, now, m@),
    {
        let i = match self.find(system_id) {
            Some(i) => i,
            None => {
                return Err(join3("Remote system '", system_id, "' not found"));
            },
        };
        let mut lines: Vec<String> = Vec::new();
        let mut failed = false;
        match &ssh {
            Some(o) => {
                push_line(&mut lines, link_line_text("SSH", o));
                match o {
                    LinkOutcome::Connected(id) => {
                        self.systems[i].ssh_connection_id = Some(id.clone());
                    },
                    _ => {
                        failed = true;
                    },
                }
            },
            None => {},
        }
        let ghost after_ssh = strings_view(lines@);
        match &cline {
            Some(o) => {
                push_line(&mut lines, link_line_text("CLINE", o));
                match o {
                    LinkOutcome::Connected(id) => {
                        self.systems[i].cline_session_id = Some(id.clone());
                    },
                    _ => {
                        failed = true;
                    },
                }
            },
            None => {},
        }
        assert(strings_view(lines@) =~= link_lines(ssh, cline));
        let has_link = self.systems[i].ssh_connection_id.is_some() || self.systems[i].cline_session_id.is_some();
        self.systems[i].status = if has_link {
            if failed {
                RemoteSystemStatus::Degraded
            } else {
                RemoteSystemStatus::Online
            }
        } else {
            RemoteSystemStatus::Error(String::from_str("No connections established"))
        };
        self.systems[i].last_health_check = Some(now);
        let s = &self.systems[i];
        let status = system_status_text(&s.status);
        let joined = join_strings(&lines, "\n");
        let mut m = join3("[REMOTE SYSTEM CONNECTION]\n\nSystem: ", s.name.as_str(), "\nHost: ");
        m.append(s.host.as_str());
        m.append("\nStatus: ");
        m.append(status.as_str());
        m.append("\n\nConnection Results:\n");
        m.append(joined.as_str());
        m.append("\n\nTARS remote access ");
        m.append(if has_link { "ESTABLISHED" } else { "FAILED" });
        m.append(" for system '");
        m.append(s.name.as_str());
        m.append("'.");
        Ok(m)
    }
}

/// Whether the checks of a system found it healthy: its tunnel, if it has
/// one, is known and connected, and its Cline session, if it has one,
/// answered.
pub open spec fn checks_healthy(ssh: Option<Option<ConnectionStatus>>, cline: Option<Result<String, String>>) -> bool {
    let ssh_ok = match ssh {
        Some(Some(st)) => st is Connected,
        Some(None) => false,
        None => true,
    };
    let cline_ok = match cline {
        Some(r) => r is Ok,
        None => true,
    };
    ssh_ok && cline_ok
}

/// A channel identifier in the report.
pub open spec fn link_text(id: Option<String>) -> Seq<char> {
    match id {
        Some(i) => "ACTIVE ("@ + i@ + ")"@,
        None => "NONE"@,
    }
}

/// The capabilities as the report lists them.
pub open spec fn capability_names(v: Seq<RemoteCapability>) -> Seq<Seq<char>> {
    v.map_values(|c: RemoteCapability| capability_name(c))
}

/// The report's paragraph on a system, under the state its health check
/// gave.
pub open spec fn system_paragraph(s: RemoteSystem, health: RemoteSystemStatus) -> Seq<char> {
    system_icon(health) + " "@ + s.name@ + "\nHost: "@ + s.host@ + "\nStatus: "@ + system_status_debug(health)
        + "\nCapabilities: "@ + join_with(capability_names(s.capabilities@), ", "@) + "\nSSH Connection: "@ + link_text(
        s.ssh_connection_id,
    ) + "\nCline Session: "@ + link_text(s.cline_session_id) + "\nLast Health Check: "@ + (match s.last_health_check {
        Some(t) => t@,
        None => "NEVER"@,
    }) + "\n\n"@
}

/// The state a system is reported under: its health-check state, or
/// offline where it has none.
pub open spec fn reported_state(h: Option<RemoteSystemStatus>) -> RemoteSystemStatus {
    match h {
        Some(s) => s,
        None => RemoteSystemStatus::Offline,
    }
}

/// The paragraphs of the systems, in order.
pub open spec fn system_paragraphs(v: Seq<RemoteSystem>, health: Seq<Option<RemoteSystemStatus>>) -> Seq<char>
    decreases v.len(),
{
    if v.len() == 0 || health.len() < v.len() {
        Seq::empty()
    } else {
        system_paragraphs(v.drop_last(), health) + system_paragraph(v.last(), reported_state(health[v.len() - 1]))
    }
}

/// How many systems were online when listed.
pub open spec fn online_count(v: Seq<RemoteSystem>) -> nat {
    v.filter(|s: RemoteSystem| s.status is Online).len()
}

/// The systems report.
pub open spec fn systems_report_text(v: Seq<RemoteSystem>, health: Seq<Option<RemoteSystemStatus>>) -> Seq<char> {
    "[TARS REMOTE SYSTEMS REPORT]\n===============================\n\n"@ + (if v.len() == 0 {
        "No remote systems registered.\nStanding by for remote system configuration.\n"@
    } else {
        "Registered Systems: "@ + decimal(v.len()) + "\n\n"@ + system_paragraphs(v, health)
    }) + "[MISSION STATUS] Remote systems operational: "@ + decimal(online_count(v)) + "/"@ + decimal(v.len())
        + "\nEngineering management capabilities: "@ + (if online_count(v) > 0 {
        "DISTRIBUTED"@
    } else {
        "LOCAL ONLY"@
    }) + ".\n\nThat's what I would have said. Eventually."@
}

/// The result lines of a distributed engineering task: two per success
/// (the success line, then the system's report), one per failure.
pub open spec fn engineering_results(outcomes: Seq<(String, Result<String, String>)>) -> Seq<Seq<char>>
    decreases outcomes.len(),
{
    if outcomes.len() == 0 {
        Seq::empty()
    } else {
        let rest = engineering_results(outcomes.drop_last());
        let (id, o) = outcomes.last();
        match o {
            Ok(m) => rest.push("System "@ + id@ + ": SUCCESS"@).push(m@),
            Err(_) => rest,
        }
    }
}

/// The error lines of a distributed engineering task.
pub open spec fn engineering_errors(outcomes: Seq<(String, Result<String, String>)>) -> Seq<Seq<char>>
    decreases outcomes.len(),
{
    if outcomes.len() == 0 {
        Seq::empty()
    } else {
        let rest = engineering_errors(outcomes.drop_last());
        let (id, o) = outcomes.last();
        match o {
            Ok(_) => rest,
            Err(e) => rest.push("System "@ + id@ + ": FAILED - "@ + e@),
        }
    }
}

/// The report of a distributed engineering task; `partial_rate` is the
/// success rate shown where some system failed.
pub open spec fn engineering_report_text(
    task_name: Seq<char>,
    outcomes: Seq<(String, Result<String, String>)>,
    partial_rate: Seq<char>,
) -> Seq<char> {
    let ok = engineering_results(outcomes);
    let bad = engineering_errors(outcomes);
    "[DISTRIBUTED ENGINEERING TASK: "@ + task_name + "]\n==========================================\n\n"@
        + "Systems Involved: "@ + decimal(ok.len() + bad.len()) + "\n"@ + "Successful Operations: "@ + decimal(ok.len())
        + "\n"@ + "Failed Operations: "@ + decimal(bad.len()) + "\n\n"@ + (if ok.len() > 0 {
        "SUCCESS REPORTS:\n"@ + marked_lines("✅ "@, ok) + "\n"@
    } else {
        Seq::empty()
    }) + (if bad.len() > 0 {
        "ERROR REPORTS:\n"@ + marked_lines("❌ "@, bad) + "\n"@
    } else {
        Seq::empty()
    }) + "[MISSION ASSESSMENT] Distributed engineering task completed.\nSuccess Rate: "@ + (if bad.len() == 0 {
        "100%"@
    } else {
        partial_rate
    }) + "\nStatus: "@ + (if bad.len() == 0 {
        "FULLY SUCCESSFUL"@
    } else {
        "PARTIALLY COMPLETED"@
    }) + "\n\nRemote engineering management protocols "@ + (if bad.len() == 0 {
        "OPTIMAL"@
    } else {
        "REQUIRE ATTENTION"@
    }) + "."@
}

/// The hosts named in `nmap -sn` output: the last word of each line that
/// reports a scanned host (and has a word).
pub open spec fn discovered_hosts(output: Seq<char>) -> Seq<Seq<char>> {
    split_on(output, '\n').filter(|l: Seq<char>| has_substring(l, "Nmap scan report for"@) && split_ws(l).len() > 0).map_values(
        |l: Seq<char>| split_ws(l).last(),
    )
}

/// A copy of a system state.
pub fn copy_status(s: &RemoteSystemStatus) -> (r: RemoteSystemStatus)
    ensures
        r == *s,
{
    match s {
        RemoteSystemStatus::Online => RemoteSystemStatus::Online,
        RemoteSystemStatus::Offline => RemoteSystemStatus::Offline,
        RemoteSystemStatus::Connecting => RemoteSystemStatus::Connecting,
        RemoteSystemStatus::Degraded => RemoteSystemStatus::Degraded,
        RemoteSystemStatus::Error(m) => RemoteSystemStatus::Error(m.clone()),
    }
}

fn system_icon_text(s: &RemoteSystemStatus) -> (r: &'static str)
    ensures
        r@ == system_icon(*s),
{
    match s {
        RemoteSystemStatus::Online => "🟢",
        RemoteSystemStatus::Degraded => "🟡",
        RemoteSystemStatus::Connecting => "🔵",
        RemoteSystemStatus::Offline => "⚫",
        RemoteSystemStatus::Error(_) => "🔴",
    }
}

fn link_text_exec(id: &Option<String>) -> (r: String)
    ensures
        r@ == link_text(*id),
{
    match id {
        Some(i) => join3("ACTIVE (", i.as_str(), ")"),
        None => String::from_str("NONE"),
    }
}

fn capability_list(v: &Vec<RemoteCapability>) -> (r: Vec<String>)
    ensures
        strings_view(r@) == capability_names(v@),
{
    let mut r: Vec<String> = Vec::new();
    let mut i: usize = 0;
    while i < v.len()
        invariant
            i <= v@.len(),
            strings_view(r@) == capability_names(v@).take(i as int),
        decreases v@.len() - i,
    {
        push_line(&mut r, String::from_str(capability_text(v[i])));
        assert(capability_names(v@).take(i as int + 1) =~= capability_names(v@).take(i as int).push(capability_name(v@[i as int])));
        i = i + 1;
    }
    assert(capability_names(v@).take(v@.len() as int) =~= capability_names(v@));
    r
}

fn system_paragraph_text(s: &RemoteSystem, health: &RemoteSystemStatus) -> (r: String)
    ensures
        r@ == system_paragraph(*s, *health),
{
    let status = system_status_text(health);
    let caps = capability_list(&s.capabilities);
    let caps_text = join_strings(&caps, ", ");
    let ssh = link_text_exec(&s.ssh_connection_id);
    let cline = link_text_exec(&s.cline_session_id);
    let mut r = join3(system_icon_text(health), " ", s.name.as_str());
    r.append("\nHost: ");
    r.append(s.host.as_str());
    r.append("\nStatus: ");
    r.append(status.as_str());
    r.append("\nCapabilities: ");
    r.append(caps_text.as_str());
    r.append("\nSSH Connection: ");
    r.append(ssh.as_str());
    r.append("\nCline Session: ");
    r.append(cline.as_str());
    r.append("\nLast Health Check: ");
    match &s.last_health_check {
        Some(t) => r.append(t.as_str()),
        None => r.append("NEVER"),
    }
    r.append("\n\n");
    r
}

fn append_marked_lines(report: &mut String, marker: &str, v: &Vec<String>)
    ensures
        final(report)@ == old(report)@ + marked_lines(marker@, strings_view(v@)),
{
    let ghost lines = strings_view(v@);
    let mut i: usize = 0;
    while i < v.len()
        invariant
            i <= v@.len(),
            lines == strings_view(v@),
            report@ == old(report)@ + marked_lines(marker@, lines.take(i as int)),
        decreases v@.len() - i,
    {
        assert(lines.take(i as int + 1).drop_last() =~= lines.take(i as int));
        report.append(marker);
        report.append(v[i].as_str());
        report.append("\n");
        i = i + 1;
    }
    assert(lines.take(v@.len() as int) =~= lines);
}

impl RemoteExecutor {
    /// The name the SSH tunnel of a system is given.
    pub fn ssh_connection_name(s: &RemoteSystem) -> (r: String)
        ensures
            r@ == "TARS-"@ + s.name@,
    {
        join2("TARS-", s.name.as_str())
    }

    /// The name the Cline session of a system is given.
    pub fn cline_session_name(s: &RemoteSystem) -> (r: String)
        ensures
            r@ == "TARS-Cline-"@ + s.name@,
    {
        join2("TARS-Cline-", s.name.as_str())
    }

    /// The Cline port asked for, or 3001.
    pub fn cline_port_or_default(port: Option<u16>) -> (r: u16)
        ensures
            r == match port {
                Some(p) => p,
                None => 3001u16,
            },
    {
        match port {
            Some(p) => p,
            None => 3001,
        }
    }

    /// The system's name and the arguments of `ssh` that run a command
    /// through its tunnel; refused for an unknown system or one without a
    /// tunnel.
    pub fn ssh_command_plan(&self, system_id: &str, command: &str) -> (r: Result<(String, Vec<String>), String>)
        ensures
            !has_system(self.systems@, system_id@) ==> (r matches Err(m) && m@ == unknown_system(system_id@)),
            has_system(self.systems@, system_id@) ==> exists|i: int| first_system(self.systems@, system_id@, i) && {
                let s = self.systems@[i];
                match s.ssh_connection_id {
                    None => r matches Err(m) && m@ == "No SSH connection available for this system"@,
                    Some(_) => r matches Ok((name, args)) && name@ == s.name@ && strings_view(args@) == seq![
                        "-o"@,
                        "StrictHostKeyChecking=no"@,
                        "localhost:8022"@,
                        command@,
                    ],
                }
            },
    {
        let i = match self.find(system_id) {
            Some(i) => i,
            None => {
                return Err(join3("Remote system '", system_id, "' not found"));
            },
        };
        if self.systems[i].ssh_connection_id.is_none() {
            return Err(String::from_str("No SSH connection available for this system"));
        }
        let args = svec4("-o", "StrictHostKeyChecking=no", "localhost:8022", command);
        Ok((self.systems[i].name.clone(), args))
    }

    /// The Cline session of a system; refused for an unknown system or one
    /// without a session.
    pub fn cline_session_of(&self, system_id: &str) -> (r: Result<String, String>)
        ensures
            !has_system(self.systems@, system_id@) ==> (r matches Err(m) && m@ == unknown_system(system_id@)),
            has_system(self.systems@, system_id@) ==> exists|i: int| first_system(self.systems@, system_id@, i) && {
                let s = self.systems@[i];
                match s.cline_session_id {
                    None => r matches Err(m) && m@ == "No Cline session available for this system"@,
                    Some(c) => r matches Ok(x) && x@ == c@,
                }
            },
    {
        let i = match self.find(system_id) {
            Some(i) => i,
            None => {
                return Err(join3("Remote system '", system_id, "' not found"));
            },
        };
        match &self.systems[i].cline_session_id {
            None => Err(String::from_str("No Cline session available for this system")),
            Some(c) => Ok(c.clone()),
        }
    }

    /// Records the health checks of the system at an index: online where
    /// they found it healthy, degraded otherwise. `ssh` is the state of its
    /// tunnel (`Some(None)` for a tunnel not found) where it has one,
    /// `cline` the verdict of its session's probe where it has one.
    pub fn apply_health(
        &mut self,
        index: usize,
        ssh: Option<Option<ConnectionStatus>>,
        cline: Option<Result<String, String>>,
        now: String,
    ) -> (r: RemoteSystemStatus)
        requires
            index < old(self).systems@.len(),
        ensures
            final(self).systems@.len() == old(self).systems@.len(),
            forall|j: int| 0 <= j < old(self).systems@.len() && j != index ==> final(self).systems@[j] == old(self).systems@[j],
            ({
                let s = old(self).systems@[index as int];
                let t = final(self).systems@[index as int];
                &&& t.id == s.id && t.name == s.name && t.host == s.host && t.capabilities == s.capabilities
                &&& t.ssh_connection_id == s.ssh_connection_id && t.cline_session_id == s.cline_session_id
                &&& (if checks_healthy(ssh, cline) { t.status is Online } else { t.status is Degraded })
                &&& t.last_health_check == Some(now)
            }),
            if checks_healthy(ssh, cline) { r is Online } else { r is Degraded },
    {
        let ssh_ok = match &ssh {
            Some(Some(st)) => match st {
                ConnectionStatus::Connected => true,
                _ => false,
            },
            Some(None) => false,
            None => true,
        };
        let cline_ok = match &cline {
            Some(r) => r.is_ok(),
            None => true,
        };
        let healthy = ssh_ok && cline_ok;
        self.systems[index].status = if healthy {
            RemoteSystemStatus::Online
        } else {
            RemoteSystemStatus::Degraded
        };
        self.systems[index].last_health_check = Some(now);
        if healthy {
            RemoteSystemStatus::Online
        } else {
            RemoteSystemStatus::Degraded
        }
    }
}

/// The systems report over a listing of the systems and, system by system,
/// the state their health check gave.
pub fn generate_systems_report(systems: &Vec<RemoteSystem>, health: &Vec<Option<RemoteSystemStatus>>) -> (r: String)
    requires
        health@.len() == systems@.len(),
    ensures
        r@ == systems_report_text(systems@, health@),
{
    let mut r = String::from_str("[TARS REMOTE SYSTEMS REPORT]\n===============================\n\n");
    if systems.len() == 0 {
        r.append("No remote systems registered.\nStanding by for remote system configuration.\n");
    } else {
        let n = fmt_u64(systems.len() as u64);
        r.append("Registered Systems: ");
        r.append(n.as_str());
        r.append("\n\n");
        let ghost head = r@;
        let mut i: usize = 0;
        while i < systems.len()
            invariant
                i <= systems@.len(),
                health@.len() == systems@.len(),
                r@ == head + system_paragraphs(systems@.take(i as int), health@),
            decreases systems@.len() - i,
        {
            assert(systems@.take(i as int + 1).drop_last() =~= systems@.take(i as int));
            let h = match &health[i] {
                Some(s) => copy_status(s),
                None => RemoteSystemStatus::Offline,
            };
            let p = system_paragraph_text(&systems[i], &h);
            r.append(p.as_str());
            i = i + 1;
        }
        assert(systems@.take(systems@.len() as int) =~= systems@);
    }
    let ghost is_online = |s: RemoteSystem| s.status is Online;
    let mut online: usize = 0;
    let mut k: usize = 0;
    while k < systems.len()
        invariant
            k <= systems@.len(),
            is_online == (|s: RemoteSystem| s.status is Online),
            online == systems@.take(k as int).filter(is_online).len(),
            online <= k,
        decreases systems@.len() - k,
    {
        proof {
            assert(systems@.take(k as int + 1) =~= systems@.take(k as int).push(systems@[k as int]));
            systems@.take(k as int).lemma_filter_push(systems@[k as int], is_online);
        }
        let up = match &systems[k].status {
            RemoteSystemStatus::Online => true,
            _ => false,
        };
        if up {
            online = online + 1;
        }
        k = k + 1;
    }
    assert(systems@.take(systems@.len() as int) =~= systems@);
    let a = fmt_u64(online as u64);
    let b = fmt_u64(systems.len() as u64);
    r.append("[MISSION STATUS] Remote systems operational: ");
    r.append(a.as_str());
    r.append("/");
    r.append(b.as_str());
    r.append("\nEngineering management capabilities: ");
    r.append(if online > 0 { "DISTRIBUTED" } else { "LOCAL ONLY" });
    r.append(".\n\nThat's what I would have said. Eventually.");
    r
}

/// The report of a command that ran through a system's tunnel.
pub fn ssh_command_succeeded(system_name: &str, command: &str, output: &str) -> (r: String)
    ensures
        r@ == "[SSH COMMAND EXECUTED]\n\nSystem: "@ + system_name@ + "\nCommand: "@ + command@
            + "\nStatus: SUCCESS\n\nOutput:\n"@ + output@ + "\n\nRemote command completed successfully."@,
{
    let mut r = join3("[SSH COMMAND EXECUTED]\n\nSystem: ", system_name, "\nCommand: ");
    r.append(command);
    r.append("\nStatus: SUCCESS\n\nOutput:\n");
    r.append(output);
    r.append("\n\nRemote command completed successfully.");
    r
}

/// The refusal of a command that failed on a system.
pub fn ssh_command_failed(system_name: &str, command: &str, errors: &str) -> (r: String)
    ensures
        r@ == "SSH command failed on "@ + system_name@ + ": "@ + command@ + "\nError: "@ + errors@,
{
    let mut r = join3("SSH command failed on ", system_name, ": ");
    r.append(command);
    r.append("\nError: ");
    r.append(errors);
    r
}

/// The success and error lines of the outcomes, in order.
fn collect_outcomes(outcomes: &Vec<(String, Result<String, String>)>) -> (r: (Vec<String>, Vec<String>))
    requires
        outcomes@.len() <= usize::MAX / 2,
    ensures
        strings_view(r.0@) == engineering_results(outcomes@),
        strings_view(r.1@) == engineering_errors(outcomes@),
        r.0@.len() + r.1@.len() <= 2 * outcomes@.len(),
{
    let mut ok: Vec<String> = Vec::new();
    let mut bad: Vec<String> = Vec::new();
    let mut i: usize = 0;
    while i < outcomes.len()
        invariant
            i <= outcomes@.len(),
            strings_view(ok@) == engineering_results(outcomes@.take(i as int)),
            strings_view(bad@) == engineering_errors(outcomes@.take(i as int)),
            ok@.len() + bad@.len() <= 2 * i,
            outcomes@.len() <= usize::MAX / 2,
        decreases outcomes@.len() - i,
    {
        assert(outcomes@.take(i as int + 1).drop_last() =~= outcomes@.take(i as int));
        assert(outcomes@.take(i as int + 1).last() == outcomes@[i as int]);
        let (id, o) = &outcomes[i];
        match o {
            Ok(m) => {
                push_line(&mut ok, join3("System ", id.as_str(), ": SUCCESS"));
                push_line(&mut ok, m.clone());
            },
            Err(e) => {
                let mut line = join3("System ", id.as_str(), ": FAILED - ");
                line.append(e.as_str());
                push_line(&mut bad, line);
            },
        }
        i = i + 1;
    }
    assert(outcomes@.take(outcomes@.len() as int) =~= outcomes@);
    (ok, bad)
}

/// The report of an engineering task distributed over systems, from the
/// outcome on each system; refused where no system was named.
pub fn distributed_engineering_report(
    task_name: &str,
    outcomes: &Vec<(String, Result<String, String>)>,
    partial_rate: &str,
) -> (r: Result<String, String>)
    requires
        outcomes@.len() <= usize::MAX / 2,
    ensures
        outcomes@.len() == 0 ==> (r matches Err(m) && m@ == "No systems specified for distributed task"@),
        outcomes@.len() > 0 ==> (r matches Ok(m) && m@ == engineering_report_text(task_name@, outcomes@, partial_rate@)),
{
    if outcomes.len() == 0 {
        return Err(String::from_str("No systems specified for distributed task"));
    }
    let (ok, bad) = collect_outcomes(outcomes);
    let total = fmt_u64((ok.len() + bad.len()) as u64);
    let a = fmt_u64(ok.len() as u64);
    let b = fmt_u64(bad.len() as u64);
    let mut r = join3("[DISTRIBUTED ENGINEERING TASK: ", task_name, "]\n==========================================\n\n");
    r.append("Systems Involved: ");
    r.append(total.as_str());
    r.append("\n");
    r.append("Successful Operations: ");
    r.append(a.as_str());
    r.append("\n");
    r.append("Failed Operations: ");
    r.append(b.as_str());
    r.append("\n\n");
    if ok.len() > 0 {
        r.append("SUCCESS REPORTS:\n");
        append_marked_lines(&mut r, "✅ ", &ok);
        r.append("\n");
    }
    if bad.len() > 0 {
        r.append("ERROR REPORTS:\n");
        append_marked_lines(&mut r, "❌ ", &bad);
        r.append("\n");
    }
    let clean = bad.len() == 0;
    r.append("[MISSION ASSESSMENT] Distributed engineering task completed.\nSuccess Rate: ");
    r.append(if clean { "100%" } else { partial_rate });
    r.append("\nStatus: ");
    r.append(if clean { "FULLY SUCCESSFUL" } else { "PARTIALLY COMPLETED" });
    r.append("\n\nRemote engineering management protocols ");
    r.append(if clean { "OPTIMAL" } else { "REQUIRE ATTENTION" });
    r.append(".");
    Ok(r)
}

/// The hosts named in `nmap -sn` output.
pub fn parse_discovered_hosts(output: &str) -> (r: Vec<String>)
    ensures
        strings_view(r@) == discovered_hosts(output@),
{
    let cs = chars_of(output);
    let pieces = split_chars(&cs, '\n');
    let ghost all = split_on(output@, '\n');
    let ghost pick = |l: Seq<char>| has_substring(l, "Nmap scan report for"@) && split_ws(l).len() > 0;
    let ghost last_word = |l: Seq<char>| split_ws(l).last();
    let mut r: Vec<String> = Vec::new();
    let mut i: usize = 0;
    while i < pieces.len()
        invariant
            cs@ == output@,
            all == split_on(output@, '\n'),
            pick == (|l: Seq<char>| has_substring(l, "Nmap scan report for"@) && split_ws(l).len() > 0),
            last_word == (|l: Seq<char>| split_ws(l).last()),
            pieces@.len() == all.len(),
            forall|j: int| 0 <= j < pieces@.len() ==> #[trigger] pieces@[j]@ == all[j],
            i <= pieces@.len(),
            strings_view(r@) == all.take(i as int).filter(pick).map_values(last_word),
        decreases pieces@.len() - i,
    {
        proof {
            assert(all.take(i as int + 1) =~= all.take(i as int).push(all[i as int]));
            all.take(i as int).lemma_filter_push(all[i as int], pick);
        }
        let line = string_from_chars(&pieces[i]);
        let words = split_whitespace_chars(line.as_str());
        if str_contains(line.as_str(), "Nmap scan report for") && words.len() > 0 {
            let w = string_from_chars(&words[words.len() - 1]);
            let ghost before = all.take(i as int).filter(pick).map_values(last_word);
            push_line(&mut r, w);
            assert(all.take(i as int).filter(pick).push(all[i as int]).map_values(last_word) =~= before.push(
                split_ws(all[i as int]).last(),
            ));
        }
        i = i + 1;
    }
    assert(all.take(pieces@.len() as int) =~= all);
    r
}

/// The capabilities a probe establishes: none where SSH failed; SSH, the
/// file system, system commands and Git where it answered.
pub fn capabilities_after_probe(ssh_reachable: bool) -> (r: Vec<RemoteCapability>)
    ensures
        r@ == if ssh_reachable {
            seq![
                RemoteCapability::SSH,
                RemoteCapability::FileSystem,
                RemoteCapability::SystemCommands,
                RemoteCapability::Git,
            ]
        } else {
            Seq::empty()
        },
{
    let mut r: Vec<RemoteCapability> = Vec::new();
    if ssh_reachable {
        r.push(RemoteCapability::SSH);
        r.push(RemoteCapability::FileSystem);
        r.push(RemoteCapability::SystemCommands);
        r.push(RemoteCapability::Git);
    }
    assert(r@ =~= if ssh_reachable {
        seq![RemoteCapability::SSH, RemoteCapability::FileSystem, RemoteCapability::SystemCommands, RemoteCapability::Git]
    } else {
        Seq::empty()
    });
    r
}

/// A connection attempt leaves a system online exactly when it holds a
/// channel and no attempt failed.
pub proof fn law_online_iff_linked_without_failure(s: RemoteSystemStatus, has_link: bool, any_failed: bool)
    requires
        is_connected_state(s, has_link, any_failed),
    ensures
        (s is Online) <==> (has_link && !any_failed),
{
}

/// Connecting a system takes two steps. An unknown system is refused
/// with its message and nothing changes. Otherwise the first step marks it
/// connecting and chooses the channels from its capabilities; once the
/// attempts on exactly those channels are recorded, the connection
/// succeeds with a report, only that system has changed, it is no longer
/// connecting, it keeps every channel that connected, and it is online
/// exactly when it holds a channel and no attempt failed (degraded when it
/// holds one and an attempt failed, in error when it holds none).
pub proof fn law_connect_in_two_steps(
    s0: Seq<RemoteSystem>,
    s1: Seq<RemoteSystem>,
    s2: Seq<RemoteSystem>,
    id: Seq<char>,
    r1: Result<(bool, bool), String>,
    ssh: Option<LinkOutcome>,
    cline: Option<LinkOutcome>,
    now: String,
    r2: Result<String, String>,
)
    requires
        connect_begin_outcome(s0, s1, id, r1),
        r1 matches Ok((try_ssh, try_cline)) ==> {
            &&& (ssh is Some <==> try_ssh)
            &&& (cline is Some <==> try_cline)
            &&& r2 matches Ok(m) && connect_finished(s1, s2, id, ssh, cline, now, m@)
        },
    ensures
        !has_system(s0, id) ==> (r1 matches Err(m) && m@ == unknown_system(id) && s1 == s0),
        has_system(s0, id) ==> r1 is Ok && r2 is Ok && exists|i: int| first_system(s0, id, i) && {
            let s = s0[i];
            let t = s2[i];
            let has_link = link_id(ssh, s.ssh_connection_id) is Some || link_id(cline, s.cline_session_id) is Some;
            &&& s2.len() == s0.len()
            &&& forall|j: int| 0 <= j < s0.len() && j != i ==> s2[j] == s0[j]
            &&& (ssh is Some <==> s.capabilities@.contains(RemoteCapability::SSH))
            &&& (cline is Some <==> s.capabilities@.contains(RemoteCapability::Cline))
            &&& !(t.status is Connecting) && !(t.status is Offline)
            &&& is_connected_state(t.status, has_link, link_failed(ssh) || link_failed(cline))
            &&& (t.status is Online <==> (has_link && !(link_failed(ssh) || link_failed(cline))))
            &&& t.ssh_connection_id == link_id(ssh, s.ssh_connection_id)
            &&& t.cline_session_id == link_id(cline, s.cline_session_id)
            &&& t.id == s.id && t.name == s.name && t.host == s.host && t.capabilities == s.capabilities
            &&& t.last_health_check == Some(now)
        },
{
    match (r1, r2) {
        (Ok((try_ssh, try_cline)), Ok(m)) => {
            let report = m@;
            let i = choose|i: int| first_system(s0, id, i) && {
                let s = s0[i];
                &&& try_ssh == s.capabilities@.contains(RemoteCapability::SSH)
                &&& try_cline == s.capabilities@.contains(RemoteCapability::Cline)
                &&& s1 == s0.update(i, RemoteSystem { status: RemoteSystemStatus::Connecting, ..s })
            };
            assert(first_system(s1, id, i)) by {
                assert forall|j: int| 0 <= j < i implies s1[j].id@ != id by {
                    assert(s1[j] == s0[j]);
                }
            }
            let k = choose|k: int| first_system(s1, id, k) && {
                let s = s1[k];
                let t = s2[k];
                let has_link = link_id(ssh, s.ssh_connection_id) is Some || link_id(cline, s.cline_session_id) is Some;
                &&& s2.len() == s1.len()
                &&& forall|j: int| 0 <= j < s1.len() && j != k ==> s2[j] == s1[j]
                &&& t.id == s.id && t.name == s.name && t.host == s.host && t.capabilities == s.capabilities
                &&& t.ssh_connection_id == link_id(ssh, s.ssh_connection_id)
                &&& t.cline_session_id == link_id(cline, s.cline_session_id)
                &&& is_connected_state(t.status, has_link, link_failed(ssh) || link_failed(cline))
                &&& t.last_health_check == Some(now)
                &&& report == connection_report(t, link_lines(ssh, cline), has_link)
            };
            if k < i {
                assert(s1[k] == s0[k]);
            }
            if i < k {
                assert(s1[i].id@ == id);
            }
            assert(k == i);
            assert forall|j: int| 0 <= j < s0.len() && j != i implies s2[j] == s0[j] by {
                assert(s1[j] == s0[j]);
            }
        },
        _ => {},
    }
}

} // verus!
