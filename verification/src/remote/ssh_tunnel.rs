//! SSH tunnels: their records, the `ssh` command lines that open and test
//! them, and TARS's reports on them.

use crate::remote::cline_integration::{is_tagged_id, tagged_id};
use crate::text::{
    chars_of, debug_str, debug_text, decimal, fmt_u64, join2, join3, push_line, str_contains, str_equal,
    string_from_chars, strings_view, has_substring, trim_chars, trim_spec,
};
use vstd::prelude::*;

verus! {

broadcast use vstd::string::group_string_axioms;

/// The state of a tunnel.
#[derive(Debug, Clone)]
pub enum ConnectionStatus {
    Connected,
    Disconnected,
    Connecting,
    Error(String),
}

/// A tunnel: where it goes, as whom, which ports it forwards. Times are UTC
/// text.
#[derive(Debug, Clone)]
pub struct SSHConnection {
    pub id: String,
    pub name: String,
    pub host: String,
    pub port: u16,
    pub username: String,
    pub key_path: Option<String>,
    pub local_port: u16,
    pub remote_port: u16,
    pub status: ConnectionStatus,
    pub last_connected: Option<String>,
}

/// The tunnels TARS keeps.
pub struct ConnectionTable {
    pub connections: Vec<SSHConnection>,
}

/// Operations on tunnels.
pub struct SSHTunnel;

/// Key-pair operations.
pub struct SSHKeyManager;

/// The index of the first tunnel with an identifier.
pub open spec fn first_connection(v: Seq<SSHConnection>, id: Seq<char>, i: int) -> bool {
    &&& 0 <= i < v.len()
    &&& v[i].id@ == id
    &&& forall|j: int| 0 <= j < i ==> v[j].id@ != id
}

/// Whether a tunnel has an identifier.
pub open spec fn has_connection(v: Seq<SSHConnection>, id: Seq<char>) -> bool {
    exists|i: int| 0 <= i < v.len() && v[i].id@ == id
}

/// `-i <key>` where a key is given.
pub open spec fn key_args(key: Option<Seq<char>>) -> Seq<Seq<char>> {
    match key {
        Some(k) => seq!["-i"@, k],
        None => Seq::empty(),
    }
}

/// The arguments of `ssh` that open a tunnel.
pub open spec fn tunnel_arg_list(c: SSHConnection) -> Seq<Seq<char>> {
    seq![
        "-N"@, "-T"@, "-o"@, "ExitOnForwardFailure=yes"@, "-o"@, "ServerAliveInterval=60"@, "-o"@,
        "ServerAliveCountMax=3"@, "-o"@, "StrictHostKeyChecking=no"@, "-L"@,
        decimal(c.local_port as nat) + ":localhost:"@ + decimal(c.remote_port as nat),
    ] + key_args(
        match c.key_path {
            Some(k) => Some(k@),
            None => None,
        },
    ) + seq![c.username@ + "@"@ + c.host@, "-p"@, decimal(c.port as nat)]
}

/// The arguments of `ssh` that test a connection.
pub open spec fn test_arg_list(host: Seq<char>, port: u16, username: Seq<char>, key: Option<Seq<char>>) -> Seq<Seq<char>> {
    seq!["-o"@, "BatchMode=yes"@, "-o"@, "ConnectTimeout=10"@, "-o"@, "StrictHostKeyChecking=no"@, "-T"@] + key_args(
        key,
    ) + seq![username + "@"@ + host, "-p"@, decimal(port as nat), "echo 'TARS_CONNECTION_TEST_SUCCESS'"@]
}

/// A tunnel state as `{:?}` prints it.
pub open spec fn connection_status_debug(s: ConnectionStatus) -> Seq<char> {
    match s {
        ConnectionStatus::Connected => "Connected"@,
        ConnectionStatus::Disconnected => "Disconnected"@,
        ConnectionStatus::Connecting => "Connecting"@,
        ConnectionStatus::Error(m) => "Error("@ + debug_text(m@) + ")"@,
    }
}

/// The report's paragraph on a tunnel.
pub open spec fn tunnel_paragraph(c: SSHConnection, healthy: bool) -> Seq<char> {
    (if healthy {
        "🟢"@
    } else {
        "🔴"@
    }) + " "@ + c.name@ + "\nHost: "@ + c.host@ + ":"@ + decimal(c.port as nat) + "\nLocal Port: "@ + decimal(
        c.local_port as nat,
    ) + " -> Remote Port: "@ + decimal(c.remote_port as nat) + "\nStatus: "@ + connection_status_debug(c.status)
        + "\nHealth: "@ + (if healthy {
        "OPERATIONAL"@
    } else {
        "FAILED"@
    }) + "\n\n"@
}

/// The paragraphs of the tunnels, in order.
pub open spec fn tunnel_paragraphs(v: Seq<SSHConnection>, health: Seq<bool>) -> Seq<char>
    decreases v.len(),
{
    if v.len() == 0 || health.len() < v.len() {
        Seq::empty()
    } else {
        tunnel_paragraphs(v.drop_last(), health) + tunnel_paragraph(v.last(), health[v.len() - 1])
    }
}

/// The tunnel report.
pub open spec fn tunnel_report_text(v: Seq<SSHConnection>, health: Seq<bool>) -> Seq<char> {
    "[TARS SSH TUNNEL REPORT]\n============================\n\n"@ + (if v.len() == 0 {
        "No active SSH tunnels configured.\nStanding by for remote access directives.\n"@
    } else {
        tunnel_paragraphs(v, health)
    }) + "[MISSION STATUS] Remote access capabilities "@ + (if v.len() == 0 {
        "STANDBY"@
    } else {
        "ACTIVE"@
    }) + ".\n"@
}

fn key_option_view(k: &Option<String>) -> (r: Option<&str>)
    ensures
        match k {
            Some(s) => r matches Some(t) && t@ == s@,
            None => r is None,
        },
{
    match k {
        Some(s) => Some(s.as_str()),
        None => None,
    }
}

fn push_key_args(v: &mut Vec<String>, key: Option<&str>)
    ensures
        strings_view(final(v)@) == strings_view(old(v)@) + key_args(
            match key {
                Some(k) => Some(k@),
                None => None,
            },
        ),
{
    match key {
        Some(k) => {
            push_line(v, String::from_str("-i"));
            push_line(v, String::from_str(k));
        },
        None => {},
    }
    assert(strings_view(v@) =~= strings_view(old(v)@) + key_args(
        match key {
            Some(k) => Some(k@),
            None => None,
        },
    ));
}

impl ConnectionTable {
    /// No tunnels.
    pub fn new() -> (t: Self)
        ensures
            t.connections@.len() == 0,
    {
        ConnectionTable { connections: Vec::new() }
    }

    /// The index of the first tunnel with an identifier.
    pub fn find(&self, id: &str) -> (r: Option<usize>)
        ensures
            match r {
                Some(i) => first_connection(self.connections@, id@, i as int),
                None => !has_connection(self.connections@, id@),
            },
    {
        let mut i: usize = 0;
        while i < self.connections.len()
            invariant
                i <= self.connections@.len(),
                forall|j: int| 0 <= j < i ==> self.connections@[j].id@ != id@,
            decreases self.connections@.len() - i,
        {
            if str_equal(self.connections[i].id.as_str(), id) {
                return Some(i);
            }
            i = i + 1;
        }
        None
    }
}

impl SSHTunnel {
    /// Records a disconnected tunnel under a fresh identifier
    /// `ssh_<host>_<8 hex digits>`.
    pub fn create_connection(
        table: &mut ConnectionTable,
        name: String,
        host: String,
        port: u16,
        username: String,
        key_path: Option<String>,
        local_port: u16,
        remote_port: u16,
    ) -> (r: Result<String, String>)
        ensures
            r matches Ok(id) && is_tagged_id(id@, "ssh_"@, host@) && {
                let c = final(table).connections@.last();
                &&& final(table).connections@ == old(table).connections@.push(c)
                &&& c.id@ == id@ && c.name == name && c.host == host && c.port == port
                &&& c.username == username && c.key_path == key_path
                &&& c.local_port == local_port && c.remote_port == remote_port
                &&& c.status is Disconnected && c.last_connected is None
            },
    {
        let id = tagged_id("ssh_", host.as_str());
        table.connections.push(
            SSHConnection {
                id: id.clone(),
                name,
                host,
                port,
                username,
                key_path,
                local_port,
                remote_port,
                status: ConnectionStatus::Disconnected,
                last_connected: None,
            },
        );
        Ok(id)
    }

    /// The arguments of `ssh` that open a tunnel.
    pub fn tunnel_args(c: &SSHConnection) -> (v: Vec<String>)
        ensures
            strings_view(v@) == tunnel_arg_list(*c),
    {
        let mut v: Vec<String> = Vec::new();
        push_line(&mut v, String::from_str("-N"));
        push_line(&mut v, String::from_str("-T"));
        push_line(&mut v, String::from_str("-o"));
        push_line(&mut v, String::from_str("ExitOnForwardFailure=yes"));
        push_line(&mut v, String::from_str("-o"));
        push_line(&mut v, String::from_str("ServerAliveInterval=60"));
        push_line(&mut v, String::from_str("-o"));
        push_line(&mut v, String::from_str("ServerAliveCountMax=3"));
        push_line(&mut v, String::from_str("-o"));
        push_line(&mut v, String::from_str("StrictHostKeyChecking=no"));
        push_line(&mut v, String::from_str("-L"));
        let lp = fmt_u64(c.local_port as u64);
        let rp = fmt_u64(c.remote_port as u64);
        push_line(&mut v, join3(lp.as_str(), ":localhost:", rp.as_str()));
        let ghost head = strings_view(v@);
        push_key_args(&mut v, key_option_view(&c.key_path));
        push_line(&mut v, join3(c.username.as_str(), "@", c.host.as_str()));
        push_line(&mut v, String::from_str("-p"));
        push_line(&mut v, fmt_u64(c.port as u64));
        assert(strings_view(v@) =~= tunnel_arg_list(*c));
        v
    }

    /// Marks a tunnel connecting and gives the arguments of `ssh` that open
    /// it.
    pub fn begin_connect(table: &mut ConnectionTable, connection_id: &str) -> (r: Result<Vec<String>, String>)
        ensures
            r is Ok <==> has_connection(old(table).connections@, connection_id@),
            r matches Err(m) ==> m@ == "Connection '"@ + connection_id@ + "' not found"@
                && final(table).connections@ == old(table).connections@,
            r matches Ok(args) ==> exists|i: int| first_connection(old(table).connections@, connection_id@, i) && {
                let c = old(table).connections@[i];
                &&& strings_view(args@) == tunnel_arg_list(c)
                &&& final(table).connections@ == old(table).connections@.update(
                    i,
                    SSHConnection { status: ConnectionStatus::Connecting, ..c },
                )
            },
    {
        match table.find(connection_id) {
            None => Err(join3("Connection '", connection_id, "' not found")),
            Some(i) => {
                table.connections[i].status = ConnectionStatus::Connecting;
                Ok(SSHTunnel::tunnel_args(&table.connections[i]))
            },
        }
    }

    /// Records whether the tunnel process started, and reports it.
    pub fn finish_connect(
        table: &mut ConnectionTable,
        connection_id: &str,
        spawned: Result<(), String>,
        now: String,
    ) -> (r: Result<String, String>)
        requires
            has_connection(old(table).connections@, connection_id@),
        ensures
            exists|i: int| first_connection(old(table).connections@, connection_id@, i) && {
                let c = old(table).connections@[i];
                match spawned {
                    Ok(_) => {
                        &&& final(table).connections@ == old(table).connections@.update(
                            i,
                            SSHConnection { status: ConnectionStatus::Connected, last_connected: Some(now), ..c },
                        )
                        &&& r matches Ok(m) && m@ == "[SSH TUNNEL ESTABLISHED]\n\nConnection: "@ + c.name@ + "\nLocal Port: "@
                            + decimal(c.local_port as nat) + " -> Remote: "@ + c.host@ + ":"@ + decimal(c.remote_port as nat)
                            + "\nStatus: ACTIVE\n\nTARS can now access remote services through this tunnel.\nThat's what I would have said. Eventually."@
                    },
                    Err(e) => {
                        &&& final(table).connections@.len() == old(table).connections@.len()
                        &&& final(table).connections@[i].status matches ConnectionStatus::Error(x) && x@
                            == "Failed to establish tunnel: "@ + e@
                        &&& final(table).connections@[i].id == c.id
                        &&& r matches Err(m) && m@ == "SSH tunnel failed: "@ + e@
                    },
                }
            },
    {
        let i = match table.find(connection_id) {
            Some(i) => i,
            None => {
                return Err(join3("Connection '", connection_id, "' not found"));
            },
        };
        match spawned {
            Ok(_) => {
                table.connections[i].status = ConnectionStatus::Connected;
                table.connections[i].last_connected = Some(now);
                let c = &table.connections[i];
                let lp = fmt_u64(c.local_port as u64);
                let rp = fmt_u64(c.remote_port as u64);
                let mut m = join3("[SSH TUNNEL ESTABLISHED]\n\nConnection: ", c.name.as_str(), "\nLocal Port: ");
                m.append(lp.as_str());
                m.append(" -> Remote: ");
                m.append(c.host.as_str());
                m.append(":");
                m.append(rp.as_str());
                m.append("\nStatus: ACTIVE\n\nTARS can now access remote services through this tunnel.\nThat's what I would have said. Eventually.");
                Ok(m)
            },
            Err(e) => {
                table.connections[i].status = ConnectionStatus::Error(join2("Failed to establish tunnel: ", e.as_str()));
                Err(join2("SSH tunnel failed: ", e.as_str()))
            },
        }
    }

    /// Marks a tunnel disconnected (its process is stopped by the caller)
    /// and reports it.
    pub fn disconnect(table: &mut ConnectionTable, connection_id: &str) -> (r: Result<String, String>)
        ensures
            r is Ok <==> has_connection(old(table).connections@, connection_id@),
            r matches Err(m) ==> m@ == "Connection '"@ + connection_id@ + "' not found"@
                && final(table).connections@ == old(table).connections@,
            r matches Ok(m) ==> exists|i: int| first_connection(old(table).connections@, connection_id@, i) && {
                let c = old(table).connections@[i];
                &&& final(table).connections@ == old(table).connections@.update(
                    i,
                    SSHConnection { status: ConnectionStatus::Disconnected, ..c },
                )
                &&& m@ == "[SSH TUNNEL TERMINATED]\n\nConnection: "@ + c.name@
                    + " disconnected\nStatus: INACTIVE\n\nRemote access terminated. Standing by for new directives."@
            },
    {
        match table.find(connection_id) {
            None => Err(join3("Connection '", connection_id, "' not found")),
            Some(i) => {
                table.connections[i].status = ConnectionStatus::Disconnected;
                Ok(join3(
                    "[SSH TUNNEL TERMINATED]\n\nConnection: ",
                    table.connections[i].name.as_str(),
                    " disconnected\nStatus: INACTIVE\n\nRemote access terminated. Standing by for new directives.",
                ))
            },
        }
    }

    /// Marks a tunnel whose process has exited.
    pub fn mark_terminated(table: &mut ConnectionTable, connection_id: &str)
        ensures
            !has_connection(old(table).connections@, connection_id@) ==> final(table).connections@ == old(table).connections@,
            has_connection(old(table).connections@, connection_id@) ==> exists|i: int|
                first_connection(old(table).connections@, connection_id@, i) && final(table).connections@.len()
                    == old(table).connections@.len() && (final(table).connections@[i].status matches ConnectionStatus::Error(
                    m,
                ) && m@ == "Tunnel process terminated"@) && final(table).connections@[i].id == old(table).connections@[i].id,
    {
        match table.find(connection_id) {
            None => {},
            Some(i) => {
                table.connections[i].status = ConnectionStatus::Error(String::from_str("Tunnel process terminated"));
            },
        }
    }

    /// The state of a tunnel, if it exists.
    pub fn get_connection_status(table: &ConnectionTable, connection_id: &str) -> (r: Option<ConnectionStatus>)
        ensures
            r is Some <==> has_connection(table.connections@, connection_id@),
    {
        match table.find(connection_id) {
            None => None,
            Some(i) => Some(table.connections[i].status.clone()),
        }
    }

    /// The arguments of `ssh` that test a connection.
    pub fn test_connection_args(host: &str, port: u16, username: &str, key_path: Option<&str>) -> (v: Vec<String>)
        ensures
            strings_view(v@) == test_arg_list(
                host@,
                port,
                username@,
                match key_path {
                    Some(k) => Some(k@),
                    None => None,
                },
            ),
    {
        let mut v: Vec<String> = Vec::new();
        push_line(&mut v, String::from_str("-o"));
        push_line(&mut v, String::from_str("BatchMode=yes"));
        push_line(&mut v, String::from_str("-o"));
        push_line(&mut v, String::from_str("ConnectTimeout=10"));
        push_line(&mut v, String::from_str("-o"));
        push_line(&mut v, String::from_str("StrictHostKeyChecking=no"));
        push_line(&mut v, String::from_str("-T"));
        push_key_args(&mut v, key_path);
        push_line(&mut v, join3(username, "@", host));
        push_line(&mut v, String::from_str("-p"));
        push_line(&mut v, fmt_u64(port as u64));
        push_line(&mut v, String::from_str("echo 'TARS_CONNECTION_TEST_SUCCESS'"));
        assert(strings_view(v@) =~= test_arg_list(
            host@,
            port,
            username@,
            match key_path {
                Some(k) => Some(k@),
                None => None,
            },
        ));
        v
    }

    /// The verdict of a connection test, from whether `ssh` succeeded and
    /// what it printed.
    pub fn test_connection_result(
        host: &str,
        port: u16,
        username: &str,
        succeeded: bool,
        output: &str,
        errors: &str,
    ) -> (r: Result<String, String>)
        ensures
            succeeded && has_substring(output@, "TARS_CONNECTION_TEST_SUCCESS"@) ==> (r matches Ok(m) && m@
                == "[CONNECTION TEST SUCCESSFUL]\n\nHost: "@ + host@ + ":"@ + decimal(port as nat) + "\nUser: "@ + username@
                + "\nStatus: REACHABLE\n\nSSH connection parameters validated.\nReady for tunnel establishment."@),
            succeeded && !has_substring(output@, "TARS_CONNECTION_TEST_SUCCESS"@) ==> (r matches Err(m) && m@
                == "SSH connection test failed: Unexpected response"@),
            !succeeded ==> (r matches Err(m) && m@ == "SSH connection failed: "@ + errors@),
    {
        if succeeded {
            if str_contains(output, "TARS_CONNECTION_TEST_SUCCESS") {
                let p = fmt_u64(port as u64);
                let mut m = join3("[CONNECTION TEST SUCCESSFUL]\n\nHost: ", host, ":");
                m.append(p.as_str());
                m.append("\nUser: ");
                m.append(username);
                m.append("\nStatus: REACHABLE\n\nSSH connection parameters validated.\nReady for tunnel establishment.");
                Ok(m)
            } else {
                Err(String::from_str("SSH connection test failed: Unexpected response"))
            }
        } else {
            Err(join2("SSH connection failed: ", errors))
        }
    }

    /// The report of a tunnel opened for Cline.
    pub fn cline_tunnel_message(target_host: &str, local_port: u16, connection_id: &str) -> (r: String)
        ensures
            r@ == "[CLINE TUNNEL ESTABLISHED]\n\nTarget: "@ + target_host@ + "\nLocal Access Port: "@ + decimal(
                local_port as nat,
            ) + "\nConnection ID: "@ + connection_id@
                + "\n\nTARS can now remotely execute Cline operations on the target system.\nRemote engineering management protocols active."@,
    {
        let p = fmt_u64(local_port as u64);
        let mut m = join3("[CLINE TUNNEL ESTABLISHED]\n\nTarget: ", target_host, "\nLocal Access Port: ");
        m.append(p.as_str());
        m.append("\nConnection ID: ");
        m.append(connection_id);
        m.append("\n\nTARS can now remotely execute Cline operations on the target system.\nRemote engineering management protocols active.");
        m
    }

    /// The tunnel report; `health` tells, tunnel by tunnel, whether its
    /// process is alive.
    pub fn generate_tunnel_report(connections: &Vec<SSHConnection>, health: &Vec<bool>) -> (r: String)
        requires
            health@.len() == connections@.len(),
        ensures
            r@ == tunnel_report_text(connections@, health@),
    {
        let mut r = String::from_str("[TARS SSH TUNNEL REPORT]\n============================\n\n");
        if connections.len() == 0 {
            r.append("No active SSH tunnels configured.\nStanding by for remote access directives.\n");
        } else {
            let ghost head = r@;
            let mut i: usize = 0;
            while i < connections.len()
                invariant
                    i <= connections@.len(),
                    health@.len() == connections@.len(),
                    r@ == head + tunnel_paragraphs(connections@.take(i as int), health@),
                decreases connections@.len() - i,
            {
                assert(connections@.take(i as int + 1).drop_last() =~= connections@.take(i as int));
                let p = tunnel_paragraph_text(&connections[i], health[i]);
                r.append(p.as_str());
                i = i + 1;
            }
            assert(connections@.take(connections@.len() as int) =~= connections@);
        }
        r.append("[MISSION STATUS] Remote access capabilities ");
        r.append(if connections.len() == 0 { "STANDBY" } else { "ACTIVE" });
        r.append(".\n");
        r
    }
}

/// A tunnel state as `{:?}` prints it.
pub fn connection_status_text(s: &ConnectionStatus) -> (r: String)
    ensures
        r@ == connection_status_debug(*s),
{
    match s {
        ConnectionStatus::Connected => String::from_str("Connected"),
        ConnectionStatus::Disconnected => String::from_str("Disconnected"),
        ConnectionStatus::Connecting => String::from_str("Connecting"),
        ConnectionStatus::Error(m) => {
            let d = debug_str(m.as_str());
            join3("Error(", d.as_str(), ")")
        },
    }
}

fn tunnel_paragraph_text(c: &SSHConnection, healthy: bool) -> (r: String)
    ensures
        r@ == tunnel_paragraph(*c, healthy),
{
    let port = fmt_u64(c.port as u64);
    let lp = fmt_u64(c.local_port as u64);
    let rp = fmt_u64(c.remote_port as u64);
    let status = connection_status_text(&c.status);
    let mut r = join3(if healthy { "🟢" } else { "🔴" }, " ", c.name.as_str());
    r.append("\nHost: ");
    r.append(c.host.as_str());
    r.append(":");
    r.append(port.as_str());
    r.append("\nLocal Port: ");
    r.append(lp.as_str());
    r.append(" -> Remote Port: ");
    r.append(rp.as_str());
    r.append("\nStatus: ");
    r.append(status.as_str());
    r.append("\nHealth: ");
    r.append(if healthy { "OPERATIONAL" } else { "FAILED" });
    r.append("\n\n");
    r
}

impl SSHKeyManager {
    /// The arguments of `ssh-keygen` that make an ed25519 pair without a
    /// passphrase.
    pub fn keygen_args(key_path: &str) -> (v: Vec<String>)
        ensures
            strings_view(v@) == seq!["-t"@, "ed25519"@, "-f"@, key_path@, "-N"@, ""@, "-C"@, "tars-engineering-manager"@],
    {
        let mut v: Vec<String> = Vec::new();
        push_line(&mut v, String::from_str("-t"));
        push_line(&mut v, String::from_str("ed25519"));
        push_line(&mut v, String::from_str("-f"));
        push_line(&mut v, String::from_str(key_path));
        push_line(&mut v, String::from_str("-N"));
        push_line(&mut v, String::from_str(""));
        push_line(&mut v, String::from_str("-C"));
        push_line(&mut v, String::from_str("tars-engineering-manager"));
        assert(strings_view(v@) =~= seq!["-t"@, "ed25519"@, "-f"@, key_path@, "-N"@, ""@, "-C"@, "tars-engineering-manager"@]);
        v
    }

    /// The report of a generated key pair.
    pub fn keypair_generated_message(key_path: &str) -> (r: String)
        ensures
            r@ == "[SSH KEYPAIR GENERATED]\n\nPrivate Key: "@ + key_path@ + "\nPublic Key: "@ + key_path@
                + ".pub\n\nTARS authentication credentials created.\nDeploy public key to target systems for secure access."@,
    {
        let mut r = join3("[SSH KEYPAIR GENERATED]\n\nPrivate Key: ", key_path, "\nPublic Key: ");
        r.append(key_path);
        r.append(".pub\n\nTARS authentication credentials created.\nDeploy public key to target systems for secure access.");
        r
    }

    /// The path of the public half of a key.
    pub fn public_key_path(key_path: &str) -> (r: String)
        ensures
            r@ == key_path@ + ".pub"@,
    {
        join2(key_path, ".pub")
    }

    /// The public key as read from its file, trimmed.
    pub fn public_key_content(file_content: &str) -> (r: String)
        ensures
            r@ == trim_spec(file_content@),
    {
        let cs = chars_of(file_content);
        let t = trim_chars(&cs);
        string_from_chars(&t)
    }
}

} // verus!
