use gsteng::remote::cline_integration::{tagged_id, ClineRegistry, HttpOutcome, SessionStatus, TaskOutcome, TaskStatus};
use gsteng::remote::remote_executor::{
    capabilities_after_probe, LinkOutcome, RemoteSystemStatus, distributed_engineering_report, parse_discovered_hosts, RemoteCapability, RemoteExecutor,
};
use gsteng::remote::ssh_tunnel::{connection_status_text, ConnectionStatus, ConnectionTable, SSHKeyManager, SSHTunnel};

fn is_hex8(s: &str) -> bool {
    s.len() == 8 && s.chars().all(|c| c.is_ascii_hexdigit() && !c.is_ascii_uppercase())
}

#[test]
fn tagged_ids_end_in_eight_hex_digits() {
    let id = tagged_id("cline_", "box");
    assert!(id.starts_with("cline_box_"));
    assert!(is_hex8(&id["cline_box_".len()..]));
    let other = tagged_id("cline_", "box");
    assert_ne!(id, other);
}

#[test]
fn cline_session_lifecycle() {
    let mut registry = ClineRegistry::new();
    let id = registry.register_session("dev".to_string(), "10.0.0.5".to_string(), 3001, None).unwrap();
    assert_eq!(registry.sessions.len(), 1);
    assert!(matches!(registry.sessions[0].status, SessionStatus::Disconnected));

    let (url, auth) = registry.begin_connect(&id).unwrap();
    assert_eq!(url, "http://10.0.0.5:3001/api/status");
    assert!(auth.is_none());
    assert!(matches!(registry.sessions[0].status, SessionStatus::Connecting));

    let msg = registry
        .finish_connect(&id, HttpOutcome::Reply { success: true, status: "200 OK".to_string() }, "now".to_string())
        .unwrap();
    assert!(msg.starts_with("[CLINE SESSION ESTABLISHED]"));
    assert!(matches!(registry.sessions[0].status, SessionStatus::Connected));

    let request = registry.prepare_task(&id, "build".to_string(), "ci".to_string(), "now".to_string()).unwrap();
    assert_eq!(registry.tasks.len(), 1);
    assert!(registry.complete_task(&request.task_id, TaskOutcome::Body("done".to_string()), "later".to_string()).is_ok());
    assert_eq!(registry.tasks[0].status, TaskStatus::Completed);
    assert!(registry.cancel_task("missing", "x".to_string()).is_err());
}

#[test]
fn unknown_sessions_are_refused() {
    let mut registry = ClineRegistry::new();
    assert_eq!(registry.begin_connect("nope").unwrap_err(), "Session 'nope' not found");
    assert_eq!(
        registry.prepare_task("nope", "c".to_string(), "x".to_string(), "t".to_string()).unwrap_err(),
        "Session 'nope' not found"
    );
}

#[test]
fn tasks_need_a_connected_session() {
    let mut registry = ClineRegistry::new();
    let id = registry.register_session("dev".to_string(), "h".to_string(), 1, None).unwrap();
    let err = registry.prepare_task(&id, "c".to_string(), "x".to_string(), "t".to_string()).unwrap_err();
    assert_eq!(err, format!("Session '{}' is not connected", id));
    assert!(registry.tasks.is_empty());
}

#[test]
fn failed_connection_records_the_error() {
    let mut registry = ClineRegistry::new();
    let id = registry.register_session("dev".to_string(), "h".to_string(), 1, None).unwrap();
    registry.begin_connect(&id).unwrap();
    let err = registry.finish_connect(&id, HttpOutcome::Failed("refused".to_string()), "t".to_string()).unwrap_err();
    assert_eq!(err, "Failed to connect to Cline: refused");
    assert!(matches!(&registry.sessions[0].status, SessionStatus::Error(m) if m == "Connection failed: refused"));
}

#[test]
fn ssh_tunnel_arguments() {
    let mut table = ConnectionTable::new();
    let id = SSHTunnel::create_connection(
        &mut table,
        "lab".to_string(),
        "lab.local".to_string(),
        22,
        "tars".to_string(),
        None,
        3001,
        3000,
    )
    .unwrap();
    assert!(id.starts_with("ssh_lab.local_"));
    let args = SSHTunnel::tunnel_args(&table.connections[0]);
    assert_eq!(args[0], "-N");
    assert!(args.contains(&"3001:localhost:3000".to_string()));
    assert_eq!(args[args.len() - 3], "tars@lab.local");
    assert_eq!(args[args.len() - 1], "22");
    assert_eq!(SSHTunnel::disconnect(&mut table, "nope").unwrap_err(), "Connection 'nope' not found");
    assert!(SSHTunnel::get_connection_status(&table, &id).is_some());
    assert_eq!(connection_status_text(&ConnectionStatus::Connected), "Connected");
}

#[test]
fn key_generation_arguments() {
    assert_eq!(
        SSHKeyManager::keygen_args("/k"),
        vec!["-t", "ed25519", "-f", "/k", "-N", "", "-C", "tars-engineering-manager"]
    );
}

#[test]
fn remote_systems() {
    let mut executor = RemoteExecutor::new();
    let id = executor
        .register_remote_system("lab".to_string(), "10.0.0.9".to_string(), vec![RemoteCapability::SSH])
        .unwrap();
    assert!(id.starts_with("remote_10.0.0.9_"));
    assert_eq!(executor.systems.len(), 1);
    assert_eq!(capabilities_after_probe(false), Vec::<RemoteCapability>::new());
    assert_eq!(capabilities_after_probe(true)[0], RemoteCapability::SSH);
}

#[test]
fn discovered_hosts_from_a_scan() {
    let output = "Starting Nmap\nNmap scan report for 192.168.1.10\nHost is up\nNmap scan report for box.lan (192.168.1.11)\n";
    assert_eq!(parse_discovered_hosts(output), vec!["192.168.1.10", "(192.168.1.11)"]);
}

#[test]
fn distributed_report_needs_systems() {
    assert_eq!(
        distributed_engineering_report("build", &vec![], "0.0").unwrap_err(),
        "No systems specified for distributed task"
    );
    let outcomes = vec![("a".to_string(), Ok("fine".to_string())), ("b".to_string(), Err("down".to_string()))];
    assert!(distributed_engineering_report("build", &outcomes, "50.0").unwrap().contains("build"));
}

#[test]
fn cancelling_twice_is_refused() {
    let mut registry = ClineRegistry::new();
    let id = registry.register_session("dev".to_string(), "h".to_string(), 1, None).unwrap();
    registry.begin_connect(&id).unwrap();
    registry
        .finish_connect(&id, HttpOutcome::Reply { success: true, status: "200 OK".to_string() }, "t".to_string())
        .unwrap();
    let request = registry.prepare_task(&id, "build".to_string(), "ci".to_string(), "t".to_string()).unwrap();
    let first = registry.cancel_task(&request.task_id, "t2".to_string()).unwrap();
    assert!(first.starts_with("[TASK CANCELLED]"));
    assert_eq!(registry.tasks[0].status, TaskStatus::Cancelled);
    let second = registry.cancel_task(&request.task_id, "t3".to_string()).unwrap_err();
    assert_eq!(second, format!("Task '{}' cannot be cancelled (status: Cancelled)", request.task_id));
    assert_eq!(registry.tasks[0].completed_at, Some("t2".to_string()));
}

#[test]
fn system_online_only_when_linked_without_failure() {
    let mut executor = RemoteExecutor::new();
    let a = executor
        .register_remote_system("a".to_string(), "ha".to_string(), vec![RemoteCapability::SSH, RemoteCapability::Cline])
        .unwrap();
    assert_eq!(executor.begin_connect(&a).unwrap(), (true, true));
    assert!(executor
        .finish_connect(&a, Some(LinkOutcome::Connected("ssh_1".to_string())), Some(LinkOutcome::ConnectFailed("x".to_string())), "t".to_string())
        .is_ok());
    assert!(matches!(executor.systems[0].status, RemoteSystemStatus::Degraded));

    let b = executor.register_remote_system("b".to_string(), "hb".to_string(), vec![RemoteCapability::SSH]).unwrap();
    executor.begin_connect(&b).unwrap();
    executor.finish_connect(&b, Some(LinkOutcome::Connected("ssh_2".to_string())), None, "t".to_string()).unwrap();
    assert!(matches!(executor.systems[1].status, RemoteSystemStatus::Online));

    let c = executor.register_remote_system("c".to_string(), "hc".to_string(), vec![RemoteCapability::SSH]).unwrap();
    executor.begin_connect(&c).unwrap();
    let _ = executor.finish_connect(&c, Some(LinkOutcome::SetupFailed("no".to_string())), None, "t".to_string());
    assert!(matches!(&executor.systems[2].status, RemoteSystemStatus::Error(m) if m == "No connections established"));
}

#[test]
fn cline_task_request_and_lookups() {
    let mut registry = ClineRegistry::new();
    let id = registry
        .register_session("dev".to_string(), "10.0.0.7".to_string(), 3001, Some("k1".to_string()))
        .unwrap();
    registry
        .finish_connect(&id, HttpOutcome::Reply { success: true, status: "200 OK".to_string() }, "t".to_string())
        .unwrap();
    let request = registry.prepare_task(&id, "build".to_string(), "ci".to_string(), "t".to_string()).unwrap();
    assert_eq!(request.url, "http://10.0.0.7:3001/api/execute");
    assert_eq!(request.authorization, Some("Bearer k1".to_string()));
    let task = registry.get_task_status(&request.task_id).unwrap();
    assert_eq!(task.command, "build");
    assert_eq!(task.status, TaskStatus::Running);
    assert!(registry.get_task_status("task_missing").is_none());
    let sessions = registry.list_sessions();
    assert_eq!(sessions.len(), 1);
    assert_eq!(sessions[0].id, id);
}
