use pocket_sentinel::callback::{parse_callback, CallbackAction};
use pocket_sentinel::discovery::{Discovery, ProbeOutputs};
use pocket_sentinel::dispatch::infer_target_alias;
use pocket_sentinel::servers::{ManagedServer, ServerManager};

#[test]
fn servers_are_added_listed_and_removed() {
    let mut m = ServerManager::new();
    m.insert_server("web".into(), "10.0.0.1".into(), "root".into(), 22, None, "id-1".into());
    m.add_server("db".into(), "10.0.0.2".into(), "admin".into(), 2222, Some("pw".into()));
    let s = m.get_server("db").unwrap();
    assert_eq!(s.ip_address, "10.0.0.2");
    assert_eq!(s.hostname, "10.0.0.2");
    assert_eq!(s.port, 2222);
    assert_eq!(s.password.as_deref(), Some("pw"));
    assert_eq!(s.id.len(), 36);
    m.insert_server("web".into(), "10.0.0.9".into(), "root".into(), 22, None, "id-3".into());
    let list = m.list_servers();
    assert_eq!(list.len(), 2);
    assert_eq!(list[0].0, "web");
    assert_eq!(list[0].1.hostname, "10.0.0.9");
    assert!(m.remove_server("web"));
    assert!(!m.remove_server("web"));
    assert!(m.get_server("web").is_none());
    assert_eq!(m.list_servers().len(), 1);
}

#[test]
fn local_server_is_added_once() {
    let mut m = ServerManager::new();
    m.ensure_local("alice".into());
    m.ensure_local("bob".into());
    let l = m.get_server("local").unwrap();
    assert_eq!(l.id, "local-auto");
    assert_eq!(l.ip_address, "127.0.0.1");
    assert_eq!(l.ssh_user, "alice");
    assert_eq!(m.list_servers().len(), 1);
}

#[test]
fn discovery_report_from_probe_outputs() {
    let outputs = ProbeOutputs {
        os_release: Some(" Ubuntu 22.04 \n".into()),
        kernel: None,
        hostname: Some("box\n".into()),
        uptime: Some("up 2 days\n".into()),
        load_avg: Some("0.10 0.20 0.30\n".into()),
        memory: Some("1G / 4G\n".into()),
        disk: None,
        services: Some("UNIT\nssh.service\r\n  cron.service \nfoo.socket\n".into()),
    };
    let r = Discovery::run(&outputs, "2024-01-01".into());
    assert_eq!(r.system_info.os_release, "Ubuntu 22.04");
    assert_eq!(r.system_info.kernel_version, "Unknown");
    assert_eq!(r.resources.cpu_usage, "Load Avg: 0.10 0.20 0.30");
    assert_eq!(r.resources.disk_usage, "Unknown");
    let names: Vec<&str> = r.services.iter().map(|s| s.name.as_str()).collect();
    assert_eq!(names, vec!["ssh.service", "cron.service"]);
    assert!(r.services.iter().all(|s| s.status == "running"));
    assert_eq!(r.timestamp, "2024-01-01");
    assert_eq!(Discovery::probes().len(), 8);
}

#[test]
fn callbacks_are_routed() {
    assert!(matches!(parse_callback("set_model:llama3"), CallbackAction::SetModel(m) if m == "llama3"));
    assert!(matches!(parse_callback("menu_server:web"), CallbackAction::MenuServer(a) if a == "web"));
    assert!(matches!(parse_callback("act_discover:db"), CallbackAction::Discover(a) if a == "db"));
    assert!(matches!(parse_callback("act_remove:db"), CallbackAction::Remove(a) if a == "db"));
    match parse_callback("tool_run:bHM=:Run") {
        CallbackAction::ToolRun { token, label } => {
            assert_eq!(token, "bHM=");
            assert_eq!(label, "Run");
        }
        other => panic!("unexpected {:?}", other),
    }
    assert!(matches!(parse_callback("tool_run:bHM="), CallbackAction::Ignored));
    assert!(matches!(parse_callback("other"), CallbackAction::Ignored));
}

#[test]
fn target_alias_is_inferred_from_question() {
    let one = vec!["local".to_string()];
    assert_eq!(infer_target_alias("anything", &one).as_deref(), Some("local"));
    let many = vec!["prod".to_string(), "prod-db".to_string(), "web".to_string()];
    assert_eq!(infer_target_alias("check prod-db disk", &many).as_deref(), Some("prod-db"));
    assert_eq!(infer_target_alias("check prod disk", &many).as_deref(), Some("prod"));
    assert_eq!(infer_target_alias("check the cache", &many), None);
    assert_eq!(infer_target_alias("anything", &Vec::new()), None);
}

#[test]
fn restored_server_keeps_its_address() {
    let mut m = ServerManager::new();
    m.put_server(
        "db".into(),
        ManagedServer {
            id: "x".into(),
            hostname: "db.internal".into(),
            ip_address: "10.1.2.3".into(),
            port: 22,
            ssh_user: "root".into(),
            password: None,
        },
    );
    assert_eq!(m.get_server("db").unwrap().ip_address, "10.1.2.3");
}
