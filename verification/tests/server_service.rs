use rover::manifest::{AppManifest, AppSection, BuildSection, RunSection};
use rover::proto::{
    detail_runtime_name, runtime_name, runtime_to_proto, status_label, status_to_proto, Event,
    PageRequest,
};
use rover::server::auth::choose_pairing_token;
use rover::server::bore::{
    connect_failure_message, fallback_port, public_address, remote_port_of, BoreConfig,
};
use rover::server::deploy::{
    deploy_after_build, deploy_after_check, deploy_failed_event, deploy_start, prepare_deploy,
    DeployAction, DeployEvent, DeployNext,
};
use rover::server::runtime::{GoRuntime, PythonRuntime, RuntimeHandler, RuntimeRegistry};
use rover::server::service::{
    app_not_found, app_to_detail, app_to_summary, authorization_outcome, check_authorization,
    crashed_apps, deploy_event_message, list_response, log_entries, log_tail,
    malformed_authorization, missing_authorization, page_params, requires_api_key, start_needs_spawn, AuthCheck, RpcCode,
};
use rover::server::state::{AppRow, EnvVarRow, LogRow};
use rover::status::{AppStatus, Runtime};
use rover::transport::{LanTransportClient, RelayTransport, RelayTransportClient, TransportError};

fn row(id: &str, status: &str) -> AppRow {
    AppRow {
        app_id: id.into(),
        name: format!("{id}-name"),
        runtime: "node".into(),
        app_type: "service".into(),
        status: status.into(),
        build_command: "npm install".into(),
        run_command: "node index.js".into(),
        source_dir: format!("/apps/{id}"),
        manifest_toml: String::new(),
        created_at: 1000,
        updated_at: 2000,
        restart_count: 3,
        pid: Some(4242),
    }
}

#[test]
fn stored_rows_become_messages() {
    let s = app_to_summary(&row("a", "running"));
    assert_eq!(s.runtime, 2);
    assert_eq!(s.status, 3);
    assert_eq!(s.created_at.unwrap().millis, 1000);
    let env = vec![EnvVarRow { key: "K".into(), value: "V".into(), is_secret: false }];
    let d = app_to_detail(&row("a", "crashed"), &env);
    assert_eq!(d.status, 5);
    assert_eq!(d.env_vars, vec![("K".to_string(), "V".to_string())]);
    assert_eq!(d.restart_count, 3);
    assert_eq!(d.pid, Some(4242));
    assert_eq!(status_to_proto("weird"), 0);
    assert_eq!(runtime_to_proto("rust"), 4);
}

#[test]
fn paging_and_logs() {
    assert_eq!(page_params(None), (50, 0));
    assert_eq!(page_params(Some(PageRequest { limit: 10, offset: 20 })), (10, 20));
    let r = list_response(&vec![row("a", "running"), row("b", "stopped")], 10, 20);
    assert_eq!(r.apps.len(), 2);
    assert_eq!(r.apps[1].status, 4);
    let page = r.page.unwrap();
    assert_eq!((page.total, page.limit, page.offset), (2, 10, 20));
    assert_eq!(log_tail(0), 100);
    assert_eq!(log_tail(-3), 1);
    assert_eq!(log_tail(1000), 1000);
    assert_eq!(log_tail(50), 50);
    assert_eq!(log_tail(5000), 1000);
    let e = log_entries(&vec![LogRow { timestamp: 7, line: "x".into(), is_stderr: true }]);
    assert_eq!(e[0].timestamp.unwrap().millis, 7);
    assert!(e[0].is_stderr);
}

#[test]
fn rpc_errors_and_authorization() {
    let s = app_not_found("abc");
    assert_eq!(s.code, RpcCode::NotFound);
    assert_eq!(s.message, "app abc not found");
    assert!(start_needs_spawn("stopped"));
    assert!(!start_needs_spawn("running"));
    assert!(matches!(check_authorization(None), AuthCheck::Missing));
    assert!(!requires_api_key("/rover.v1.AuthService/Pair"));
    assert!(requires_api_key("/rover.v1.AppService/ListApps"));
    let e = missing_authorization();
    assert_eq!(e.code, RpcCode::Unauthenticated);
    assert_eq!(e.message, "missing authorization header");
    assert!(matches!(check_authorization(Some(None)), AuthCheck::Malformed));
    assert!(matches!(check_authorization(Some(Some("Token x".into()))), AuthCheck::Malformed));
    assert!(matches!(check_authorization(Some(Some("Bearer k1".into()))), AuthCheck::Verify(k) if k == "k1"));
    assert!(authorization_outcome(Ok(true)).is_ok());
    let e = authorization_outcome(Ok(false)).unwrap_err();
    assert_eq!((e.code, e.message.as_str()), (RpcCode::Unauthenticated, "invalid api key"));
    let e = authorization_outcome(Err("db".into())).unwrap_err();
    assert_eq!((e.code, e.message.as_str()), (RpcCode::Internal, "auth error"));
    assert_eq!(malformed_authorization().message, "invalid authorization format");
}

#[test]
fn health_check_marks_dead_running_apps() {
    let apps = vec![row("a", "running"), row("b", "running"), row("c", "stopped")];
    let ids = crashed_apps(&apps, &vec![true, false, false]);
    assert_eq!(ids, vec!["b".to_string()]);
}

fn manifest(runtime: &str) -> AppManifest {
    AppManifest {
        app: AppSection { name: "web".into(), runtime: runtime.into(), version: None },
        build: BuildSection { command: "pip install -r requirements.txt".into() },
        run: RunSection { command: "python3 main.py --port 8000".into() },
        env: vec![("PORT".into(), "8000".into())],
    }
}

#[test]
fn deploy_pipeline_steps() {
    let req = prepare_deploy(&manifest("python")).unwrap();
    assert_eq!(req.app_id.len(), 36);
    assert_eq!(req.app_name, "web");
    assert!(prepare_deploy(&manifest("lua")).is_err());

    let (actions, next) = deploy_start(&req, true);
    assert!(matches!(next, DeployNext::AwaitInstalled));
    assert!(matches!(&actions[..], [DeployAction::CheckInstalled]));
    let (actions, next) = deploy_start(&req, false);
    assert!(matches!(next, DeployNext::Finished));
    assert!(matches!(&actions[0], DeployAction::Send(DeployEvent::Error(m)) if m == "runtime not available: python"));

    let (actions, next) = deploy_after_check(&req, false);
    assert!(matches!(&next, DeployNext::Failed(e) if e == "runtime not installed"));
    assert!(matches!(&actions[0], DeployAction::Send(DeployEvent::Error(m)) if m == "Runtime python is not installed"));
    let (actions, next) = deploy_after_check(&req, true);
    assert!(matches!(next, DeployNext::AwaitBuild));
    assert_eq!(actions.len(), 7);
    assert!(matches!(&actions[5], DeployAction::Send(DeployEvent::Log { line, is_stderr: false }) if line == "> pip install -r requirements.txt"));

    let (actions, _) = deploy_after_build(&req, false);
    assert!(matches!(&actions[0], DeployAction::Send(DeployEvent::Error(m)) if m == "Build failed \u{2014} check output above"));
    let (actions, next) = deploy_after_build(&req, true);
    assert!(matches!(next, DeployNext::Finished));
    assert_eq!(actions.len(), 7);
    assert!(matches!(&actions[1], DeployAction::SetEnv(k, v) if k == "PORT" && v == "8000"));
    match &actions[4] {
        DeployAction::Spawn { program, args } => {
            assert_eq!(program, "python3");
            assert_eq!(args, &vec!["main.py".to_string(), "--port".to_string(), "8000".to_string()]);
        }
        _ => panic!("expected the app to be started"),
    }
    assert!(matches!(deploy_failed_event("disk full"), DeployEvent::Error(m) if m.contains("disk full")));
}

#[test]
fn deploy_events_reach_the_client() {
    let m = deploy_event_message(DeployEvent::log("building"));
    assert!(matches!(m.event, Some(Event::Log { line, is_stderr: false }) if line == "building"));
    let m = deploy_event_message(DeployEvent::complete("id-1"));
    assert!(matches!(m.event, Some(Event::Complete { app_id }) if app_id == "id-1"));
    let m = deploy_event_message(DeployEvent::error("bad"));
    assert!(matches!(m.event, Some(Event::Error { message }) if message == "bad"));
}

#[test]
fn runtimes_and_statuses() {
    assert_eq!(Runtime::all(), vec![Runtime::Python, Runtime::Node, Runtime::Go, Runtime::Rust]);
    assert_eq!(Runtime::Node.display_name(), "Node.js");
    assert_eq!(Runtime::parse("Python3").unwrap(), Runtime::Python);
    assert_eq!(Runtime::parse("lua").unwrap_err(), "unknown runtime: 'lua'");
    assert_eq!(Runtime::Go.to_string(), "go");
    assert!(AppStatus::Crashed.is_terminal());
    assert!(!AppStatus::Starting.is_terminal());
    assert_eq!(AppStatus::Running.color(), "#5cb85c");
    assert_eq!(AppStatus::parse("RUNNING").unwrap(), AppStatus::Running);
    assert_eq!(status_label(4), "stopped");
    assert_eq!(runtime_name(2), "node");
    assert_eq!(detail_runtime_name(2), "Node.js");
    assert_eq!(detail_runtime_name(7), "Unknown");
}

#[test]
fn runtime_registry_and_handlers() {
    let mut reg = RuntimeRegistry::new();
    assert!(reg.get_handler(Runtime::Go).is_none());
    reg.register(GoRuntime::new());
    reg.register(GoRuntime::new());
    assert_eq!(reg.registered(), vec![Runtime::Go]);
    reg.register(PythonRuntime::new());
    assert_eq!(reg.registered(), vec![Runtime::Go, Runtime::Python]);
    assert_eq!(reg.get_handler(Runtime::Python), Some(Runtime::Python));
    assert_eq!(reg.get_handler(Runtime::Go), Some(Runtime::Go));
    assert_eq!(reg.get_handler(Runtime::Node), None);
    let (p, a) = PythonRuntime::new().run_command("python3 app.py");
    assert_eq!(p, "sh");
    assert_eq!(a, vec!["-c".to_string(), "python3 app.py".to_string()]);
    assert_eq!(GoRuntime::new().runtime(), Runtime::Go);
}

#[test]
fn tunnel_addresses() {
    assert_eq!(public_address("bore.pub", 41234), "bore.pub:41234");
    assert_eq!(remote_port_of("bore.pub:41234"), Some(41234));
    assert_eq!(remote_port_of("bore.pub"), None);
    assert_eq!(remote_port_of("host:99999"), None);
    let mut c = BoreConfig::default();
    assert_eq!(c.preferred_port(), 0);
    c.remote_port = Some(5000);
    assert_eq!(c.preferred_port(), 5000);
}

#[test]
fn transports() {
    assert_eq!(LanTransportClient::new().endpoint_uri("1.2.3.4:9050"), "http://1.2.3.4:9050");
    assert!(matches!(RelayTransport::new().bind(1), Err(TransportError::NotImplemented(m)) if m == "relay transport not implemented yet"));
    assert!(RelayTransport::new().local_addresses().is_empty());
    assert!(RelayTransportClient::new().connect("x").is_err());
}

#[test]
fn pairing_token_choice() {
    let (t, store) = choose_pairing_token(Some("rover-pair-abc".into()));
    assert_eq!(t, "rover-pair-abc");
    assert!(!store);
    let (t, store) = choose_pairing_token(None);
    assert!(store);
    assert!(t.starts_with("rover-pair-"));
}

#[test]
fn tunnel_falls_back_to_any_port_once() {
    assert_eq!(fallback_port(41234), Some(0));
    assert_eq!(fallback_port(0), None);
    assert_eq!(
        connect_failure_message("bore.pub"),
        "Failed to connect to bore server 'bore.pub'. Make sure the server is running and reachable from this network."
    );
}
