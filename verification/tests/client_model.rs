use rover::client::app::{
    app_status_color, app_status_label, deploy_status_color, detail_status_label, runtime_color,
    GithubToken, Screen, ThemeColor, ToastKind,
};
use rover::client::model::MainContent;
use rover::client::model::RoverApp;
use rover::client::update::{init, title, update, AppAction, Effect, Message};
use rover::profile::ConnectionProfile;
use rover::proto::{AppDetailResponse, AppSummary, DeployEvent, Event};

fn profile(name: &str, address: &str, key: Option<&str>) -> ConnectionProfile {
    ConnectionProfile {
        id: format!("id-{name}"),
        name: name.to_string(),
        address: address.to_string(),
        api_key: key.map(|k| k.to_string()),
        last_used: None,
    }
}

fn summary(id: &str, name: &str) -> AppSummary {
    AppSummary {
        app_id: id.to_string(),
        name: name.to_string(),
        runtime: 1,
        status: 3,
        created_at: None,
        updated_at: None,
    }
}

fn connected_app() -> RoverApp {
    let (mut app, _) = init(vec![profile("Phone", "10.0.0.2:9050", Some("key-1"))], Vec::new());
    update(&mut app, Message::ServerConnected(0, true));
    app
}

fn is_refresh_pair(effects: &[Effect], idx: usize) -> bool {
    matches!(effects, [Effect::RefreshData(a), Effect::RefreshApps(b)] if *a == idx && *b == idx)
}

#[test]
fn init_reconnects_saved_servers_with_keys() {
    let (app, effects) = init(
        vec![profile("A", "1.1.1.1:9050", None), profile("B", "2.2.2.2:9050", Some("k"))],
        Vec::new(),
    );
    assert_eq!(app.servers.len(), 2);
    assert!(!app.show_add_form);
    assert!(matches!(app.screen, Screen::Connect));
    assert_eq!(app.next_deploy_id, 1);
    assert_eq!(effects.len(), 1);
    match &effects[0] {
        Effect::Reconnect(i, addr, key) => {
            assert_eq!(*i, 1);
            assert_eq!(addr, "2.2.2.2:9050");
            assert_eq!(key, "k");
        }
        _ => panic!("expected a reconnect"),
    }
    let (empty, none) = init(Vec::new(), Vec::new());
    assert!(empty.show_add_form);
    assert!(none.is_empty());
}

#[test]
fn connect_requires_address_and_token() {
    let (mut app, _) = init(Vec::new(), Vec::new());
    let effects = update(&mut app, Message::Connect);
    assert!(effects.is_empty());
    assert_eq!(app.form_error.as_deref(), Some("Address and pairing token are required"));

    update(&mut app, Message::SetAddr("  10.0.0.2:9050 ".into()));
    update(&mut app, Message::SetToken(" rover-pair-x ".into()));
    let effects = update(&mut app, Message::Connect);
    assert!(app.form_error.is_none());
    match &effects[..] {
        [Effect::Pair(addr, token, name)] => {
            assert_eq!(addr, "10.0.0.2:9050");
            assert_eq!(token, "rover-pair-x");
            assert_eq!(name, "10.0.0.2:9050");
        }
        _ => panic!("expected a pairing"),
    }
}

#[test]
fn server_added_saves_profile_and_refreshes() {
    let (mut app, _) = init(Vec::new(), Vec::new());
    update(&mut app, Message::SetAddr("10.0.0.2:9050".into()));
    update(&mut app, Message::SetServerName("Phone".into()));
    let effects = update(&mut app, Message::ServerAdded("Phone".into(), "key-9".into(), 1234));
    assert_eq!(app.servers.len(), 1);
    assert!(app.servers[0].connected);
    assert!(app.addr_input.is_empty());
    assert!(app.name_input.is_empty());
    assert!(matches!(app.screen, Screen::Dashboard));
    assert_eq!(effects.len(), 3);
    match &effects[0] {
        Effect::SaveProfile(p) => {
            assert_eq!(p.name, "Phone");
            assert_eq!(p.address, "10.0.0.2:9050");
            assert_eq!(p.api_key.as_deref(), Some("key-9"));
            assert_eq!(p.last_used, Some(1234));
            assert_eq!(p.id.len(), 36);
            assert_eq!(p.id, app.servers[0].profile.id);
        }
        _ => panic!("expected the profile to be saved"),
    }
    assert!(is_refresh_pair(&effects[1..], 0));
}

#[test]
fn server_apps_rebuild_the_unified_list() {
    let mut app = connected_app();
    update(
        &mut app,
        Message::ServerApps(0, vec![summary("a1", "web"), summary("a2", "worker")]),
    );
    assert_eq!(app.all_apps.len(), 2);
    assert_eq!(app.all_apps[1].summary.name, "worker");
    assert_eq!(app.all_apps[0].server_name, "Phone");
    assert_eq!(app.all_apps[0].server_address, "10.0.0.2:9050");
    assert_eq!(app.connected_count(), 1);
    assert!(app.any_connected());
    assert_eq!(title(&app), "Rover \u{2014} 1 server");
}

#[test]
fn detail_screen_is_left_when_its_app_disappears() {
    let mut app = connected_app();
    update(&mut app, Message::ServerApps(0, vec![summary("a1", "web")]));
    let effects = update(&mut app, Message::SelectApp("a1".into(), 0));
    assert!(matches!(&effects[..], [Effect::FetchDetail(id, 0)] if id == "a1"));
    assert!(matches!(&app.screen, Screen::AppDetail(id, 0) if id == "a1"));
    update(&mut app, Message::ServerApps(0, vec![summary("a2", "other")]));
    assert!(matches!(app.screen, Screen::Dashboard));
    assert!(app.app_detail.is_none());
}

#[test]
fn disconnect_forgets_server_data() {
    let mut app = connected_app();
    update(&mut app, Message::ServerApps(0, vec![summary("a1", "web")]));
    update(&mut app, Message::SelectApp("a1".into(), 0));
    let effects = update(&mut app, Message::Disconnect(0));
    assert!(matches!(&effects[..], [Effect::DropClient(0)]));
    assert!(!app.servers[0].connected);
    assert!(app.servers[0].apps.is_empty());
    assert!(app.all_apps.is_empty());
    assert!(matches!(app.screen, Screen::Dashboard));
    assert_eq!(title(&app), "Rover");
    let effects = update(&mut app, Message::Reconnect(0));
    assert!(app.servers[0].connecting);
    assert!(matches!(&effects[..], [Effect::Reconnect(0, a, k)] if a == "10.0.0.2:9050" && k == "key-1"));
    let again = update(&mut app, Message::Reconnect(0));
    assert!(again.is_empty());
}

#[test]
fn server_error_is_shown_as_a_toast() {
    let mut app = connected_app();
    update(&mut app, Message::ServerError(0, "timeout".into()));
    assert_eq!(app.servers[0].error.as_deref(), Some("timeout"));
    assert_eq!(app.toasts.len(), 1);
    assert_eq!(app.toasts[0].message, "Server connection error: timeout");
    assert_eq!(app.toasts[0].kind, ToastKind::Error);
    update(&mut app, Message::DismissToast(0));
    assert!(app.toasts.is_empty());
}

#[test]
fn rename_and_delete_server() {
    let mut app = connected_app();
    update(&mut app, Message::StartRename(0));
    assert_eq!(app.rename_value, "Phone");
    assert_eq!(app.editing_server, Some(0));
    update(&mut app, Message::SetRenameValue("  Pixel  ".into()));
    let effects = update(&mut app, Message::ConfirmRename(0));
    assert_eq!(app.servers[0].profile.name, "Pixel");
    assert!(app.editing_server.is_none());
    assert!(matches!(&effects[..], [Effect::SaveProfile(p)] if p.name == "Pixel"));
    update(&mut app, Message::ConfirmServerDelete(0));
    assert_eq!(app.confirm_server_delete, Some(0));
    let effects = update(&mut app, Message::DeleteServer(0));
    assert!(app.servers.is_empty());
    assert!(app.confirm_server_delete.is_none());
    assert!(matches!(&effects[..], [Effect::RemoveProfile(id)] if id == "id-Phone"));
}

fn filled_deploy_form(app: &mut RoverApp) {
    update(app, Message::OpenDeploy);
    update(app, Message::SetDeployTarget(Some(0)));
    update(app, Message::SetDeployName("  web  ".into()));
    update(app, Message::SetDeployRuntime("python".into()));
    update(app, Message::SetDeployPath("/src/web".into()));
}

#[test]
fn deploy_form_proposes_runtime_commands() {
    let mut app = connected_app();
    filled_deploy_form(&mut app);
    assert!(app.deploy_open);
    assert_eq!(app.deploy_build, "pip install -r requirements.txt");
    assert_eq!(app.deploy_run, "python3 main.py");
    update(&mut app, Message::SetDeployRuntime("cobol".into()));
    assert_eq!(app.deploy_runtime, "cobol");
    assert_eq!(app.deploy_build, "pip install -r requirements.txt");
}

#[test]
fn submit_deploy_without_target_warns() {
    let mut app = connected_app();
    update(&mut app, Message::OpenDeploy);
    let effects = update(&mut app, Message::SubmitDeploy);
    assert!(matches!(&effects[..], [Effect::Notify(ToastKind::Error, m)] if m == "Select a deployment target server"));
    assert!(app.deploy_jobs.is_empty());
    update(&mut app, Message::SetDeployTarget(Some(0)));
    let effects = update(&mut app, Message::SubmitDeploy);
    assert!(effects.is_empty());
}

#[test]
fn submit_deploy_starts_a_tracked_job() {
    let mut app = connected_app();
    filled_deploy_form(&mut app);
    update(&mut app, Message::SetEnvKey(" PORT ".into()));
    update(&mut app, Message::SetEnvValue(" 8080 ".into()));
    update(&mut app, Message::AddEnvVar);
    assert_eq!(app.deploy_env_vars, vec![("PORT".to_string(), "8080".to_string())]);
    let effects = update(&mut app, Message::SubmitDeploy);
    assert_eq!(app.next_deploy_id, 2);
    assert!(!app.deploy_open);
    assert_eq!(app.expanded_deploy, Some(1));
    let job = &app.deploy_jobs[0];
    assert_eq!(job.id, 1);
    assert_eq!(job.name, "web");
    assert_eq!(job.status, "packaging");
    assert_eq!(job.logs, vec!["Packaging source...".to_string()]);
    assert_eq!(job.server_name, "Phone");
    assert!(job.is_active());
    assert_eq!(app.active_deploy_count(), 1);
    match &effects[..] {
        [Effect::Notify(ToastKind::Info, note), Effect::StartDeploy(order)] => {
            assert_eq!(note, "Deploying web to Phone");
            assert_eq!(order.deploy_id, 1);
            assert_eq!(order.name, "web");
            assert_eq!(order.runtime, "python");
            assert_eq!(order.source_path, "/src/web");
            assert_eq!(order.env_vars.len(), 1);
            assert!(order.github_url.is_none());
            assert!(order.github_token.is_none());
        }
        _ => panic!("expected a notification and a deploy"),
    }
}

#[test]
fn github_deploy_uses_selected_token() {
    let mut app = connected_app();
    filled_deploy_form(&mut app);
    update(&mut app, Message::SetNewTokenLabel(" Work ".into()));
    update(&mut app, Message::SetNewTokenValue(" ghp_123 ".into()));
    let effects = update(&mut app, Message::SaveGithubToken);
    assert!(matches!(&effects[..], [Effect::SaveGithubTokens]));
    assert_eq!(app.github_tokens.len(), 1);
    assert_eq!(app.github_tokens[0].label, "Work");
    assert_eq!(app.selected_github_token.as_deref(), Some("Work"));
    update(&mut app, Message::ToggleGithub);
    update(&mut app, Message::SetDeployGithubUrl(" https://github.com/a/b ".into()));
    let effects = update(&mut app, Message::SubmitDeploy);
    match &effects[..] {
        [_, Effect::StartDeploy(order)] => {
            assert_eq!(order.source_path, "");
            assert_eq!(order.github_url.as_deref(), Some("https://github.com/a/b"));
            assert_eq!(order.github_token.as_deref(), Some("ghp_123"));
        }
        _ => panic!("expected a deploy"),
    }
}

#[test]
fn deploy_events_update_the_job() {
    let mut app = connected_app();
    filled_deploy_form(&mut app);
    update(&mut app, Message::SubmitDeploy);
    update(&mut app, Message::DeployStatus(1, "sending".into()));
    assert_eq!(app.deploy_jobs[0].status, "sending");
    assert_eq!(app.deploy_jobs[0].latest_log(), Some("[sending]"));
    update(
        &mut app,
        Message::DeployEvent(
            1,
            DeployEvent {
                event: Some(Event::Progress { stage: "building".into(), percent_text: "40".into() }),
            },
        ),
    );
    assert_eq!(app.deploy_jobs[0].status, "building");
    assert_eq!(app.deploy_jobs[0].latest_log(), Some("[40%] building"));
    update(
        &mut app,
        Message::DeployEvent(
            1,
            DeployEvent { event: Some(Event::Log { line: "oops".into(), is_stderr: true }) },
        ),
    );
    assert_eq!(app.deploy_jobs[0].latest_log(), Some("[err] oops"));
    let effects = update(
        &mut app,
        Message::DeployEvent(1, DeployEvent { event: Some(Event::Complete { app_id: "app-7".into() }) }),
    );
    let job = &app.deploy_jobs[0];
    assert_eq!(job.status, "complete");
    assert_eq!(job.app_id.as_deref(), Some("app-7"));
    assert_eq!(job.latest_log(), Some("\u{2705} Deployed \u{2014} app-7"));
    assert!(matches!(&effects[0], Effect::Notify(ToastKind::Info, m) if m == "Deployed web"));
    assert!(is_refresh_pair(&effects[1..], 0));
    let ended = update(&mut app, Message::DeployStreamEnded(1));
    assert!(is_refresh_pair(&ended, 0));
    assert_eq!(app.deploy_jobs[0].status, "complete");
}

#[test]
fn stream_end_fails_an_unfinished_deploy() {
    let mut app = connected_app();
    filled_deploy_form(&mut app);
    update(&mut app, Message::SubmitDeploy);
    let effects = update(&mut app, Message::DeployStreamEnded(1));
    let job = &app.deploy_jobs[0];
    assert_eq!(job.status, "failed");
    assert_eq!(job.error.as_deref(), Some("deploy stream ended unexpectedly"));
    assert_eq!(job.latest_log(), Some("\u{274c} deploy stream ended unexpectedly"));
    assert!(matches!(&effects[2], Effect::Notify(ToastKind::Error, m) if m == "Deploy web failed: deploy stream ended unexpectedly"));
}

#[test]
fn deploy_error_and_clearing_finished_jobs() {
    let mut app = connected_app();
    filled_deploy_form(&mut app);
    update(&mut app, Message::SubmitDeploy);
    update(&mut app, Message::SubmitDeploy);
    assert_eq!(app.deploy_jobs.len(), 2);
    let effects = update(&mut app, Message::DeployError(1, "no space".into()));
    assert!(matches!(&effects[0], Effect::Notify(ToastKind::Error, m) if m == "Deploy failed: no space"));
    assert_eq!(app.deploy_jobs[0].status, "failed");
    assert_eq!(app.active_deploy_count(), 1);
    update(&mut app, Message::ToggleDeployLog(1));
    assert_eq!(app.expanded_deploy, Some(1));
    update(&mut app, Message::ClearFinishedDeploys);
    assert_eq!(app.deploy_jobs.len(), 1);
    assert_eq!(app.deploy_jobs[0].id, 2);
    assert!(app.expanded_deploy.is_none());
    update(&mut app, Message::ToggleDeployLog(2));
    assert_eq!(app.expanded_deploy, Some(2));
    update(&mut app, Message::ToggleDeployLog(2));
    assert!(app.expanded_deploy.is_none());
}

#[test]
fn env_file_import_and_removal() {
    let mut app = connected_app();
    update(&mut app, Message::OpenDeploy);
    update(
        &mut app,
        Message::EnvFilePicked(
            "/p/.env".into(),
            vec![("A".into(), "1".into()), ("B".into(), "2".into())],
        ),
    );
    assert_eq!(app.deploy_env_vars.len(), 2);
    assert_eq!(app.toasts[0].message, "Imported 2 env vars from .env file");
    assert_eq!(app.toasts[0].kind, ToastKind::Info);
    update(&mut app, Message::RemoveEnvVar(0));
    assert_eq!(app.deploy_env_vars, vec![("B".to_string(), "2".to_string())]);
    update(&mut app, Message::RemoveEnvVar(5));
    assert_eq!(app.deploy_env_vars.len(), 1);
}

fn detail(id: &str) -> AppDetailResponse {
    AppDetailResponse {
        app_id: id.into(),
        name: "web".into(),
        runtime: 1,
        status: 3,
        build_command: "pip install".into(),
        run_command: "python app.py".into(),
        env_vars: Vec::new(),
        created_at: None,
        updated_at: None,
        restart_count: 0,
        pid: None,
    }
}

#[test]
fn app_actions_delete_and_update() {
    let mut app = connected_app();
    update(&mut app, Message::SelectApp("a1".into(), 0));
    update(&mut app, Message::AppDetail(detail("a1")));
    let effects = update(&mut app, Message::RestartApp("a1".into(), 0));
    assert!(matches!(&effects[..], [Effect::AppAction(id, 0, AppAction::Restart)] if id == "a1"));
    update(&mut app, Message::DeleteApp("other".into(), 0));
    assert!(app.confirm_delete.is_none());
    update(&mut app, Message::DeleteApp("a1".into(), 0));
    assert_eq!(app.confirm_delete, Some(("a1".to_string(), "web".to_string(), 0)));
    let effects = update(&mut app, Message::ConfirmDelete("a1".into(), "web".into(), 0));
    assert!(app.confirm_delete.is_none());
    assert!(matches!(&effects[..], [Effect::DeleteApp(id, 0)] if id == "a1"));
    update(&mut app, Message::OpenUpdate("a1".into()));
    assert!(app.update_open);
    assert_eq!(app.update_build, "pip install");
    update(&mut app, Message::SetUpdateBuild("   ".into()));
    let effects = update(&mut app, Message::ConfirmUpdate("a1".into()));
    assert!(!app.update_open);
    match &effects[..] {
        [Effect::UpdateApp(id, 0, build, run)] => {
            assert_eq!(id, "a1");
            assert!(build.is_none());
            assert_eq!(run.as_deref(), Some("python app.py"));
        }
        _ => panic!("expected an update"),
    }
}

#[test]
fn tick_refreshes_and_copies_shell_output() {
    let mut app = connected_app();
    update(&mut app, Message::SelectApp("a1".into(), 0));
    let effects = update(&mut app, Message::Tick(vec!["ignored".into()]));
    assert_eq!(effects.len(), 4);
    assert!(matches!(&effects[2], Effect::FetchDetail(id, 0) if id == "a1"));
    assert!(matches!(&effects[3], Effect::FetchLogs(id, 0) if id == "a1"));
    assert!(app.terminal_output.is_empty());
    let effects = update(&mut app, Message::OpenTerminal(0));
    assert!(matches!(&effects[0], Effect::OpenShell(0)));
    assert!(matches!(&effects[1], Effect::Notify(ToastKind::Info, m) if m == "Shell opened on Phone"));
    assert!(matches!(app.screen, Screen::Terminal(0)));
    update(&mut app, Message::Tick(vec!["$ ls".into(), "a.txt".into()]));
    assert_eq!(app.terminal_output, vec!["$ ls".to_string(), "a.txt".to_string()]);
    update(&mut app, Message::SetTerminalInput("pwd".into()));
    let effects = update(&mut app, Message::SubmitShellCommand);
    assert!(matches!(&effects[..], [Effect::SendShellInput(s)] if s == "pwd\n"));
    assert!(app.terminal_input.is_empty());
    let effects = update(&mut app, Message::CloseTerminal);
    assert!(matches!(&effects[..], [Effect::CloseShell]));
    assert!(!app.terminal_open);
    assert!(matches!(app.screen, Screen::Dashboard));
}

#[test]
fn github_token_records_get_fresh_ids() {
    let t = GithubToken::new("Personal".into(), "ghp".into());
    assert_eq!(t.label, "Personal");
    assert_eq!(t.id.len(), 36);
    assert_ne!(t.id, GithubToken::new("Personal".into(), "ghp".into()).id);
}

#[test]
fn main_area_and_top_bar() {
    let (mut app, _) = init(Vec::new(), Vec::new());
    assert_eq!(app.main_content(), MainContent::ConnectionForm);
    assert_eq!(app.top_status(), "No servers");
    update(&mut app, Message::HideAddForm);
    assert_eq!(app.main_content(), MainContent::Welcome);
    let mut app = connected_app();
    assert_eq!(app.main_content(), MainContent::Dashboard);
    assert_eq!(app.top_status(), "1/1 servers connected");
    update(&mut app, Message::SelectApp("a".into(), 0));
    assert_eq!(app.main_content(), MainContent::AppDetail);
    update(&mut app, Message::OpenTerminal(0));
    assert_eq!(app.main_content(), MainContent::Terminal);
}

#[test]
fn theme_colors_of_states() {
    assert_eq!(deploy_status_color("complete"), ThemeColor::Success);
    assert_eq!(deploy_status_color("failed"), ThemeColor::Danger);
    assert_eq!(deploy_status_color("building"), ThemeColor::Accent);
    assert_eq!(deploy_status_color("extracting"), ThemeColor::Warning);
    assert_eq!(app_status_color(2), ThemeColor::Warning);
    assert_eq!(app_status_color(3), ThemeColor::Success);
    assert_eq!(app_status_color(6), ThemeColor::Danger);
    assert_eq!(app_status_color(4), ThemeColor::Muted);
    assert_eq!(runtime_color(1), ThemeColor::Accent);
    assert_eq!(runtime_color(4), ThemeColor::Warning);
    assert_eq!(runtime_color(0), ThemeColor::Muted);
    assert_eq!(detail_status_label(5), "crashed");
    assert_eq!(app_status_label(9), "unknown");
}

#[test]
fn deploy_form_defaults_are_the_runtime_defaults() {
    for r in rover::status::Runtime::all() {
        let name = r.to_string();
        assert_eq!(rover::client::app::default_run_for(&name), r.default_run_command());
        assert_eq!(rover::client::app::default_build_for(&name), r.default_build_command());
    }
    assert_eq!(rover::client::app::default_run_for("python"), "python3 main.py");
    assert_eq!(rover::client::app::default_run_for("cobol"), "");
    assert_eq!(rover::client::app::default_build_for("cobol"), "");
}
