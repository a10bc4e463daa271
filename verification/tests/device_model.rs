use rover::client::app::ToastKind;
use rover::client::device::{device_error, init, title, update, Message, RoverApp};
use rover::client::update::Effect;
use rover::profile::ConnectionProfile;
use rover::proto::{AppSummary, DeployEvent, Event};

fn profile(name: &str, key: Option<&str>) -> ConnectionProfile {
    ConnectionProfile {
        id: format!("id-{name}"),
        name: name.to_string(),
        address: format!("{name}.lan:9050"),
        api_key: key.map(|k| k.to_string()),
        last_used: None,
    }
}

fn summary(id: &str) -> AppSummary {
    AppSummary { app_id: id.into(), name: id.into(), runtime: 2, status: 3, created_at: None, updated_at: None }
}

fn two_devices() -> RoverApp {
    let (mut app, effects) = init(vec![profile("a", Some("ka")), profile("b", Some("kb"))], Vec::new());
    assert_eq!(effects.len(), 2);
    update(&mut app, Message::DevConnected(0, true));
    app
}

#[test]
fn start_state_and_title() {
    let (app, effects) = init(Vec::new(), Vec::new());
    assert!(app.show_add);
    assert_eq!(app.active, 0);
    assert!(effects.is_empty());
    assert_eq!(title(&app), "Rover");
    let app = two_devices();
    assert_eq!(title(&app), "Rover \u{2014} a");
}

#[test]
fn selecting_an_idle_device_reconnects_it() {
    let mut app = two_devices();
    update(&mut app, Message::SelectApp("x".into()));
    let effects = update(&mut app, Message::Select(1));
    assert_eq!(app.active, 1);
    assert!(app.selected_app.is_none());
    assert!(app.devices[1].connecting);
    assert!(matches!(&effects[..], [Effect::Reconnect(1, addr, key)] if addr == "b.lan:9050" && key == "kb"));
    let again = update(&mut app, Message::Select(1));
    assert!(again.is_empty());
    let none = update(&mut app, Message::Select(9));
    assert!(none.is_empty());
    assert_eq!(app.active, 1);
}

#[test]
fn device_errors_show_only_for_the_active_device() {
    let mut app = two_devices();
    update(&mut app, Message::DevError(1, "refused".into()));
    assert!(app.toasts.is_empty());
    assert_eq!(app.devices[1].err.as_deref(), Some("refused"));
    update(&mut app, Message::DevError(0, "timeout".into()));
    assert_eq!(app.toasts[0].message, "Connection error (a): timeout");
    assert_eq!(app.toasts[0].kind, ToastKind::Error);
    assert_eq!(device_error("a", "Not connected"), "a: Not connected");
}

#[test]
fn pairing_adds_and_activates_a_device() {
    let mut app = two_devices();
    update(&mut app, Message::SetAddr(" c.lan:9050 ".into()));
    update(&mut app, Message::SetToken("tok".into()));
    let effects = update(&mut app, Message::Connect);
    assert!(matches!(&effects[..], [Effect::Pair(a, t, n)] if a == "c.lan:9050" && t == "tok" && n == "c.lan:9050"));
    let effects = update(&mut app, Message::DevAdded("c".into(), "kc".into(), 99));
    assert_eq!(app.devices.len(), 3);
    assert_eq!(app.active, 2);
    assert!(app.addr.is_empty());
    assert!(matches!(&effects[0], Effect::SaveProfile(p) if p.name == "c" && p.address == "c.lan:9050" && p.last_used == Some(99)));
    assert!(matches!(&effects[1..], [Effect::RefreshData(2), Effect::RefreshApps(2)]));
}

#[test]
fn deleting_devices_keeps_the_active_index_valid() {
    let mut app = two_devices();
    update(&mut app, Message::Select(1));
    update(&mut app, Message::DeleteDevice(1));
    assert_eq!(app.confirm_device_delete, Some(1));
    let effects = update(&mut app, Message::ConfirmDeleteDevice(1));
    assert!(matches!(&effects[..], [Effect::RemoveProfile(id)] if id == "id-b"));
    assert_eq!(app.devices.len(), 1);
    assert_eq!(app.active, 0);
    assert!(app.confirm_device_delete.is_none());
    update(&mut app, Message::ConfirmDeleteDevice(0));
    assert!(app.devices.is_empty());
    assert_eq!(app.active, 0);
}

#[test]
fn app_list_and_selection() {
    let mut app = two_devices();
    update(&mut app, Message::Apps(vec![summary("web")]));
    assert_eq!(app.devices[0].apps.len(), 1);
    let effects = update(&mut app, Message::SelectApp("web".into()));
    assert!(matches!(&effects[..], [Effect::FetchDetail(id, 0)] if id == "web"));
    let effects = update(&mut app, Message::Tick);
    assert_eq!(effects.len(), 4);
    update(&mut app, Message::Apps(vec![summary("api")]));
    assert!(app.selected_app.is_none());
    let effects = update(&mut app, Message::Disconnect);
    assert!(matches!(&effects[..], [Effect::DropClient(0)]));
    assert!(update(&mut app, Message::Tick).is_empty());
}

#[test]
fn single_device_deploys() {
    let mut app = two_devices();
    update(&mut app, Message::OpenDeploy);
    update(&mut app, Message::SetDName(" api ".into()));
    update(&mut app, Message::SetDRuntime("python".into()));
    assert_eq!(app.deploy_build, "pip install -r requirements.txt");
    assert_eq!(app.deploy_run, "python3 main.py");
    update(&mut app, Message::SetDPath("/src/api".into()));
    let effects = update(&mut app, Message::SubmitDeploy);
    assert!(matches!(&effects[0], Effect::Notify(ToastKind::Info, m) if m == "Deploying api in the background"));
    assert!(matches!(&effects[1], Effect::StartDeploy(o) if o.server_index == 0 && o.name == "api"));
    assert_eq!(app.active_deploys[0].status, "packaging");
    assert_eq!(app.active_deploy_count(), 1);
    let effects = update(
        &mut app,
        Message::DeployEvent(1, DeployEvent { event: Some(Event::Error { message: "boom".into() }) }),
    );
    assert!(matches!(&effects[..], [Effect::Notify(ToastKind::Error, m), Effect::RefreshApps(0)] if m == "Deploy api failed: boom"));
    assert_eq!(app.active_deploys[0].status, "failed");
    assert_eq!(app.active_deploys[0].latest_log(), Some("\u{274c} boom"));
    update(&mut app, Message::SubmitDeploy);
    let effects = update(&mut app, Message::DeployStreamEnded(2));
    assert!(matches!(&effects[1], Effect::Notify(ToastKind::Error, m) if m == "Deploy api failed: deploy stream ended before completion"));
    update(&mut app, Message::ClearFinishedDeploys);
    assert!(app.active_deploys.is_empty());
}

#[test]
fn env_file_and_toasts() {
    let mut app = two_devices();
    update(&mut app, Message::EnvFilePicked("/x/.env".into(), vec![("K".into(), "V".into())]));
    assert_eq!(app.deploy_env_file, "/x/.env");
    assert_eq!(app.toasts[0].message, "Imported 1 env vars");
    update(&mut app, Message::Toast("bad".into()));
    assert_eq!(app.toasts[0].kind, ToastKind::Error);
    update(&mut app, Message::Dismiss(0));
    assert!(app.toasts.is_empty());
}

#[test]
fn status_bar_reports_connection_and_deploys() {
    let (empty, _) = init(Vec::new(), Vec::new());
    assert_eq!(empty.status_text(), "No devices");
    let mut app = two_devices();
    assert_eq!(app.status_text(), "\u{25cf} a \u{2014} a.lan:9050");
    update(&mut app, Message::OpenDeploy);
    update(&mut app, Message::SetDName("w".into()));
    update(&mut app, Message::SetDRuntime("go".into()));
    update(&mut app, Message::SetDPath("/w".into()));
    update(&mut app, Message::SubmitDeploy);
    assert_eq!(app.status_text(), "\u{25cf} a \u{2014} a.lan:9050 \u{2014} 1 deploy running");
    update(&mut app, Message::Select(1));
    assert_eq!(app.status_text(), "\u{25cc} Connecting to b... \u{2014} 1 deploy running");
    update(&mut app, Message::DevError(1, "x".into()));
    update(&mut app, Message::DeployErr(1, "y".into()));
    assert_eq!(app.status_text(), "\u{2715} b");
}
