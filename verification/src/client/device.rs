//! The single-device client: one server (device) is active at a time, and
//! every request goes to it. Its state and how each message changes it; the
//! work that leaves the process is returned as effects, with the active
//! device's index standing for the server.
use vstd::prelude::*;
use crate::client::app::{
    default_build_for, default_build_text, default_run_for, default_run_text, deploy_in_progress,
    DeployState, GithubToken, ToastKind, ToastState, TokenView,
};
use crate::client::format::push_str;
use crate::client::jobs::{
    find_state, find_state_mut, lemma_state_index_from, lemma_state_index_none,
    lemma_states_view_update, record_state_event, record_state_failure, record_state_status,
    state_after_event, state_after_failure, state_after_status, state_index, state_view,
    states_view, update_state, StateView,
};
use crate::client::model::{opt_view, pairs_view};
use crate::client::update::{
    append_effects, effects_view, find_token, has_app, has_app_id, no_effects, non_empty,
    one_effect, push_effect, token_for_label_from, two_effects, AppAction, DeployOrder, Effect,
    EffectView, OrderView,
};
use crate::num::{dec, push_dec};
use crate::profile::{ConnectionProfile, ProfileView};
use crate::proto::{AppDetailResponse, AppSummary, DeployEvent, Event, ServerInfo, ServerMetrics};
use crate::text::{concat, concat3, owned, string_from_chars, trim, trimmed};

verus! {

/// One device the client knows about.
pub struct DeviceState {
    pub profile: ConnectionProfile,
    pub connected: bool,
    pub info: Option<ServerInfo>,
    pub metrics: Option<ServerMetrics>,
    pub apps: Vec<AppSummary>,
    pub connecting: bool,
    pub err: Option<String>,
}

/// A device as mathematical values.
pub struct DeviceView {
    pub profile: ProfileView,
    pub connected: bool,
    pub info: Option<ServerInfo>,
    pub metrics: Option<ServerMetrics>,
    pub apps: Seq<AppSummary>,
    pub connecting: bool,
    pub err: Option<Seq<char>>,
}

impl View for DeviceState {
    type V = DeviceView;

    open spec fn view(&self) -> DeviceView {
        DeviceView {
            profile: self.profile@,
            connected: self.connected,
            info: self.info,
            metrics: self.metrics,
            apps: self.apps@,
            connecting: self.connecting,
            err: opt_view(self.err),
        }
    }
}

impl DeviceState {
    /// A disconnected device for a saved profile.
    pub fn from_profile(profile: ConnectionProfile) -> (d: Self)
        ensures
            d@ == (DeviceView {
                profile: profile@,
                connected: false,
                info: None,
                metrics: None,
                apps: seq![],
                connecting: false,
                err: None,
            }),
    {
        let d = DeviceState {
            profile,
            connected: false,
            info: None,
            metrics: None,
            apps: Vec::new(),
            connecting: false,
            err: None,
        };
        assert(d@.apps =~= Seq::<AppSummary>::empty());
        d
    }
}

/// The root state of the single-device client.
pub struct RoverApp {
    pub devices: Vec<DeviceState>,
    pub active: usize,
    pub show_add: bool,
    pub addr: String,
    pub token: String,
    pub name: String,
    pub error: Option<String>,
    pub selected_app: Option<String>,
    pub app_detail: Option<AppDetailResponse>,
    pub log_entries: Vec<String>,
    pub deploy_open: bool,
    pub deploy_name: String,
    pub deploy_runtime: String,
    pub deploy_build: String,
    pub deploy_run: String,
    pub deploy_path: String,
    pub deploy_use_github: bool,
    pub deploy_github_url: String,
    pub deploy_env_file: String,
    pub github_tokens: Vec<GithubToken>,
    pub selected_github_token: Option<String>,
    pub new_token_label: String,
    pub new_token_value: String,
    pub deploy_env_vars: Vec<(String, String)>,
    pub deploy_env_key: String,
    pub deploy_env_value: String,
    pub next_deploy_id: usize,
    pub active_deploys: Vec<DeployState>,
    pub expanded_deploy: Option<usize>,
    pub confirm_delete: Option<(String, String)>,
    pub confirm_device_delete: Option<usize>,
    pub editing_device: Option<usize>,
    pub rename_value: String,
    pub update_open: bool,
    pub update_build: String,
    pub update_run: String,
    pub toasts: Vec<ToastState>,
}

/// The single-device client state as mathematical values.
pub struct DeviceAppView {
    pub devices: Seq<DeviceView>,
    pub active: usize,
    pub show_add: bool,
    pub addr: Seq<char>,
    pub token: Seq<char>,
    pub name: Seq<char>,
    pub error: Option<Seq<char>>,
    pub selected_app: Option<Seq<char>>,
    pub app_detail: Option<AppDetailResponse>,
    pub log_entries: Seq<Seq<char>>,
    pub deploy_open: bool,
    pub deploy_name: Seq<char>,
    pub deploy_runtime: Seq<char>,
    pub deploy_build: Seq<char>,
    pub deploy_run: Seq<char>,
    pub deploy_path: Seq<char>,
    pub deploy_use_github: bool,
    pub deploy_github_url: Seq<char>,
    pub deploy_env_file: Seq<char>,
    pub github_tokens: Seq<TokenView>,
    pub selected_github_token: Option<Seq<char>>,
    pub new_token_label: Seq<char>,
    pub new_token_value: Seq<char>,
    pub deploy_env_vars: Seq<(Seq<char>, Seq<char>)>,
    pub deploy_env_key: Seq<char>,
    pub deploy_env_value: Seq<char>,
    pub next_deploy_id: usize,
    pub active_deploys: Seq<StateView>,
    pub expanded_deploy: Option<usize>,
    pub confirm_delete: Option<(Seq<char>, Seq<char>)>,
    pub confirm_device_delete: Option<usize>,
    pub editing_device: Option<usize>,
    pub rename_value: Seq<char>,
    pub update_open: bool,
    pub update_build: Seq<char>,
    pub update_run: Seq<char>,
    pub toasts: Seq<(Seq<char>, ToastKind)>,
}

impl View for RoverApp {
    type V = DeviceAppView;

    open spec fn view(&self) -> DeviceAppView {
        DeviceAppView {
            devices: self.devices@.map_values(|d: DeviceState| d@),
            active: self.active,
            show_add: self.show_add,
            addr: self.addr@,
            token: self.token@,
            name: self.name@,
            error: opt_view(self.error),
            selected_app: opt_view(self.selected_app),
            app_detail: self.app_detail,
            log_entries: self.log_entries.deep_view(),
            deploy_open: self.deploy_open,
            deploy_name: self.deploy_name@,
            deploy_runtime: self.deploy_runtime@,
            deploy_build: self.deploy_build@,
            deploy_run: self.deploy_run@,
            deploy_path: self.deploy_path@,
            deploy_use_github: self.deploy_use_github,
            deploy_github_url: self.deploy_github_url@,
            deploy_env_file: self.deploy_env_file@,
            github_tokens: self.github_tokens@.map_values(|t: GithubToken| t@),
            selected_github_token: opt_view(self.selected_github_token),
            new_token_label: self.new_token_label@,
            new_token_value: self.new_token_value@,
            deploy_env_vars: pairs_view(self.deploy_env_vars@),
            deploy_env_key: self.deploy_env_key@,
            deploy_env_value: self.deploy_env_value@,
            next_deploy_id: self.next_deploy_id,
            active_deploys: states_view(self.active_deploys@),
            expanded_deploy: self.expanded_deploy,
            confirm_delete: match self.confirm_delete {
                Some((a, b)) => Some((a@, b@)),
                None => None,
            },
            confirm_device_delete: self.confirm_device_delete,
            editing_device: self.editing_device,
            rename_value: self.rename_value@,
            update_open: self.update_open,
            update_build: self.update_build@,
            update_run: self.update_run@,
            toasts: self.toasts@.map_values(|t: ToastState| (t.message@, t.kind)),
        }
    }
}

/// Every UI event and every reply of outside work.
pub enum Message {
    Noop,
    Tick,
    Select(usize),
    ShowAdd,
    HideAdd,
    SetAddr(String),
    SetToken(String),
    SetName(String),
    Connect,
    /// Pairing succeeded: the name, the API key, and the time in
    /// milliseconds since the Unix epoch.
    DevAdded(String, String, i64),
    DevAddErr(String),
    /// Whether reconnecting to a device succeeded.
    DevConnected(usize, bool),
    DevError(usize, String),
    Disconnect,
    StartRename(usize),
    SetRenameValue(String),
    ConfirmRename(usize),
    CancelRename,
    DeleteDevice(usize),
    CancelDeleteDevice,
    ConfirmDeleteDevice(usize),
    Data(ServerInfo, ServerMetrics),
    Apps(Vec<AppSummary>),
    SelectApp(String),
    Detail(AppDetailResponse),
    Logs(Vec<String>),
    Back,
    Start(String),
    Stop(String),
    Restart(String),
    Delete(String),
    CancelDelete,
    ConfirmDelete(String, String),
    OpenDeploy,
    CloseDeploy,
    SetDName(String),
    SetDRuntime(String),
    SetDBuild(String),
    SetDRun(String),
    ToggleGithub,
    SetDGithubUrl(String),
    SelectGithubToken(Option<String>),
    SetNewTokenLabel(String),
    SetNewTokenValue(String),
    SaveGithubToken,
    SetDPath(String),
    SetDEnvFile(String),
    PickEnvFile,
    EnvFilePicked(String, Vec<(String, String)>),
    PickPath,
    SetDEKey(String),
    SetDEValue(String),
    AddDEVar,
    RemoveDEVar(usize),
    SubmitDeploy,
    DeployStatus(usize, String),
    DeployEvent(usize, DeployEvent),
    DeployStreamEnded(usize),
    DeployErr(usize, String),
    ToggleDeployLog(usize),
    ClearFinishedDeploys,
    OpenUpdate(String),
    CloseUpdate,
    SetUpdateBuild(String),
    SetUpdateRun(String),
    ConfirmUpdate(String),
    Info(String),
    Toast(String),
    Dismiss(usize),
    Copy(String),
}

/// The state with only this notification shown.
pub open spec fn toast(a: DeviceAppView, message: Seq<char>, kind: ToastKind) -> DeviceAppView {
    DeviceAppView { toasts: seq![(message, kind)], ..a }
}

/// The state with no app selected, no detail and no log lines.
pub open spec fn clear_selection(a: DeviceAppView) -> DeviceAppView {
    DeviceAppView { selected_app: None, app_detail: None, log_entries: seq![], ..a }
}

/// The state with device `i` replaced.
pub open spec fn with_device(a: DeviceAppView, i: int, d: DeviceView) -> DeviceAppView {
    DeviceAppView { devices: a.devices.update(i, d), ..a }
}

/// The refreshes of the active device.
pub open spec fn active_refresh(a: DeviceAppView) -> Seq<EffectView> {
    seq![EffectView::RefreshData(a.active), EffectView::RefreshApps(a.active)]
}

/// The name of the active device, or `"unknown"`.
pub open spec fn active_name(a: DeviceAppView) -> Seq<char> {
    if a.active < a.devices.len() {
        a.devices[a.active as int].profile.name
    } else {
        "unknown"@
    }
}

/// Selecting a device makes it active and clears the selection; an idle,
/// disconnected device with an API key is reconnected.
pub open spec fn select_step(a: DeviceAppView, i: usize) -> (DeviceAppView, Seq<EffectView>) {
    if i < a.devices.len() {
        let a1 = clear_selection(DeviceAppView { active: i, ..a });
        let d = a.devices[i as int];
        if !d.connected && !d.connecting && d.profile.api_key is Some {
            (
                with_device(a1, i as int, DeviceView { connecting: true, err: None, ..d }),
                seq![EffectView::Reconnect(i, d.profile.address, d.profile.api_key->Some_0)],
            )
        } else {
            (a1, seq![])
        }
    } else {
        (a, seq![])
    }
}

/// Connecting: the trimmed address and pairing token are required; the name
/// defaults to the address.
pub open spec fn connect_step(a: DeviceAppView) -> (DeviceAppView, Seq<EffectView>) {
    let addr = trim(a.addr);
    let token = trim(a.token);
    let name = if trim(a.name).len() == 0 {
        addr
    } else {
        trim(a.name)
    };
    if addr.len() == 0 || token.len() == 0 {
        (DeviceAppView { error: Some("Address and pairing token are required"@), ..a }, seq![])
    } else {
        (DeviceAppView { error: None, ..a }, seq![EffectView::Pair(addr, token, name)])
    }
}

/// A device was paired: it is added, saved with a fresh id, made active and
/// refreshed; the form and the selection are cleared.
pub open spec fn dev_added_post(
    a: DeviceAppView,
    name: Seq<char>,
    api_key: Seq<char>,
    now: i64,
    b: DeviceAppView,
    e: Seq<EffectView>,
) -> bool {
    let idx = a.devices.len() as usize;
    e.len() == 3 && match e[0] {
        EffectView::SaveProfile(p) => {
            &&& p == (ProfileView {
                id: p.id,
                name,
                address: trim(a.addr),
                api_key: Some(api_key),
                last_used: Some(now),
            })
            &&& crate::ids::is_uuid_v4_text(p.id)
            &&& e[1] == EffectView::RefreshData(idx)
            &&& e[2] == EffectView::RefreshApps(idx)
            &&& b == (DeviceAppView {
                devices: a.devices.push(
                    DeviceView {
                        profile: p,
                        connected: true,
                        info: None,
                        metrics: None,
                        apps: seq![],
                        connecting: false,
                        err: None,
                    },
                ),
                active: idx,
                show_add: false,
                addr: seq![],
                token: seq![],
                name: seq![],
                error: None,
                selected_app: None,
                app_detail: None,
                log_entries: seq![],
                ..a
            })
        },
        _ => false,
    }
}

/// A reconnection finished; when it succeeded the active device is
/// refreshed.
pub open spec fn dev_connected_step(a: DeviceAppView, idx: usize, ok: bool) -> (
    DeviceAppView,
    Seq<EffectView>,
) {
    if idx < a.devices.len() {
        let d = a.devices[idx as int];
        (
            with_device(a, idx as int, DeviceView { connected: ok, connecting: false, err: None, ..d }),
            if ok {
                active_refresh(a)
            } else {
                seq![]
            },
        )
    } else {
        (a, seq![])
    }
}

/// A device reported an error; it is shown when the device is the active
/// one.
pub open spec fn dev_error_step(a: DeviceAppView, idx: usize, err: Seq<char>) -> DeviceAppView {
    let a1 = if idx < a.devices.len() {
        let d = a.devices[idx as int];
        with_device(a, idx as int, DeviceView { connecting: false, err: Some(err), ..d })
    } else {
        a
    };
    let name = if idx < a.devices.len() {
        a.devices[idx as int].profile.name
    } else {
        "unknown"@
    };
    if a.active == idx {
        toast(a1, "Connection error ("@ + name + "): "@ + err, ToastKind::Error)
    } else {
        a1
    }
}

/// Disconnecting forgets what was fetched from the active device and clears
/// the selection.
pub open spec fn disconnect_step(a: DeviceAppView) -> (DeviceAppView, Seq<EffectView>) {
    if a.active < a.devices.len() {
        let d = a.devices[a.active as int];
        (
            clear_selection(
                with_device(
                    a,
                    a.active as int,
                    DeviceView { connected: false, info: None, metrics: None, apps: seq![], err: None, ..d },
                ),
            ),
            seq![EffectView::DropClient(a.active)],
        )
    } else {
        (clear_selection(a), seq![])
    }
}

/// Renaming keeps a non-empty trimmed name and saves the profile.
pub open spec fn confirm_rename_step(a: DeviceAppView, idx: usize) -> (DeviceAppView, Seq<EffectView>) {
    let new_name = trim(a.rename_value);
    let (a1, e) = if new_name.len() > 0 && idx < a.devices.len() {
        let d = a.devices[idx as int];
        let p = ProfileView { name: new_name, ..d.profile };
        (with_device(a, idx as int, DeviceView { profile: p, ..d }), seq![EffectView::SaveProfile(p)])
    } else {
        (a, seq![])
    };
    (DeviceAppView { editing_device: None, rename_value: seq![], ..a1 }, e)
}

/// Deleting a device removes it and its saved profile; the active index
/// stays within the remaining devices.
pub open spec fn delete_device_step(a: DeviceAppView, idx: usize) -> (DeviceAppView, Seq<EffectView>) {
    let a0 = DeviceAppView { confirm_device_delete: None, ..a };
    if idx < a.devices.len() {
        let ds = a.devices.remove(idx as int);
        let a1 = DeviceAppView { devices: ds, ..a0 };
        (
            if ds.len() == 0 {
                DeviceAppView { active: 0, selected_app: None, app_detail: None, ..a1 }
            } else if a.active >= ds.len() {
                DeviceAppView { active: (ds.len() - 1) as usize, ..a1 }
            } else {
                a1
            },
            seq![EffectView::RemoveProfile(a.devices[idx as int].profile.id)],
        )
    } else {
        (a0, seq![])
    }
}

/// A new app list for the active device; the selection is cleared when its
/// app is gone.
pub open spec fn apps_step(a: DeviceAppView, apps: Seq<AppSummary>) -> DeviceAppView {
    if a.active < a.devices.len() {
        let a1 = match a.selected_app {
            Some(s) => if !has_app_id(apps, s) {
                clear_selection(a)
            } else {
                a
            },
            None => a,
        };
        with_device(a1, a.active as int, DeviceView { apps, ..a.devices[a.active as int] })
    } else {
        a
    }
}

/// Choosing a runtime in the deploy form proposes its default commands.
pub open spec fn runtime_step(a: DeviceAppView, v: Seq<char>) -> DeviceAppView {
    if v.len() == 0 {
        DeviceAppView { deploy_runtime: v, ..a }
    } else {
        DeviceAppView {
            deploy_runtime: v,
            deploy_build: default_build_text(v),
            deploy_run: default_run_text(v),
            ..a
        }
    }
}

/// Opening the deploy form starts from an empty form.
pub open spec fn open_deploy_step(a: DeviceAppView) -> DeviceAppView {
    DeviceAppView {
        deploy_open: true,
        deploy_name: seq![],
        deploy_runtime: seq![],
        deploy_build: seq![],
        deploy_run: seq![],
        deploy_path: seq![],
        deploy_use_github: false,
        deploy_github_url: seq![],
        deploy_env_file: seq![],
        deploy_env_vars: seq![],
        deploy_env_key: seq![],
        deploy_env_value: seq![],
        ..a
    }
}

/// Saving a GitHub token needs a non-empty trimmed label and value; the token
/// gets a fresh id and becomes the selected one.
pub open spec fn save_token_post(a: DeviceAppView, b: DeviceAppView, e: Seq<EffectView>) -> bool {
    let label = trim(a.new_token_label);
    let value = trim(a.new_token_value);
    if label.len() > 0 && value.len() > 0 {
        let t = b.github_tokens.last();
        &&& b.github_tokens.len() == a.github_tokens.len() + 1
        &&& t == (TokenView { id: t.id, label, token: value })
        &&& crate::ids::is_uuid_v4_text(t.id)
        &&& b == (DeviceAppView {
            github_tokens: a.github_tokens.push(t),
            selected_github_token: Some(label),
            new_token_label: seq![],
            new_token_value: seq![],
            ..a
        })
        &&& e == seq![EffectView::SaveGithubTokens]
    } else {
        b == a && e == Seq::<EffectView>::empty()
    }
}

/// Adding an env var needs a non-empty trimmed key.
pub open spec fn add_var_step(a: DeviceAppView) -> DeviceAppView {
    let key = trim(a.deploy_env_key);
    let value = trim(a.deploy_env_value);
    if key.len() > 0 {
        DeviceAppView {
            deploy_env_vars: a.deploy_env_vars.push((key, value)),
            deploy_env_key: seq![],
            deploy_env_value: seq![],
            ..a
        }
    } else {
        a
    }
}

/// Submitting the deploy form: a source (folder, or GitHub URL when GitHub
/// is chosen), a name and a runtime are required; the deploy goes to the
/// active device.
pub open spec fn submit_step(a: DeviceAppView) -> (DeviceAppView, Seq<EffectView>) {
    let use_github = a.deploy_use_github && trim(a.deploy_github_url).len() > 0;
    if (!use_github && a.deploy_path.len() == 0) || trim(a.deploy_name).len() == 0
        || a.deploy_runtime.len() == 0 {
        (a, seq![])
    } else {
        let id = a.next_deploy_id;
        let name = trim(a.deploy_name);
        let source_path = if a.deploy_use_github {
            seq![]
        } else {
            a.deploy_path
        };
        let order = OrderView {
            deploy_id: id,
            server_index: a.active,
            name,
            runtime: a.deploy_runtime,
            build_command: trim(a.deploy_build),
            run_command: trim(a.deploy_run),
            source_path,
            env_vars: a.deploy_env_vars,
            github_url: if use_github {
                Some(trim(a.deploy_github_url))
            } else {
                None
            },
            github_token: if a.deploy_use_github {
                match a.selected_github_token {
                    Some(l) => token_for_label_from(a.github_tokens, l, 0),
                    None => None,
                }
            } else {
                None
            },
        };
        let d = StateView {
            id,
            name,
            runtime: a.deploy_runtime,
            source_path,
            status: "packaging"@,
            logs: seq!["Packaging source..."@],
            app_id: None,
            error: None,
        };
        (
            DeviceAppView {
                next_deploy_id: (id + 1) as usize,
                active_deploys: a.active_deploys.push(d),
                expanded_deploy: Some(id),
                deploy_open: false,
                ..a
            },
            seq![
                EffectView::Notify(ToastKind::Info, "Deploying "@ + name + " in the background"@),
                EffectView::StartDeploy(order),
            ],
        )
    }
}

/// An event of a deploy stream is recorded; a completion or an error is
/// announced and the active device's apps refreshed.
pub open spec fn deploy_event_step(a: DeviceAppView, id: usize, ev: Option<Event>) -> (
    DeviceAppView,
    Seq<EffectView>,
) {
    let i = state_index(a.active_deploys, id);
    if i == -1 {
        (a, seq![])
    } else {
        let d = a.active_deploys[i];
        let a1 = DeviceAppView {
            active_deploys: a.active_deploys.update(i, state_after_event(d, ev)),
            ..a
        };
        match ev {
            Some(Event::Complete { .. }) => (
                a1,
                seq![
                    EffectView::Notify(ToastKind::Info, "Deployed "@ + d.name),
                    EffectView::RefreshApps(a.active),
                ],
            ),
            Some(Event::Error { message }) => (
                a1,
                seq![
                    EffectView::Notify(
                        ToastKind::Error,
                        "Deploy "@ + d.name + " failed: "@ + message@,
                    ),
                    EffectView::RefreshApps(a.active),
                ],
            ),
            _ => (a1, seq![]),
        }
    }
}

/// A deploy stream that ends while its deploy is in progress fails it; the
/// active device's apps are refreshed either way.
pub open spec fn stream_ended_step(a: DeviceAppView, id: usize) -> (DeviceAppView, Seq<EffectView>) {
    let i = state_index(a.active_deploys, id);
    let r = seq![EffectView::RefreshApps(a.active)];
    if i != -1 && deploy_in_progress(a.active_deploys[i].status) {
        let d = a.active_deploys[i];
        (
            DeviceAppView {
                active_deploys: a.active_deploys.update(
                    i,
                    state_after_failure(d, "deploy stream ended before completion"@),
                ),
                ..a
            },
            r + seq![
                EffectView::Notify(
                    ToastKind::Error,
                    "Deploy "@ + d.name + " failed: deploy stream ended before completion"@,
                ),
            ],
        )
    } else {
        (a, r)
    }
}

/// The deploys still in progress, in order.
pub open spec fn active_states(ds: Seq<StateView>) -> Seq<StateView>
    decreases ds.len(),
{
    if ds.len() == 0 {
        seq![]
    } else {
        active_states(ds.drop_last()) + if deploy_in_progress(ds.last().status) {
            seq![ds.last()]
        } else {
            seq![]
        }
    }
}

/// Whether some deploy has this id.
pub open spec fn has_state_id(ds: Seq<StateView>, id: usize) -> bool {
    exists|k: int| 0 <= k < ds.len() && (#[trigger] ds[k]).id == id
}

/// Clearing finished deploys keeps those in progress.
pub open spec fn clear_finished_step(a: DeviceAppView) -> DeviceAppView {
    let kept = active_states(a.active_deploys);
    DeviceAppView {
        active_deploys: kept,
        expanded_deploy: match a.expanded_deploy {
            Some(x) => if has_state_id(kept, x) {
                Some(x)
            } else {
                None
            },
            None => None,
        },
        ..a
    }
}

/// The periodic tick refreshes a connected active device and its selected
/// app.
pub open spec fn tick_effects(a: DeviceAppView) -> Seq<EffectView> {
    if a.active < a.devices.len() && a.devices[a.active as int].connected {
        active_refresh(a) + match a.selected_app {
            Some(id) => seq![
                EffectView::FetchDetail(id, a.active),
                EffectView::FetchLogs(id, a.active),
            ],
            None => seq![],
        }
    } else {
        seq![]
    }
}

/// Device management messages.
pub open spec fn post_devices(a: DeviceAppView, m: Message, b: DeviceAppView, e: Seq<EffectView>) -> bool {
    match m {
        Message::Noop => b == a && e == Seq::<EffectView>::empty(),
        Message::Tick => b == a && e == tick_effects(a),
        Message::Select(i) => (b, e) == select_step(a, i),
        Message::ShowAdd => b == (DeviceAppView { show_add: true, ..a }) && e == Seq::<
            EffectView,
        >::empty(),
        Message::HideAdd => b == (DeviceAppView {
            show_add: false,
            addr: seq![],
            token: seq![],
            name: seq![],
            error: None,
            ..a
        }) && e == Seq::<EffectView>::empty(),
        Message::SetAddr(v) => b == (DeviceAppView { addr: v@, ..a }) && e == Seq::<
            EffectView,
        >::empty(),
        Message::SetToken(v) => b == (DeviceAppView { token: v@, ..a }) && e == Seq::<
            EffectView,
        >::empty(),
        Message::SetName(v) => b == (DeviceAppView { name: v@, ..a }) && e == Seq::<
            EffectView,
        >::empty(),
        Message::Connect => (b, e) == connect_step(a),
        Message::DevAdded(name, key, now) => dev_added_post(a, name@, key@, now, b, e),
        Message::DevAddErr(err) => b == (DeviceAppView { error: Some(err@), ..a }) && e == Seq::<
            EffectView,
        >::empty(),
        Message::DevConnected(idx, ok) => (b, e) == dev_connected_step(a, idx, ok),
        Message::DevError(idx, err) => b == dev_error_step(a, idx, err@) && e == Seq::<
            EffectView,
        >::empty(),
        Message::Disconnect => (b, e) == disconnect_step(a),
        Message::StartRename(idx) => b == (if idx < a.devices.len() {
            DeviceAppView {
                rename_value: a.devices[idx as int].profile.name,
                editing_device: Some(idx),
                ..a
            }
        } else {
            a
        }) && e == Seq::<EffectView>::empty(),
        Message::SetRenameValue(v) => b == (DeviceAppView { rename_value: v@, ..a }) && e
            == Seq::<EffectView>::empty(),
        Message::ConfirmRename(idx) => (b, e) == confirm_rename_step(a, idx),
        Message::CancelRename => b == (DeviceAppView {
            editing_device: None,
            rename_value: seq![],
            ..a
        }) && e == Seq::<EffectView>::empty(),
        Message::DeleteDevice(idx) => b == (if idx < a.devices.len() {
            DeviceAppView { confirm_device_delete: Some(idx), ..a }
        } else {
            a
        }) && e == Seq::<EffectView>::empty(),
        Message::CancelDeleteDevice => b == (DeviceAppView { confirm_device_delete: None, ..a })
            && e == Seq::<EffectView>::empty(),
        Message::ConfirmDeleteDevice(idx) => (b, e) == delete_device_step(a, idx),
        Message::Data(info, metrics) => b == (if a.active < a.devices.len() {
            with_device(
                a,
                a.active as int,
                DeviceView {
                    info: Some(info),
                    metrics: Some(metrics),
                    ..a.devices[a.active as int]
                },
            )
        } else {
            a
        }) && e == Seq::<EffectView>::empty(),
        Message::Apps(list) => b == apps_step(a, list@) && e == Seq::<EffectView>::empty(),
        _ => post_apps(a, m, b, e),
    }
}

/// App and deploy form messages.
pub open spec fn post_apps(a: DeviceAppView, m: Message, b: DeviceAppView, e: Seq<EffectView>) -> bool {
    match m {
        Message::SelectApp(id) => b == (DeviceAppView {
            selected_app: Some(id@),
            app_detail: None,
            log_entries: seq![],
            ..a
        }) && e == seq![EffectView::FetchDetail(id@, a.active)],
        Message::Detail(d) => b == (DeviceAppView { app_detail: Some(d), ..a }) && e == Seq::<
            EffectView,
        >::empty(),
        Message::Logs(lines) => b == (DeviceAppView { log_entries: lines.deep_view(), ..a }) && e
            == Seq::<EffectView>::empty(),
        Message::Back => b == clear_selection(a) && e == Seq::<EffectView>::empty(),
        Message::Start(id) => b == a && e == seq![
            EffectView::AppAction(id@, a.active, AppAction::Start),
        ],
        Message::Stop(id) => b == a && e == seq![EffectView::AppAction(id@, a.active, AppAction::Stop)],
        Message::Restart(id) => b == a && e == seq![
            EffectView::AppAction(id@, a.active, AppAction::Restart),
        ],
        Message::Delete(id) => b == (match a.app_detail {
            Some(d) => if d.app_id@ == id@ {
                DeviceAppView { confirm_delete: Some((id@, d.name@)), ..a }
            } else {
                a
            },
            None => a,
        }) && e == Seq::<EffectView>::empty(),
        Message::CancelDelete => b == (DeviceAppView { confirm_delete: None, ..a }) && e == Seq::<
            EffectView,
        >::empty(),
        Message::ConfirmDelete(id, _name) => b == a && e == seq![EffectView::DeleteApp(id@, a.active)],
        Message::OpenDeploy => b == open_deploy_step(a) && e == Seq::<EffectView>::empty(),
        Message::CloseDeploy => b == (DeviceAppView { deploy_open: false, ..a }) && e == seq![
            EffectView::RefreshApps(a.active),
        ],
        Message::SetDName(v) => b == (DeviceAppView { deploy_name: v@, ..a }) && e == Seq::<
            EffectView,
        >::empty(),
        Message::SetDRuntime(v) => b == runtime_step(a, v@) && e == Seq::<EffectView>::empty(),
        Message::SetDBuild(v) => b == (DeviceAppView { deploy_build: v@, ..a }) && e == Seq::<
            EffectView,
        >::empty(),
        Message::SetDRun(v) => b == (DeviceAppView { deploy_run: v@, ..a }) && e == Seq::<
            EffectView,
        >::empty(),
        Message::ToggleGithub => b == (DeviceAppView {
            deploy_use_github: !a.deploy_use_github,
            ..a
        }) && e == Seq::<EffectView>::empty(),
        Message::SetDGithubUrl(v) => b == (DeviceAppView { deploy_github_url: v@, ..a }) && e
            == Seq::<EffectView>::empty(),
        Message::SelectGithubToken(l) => b == (DeviceAppView {
            selected_github_token: opt_view(l),
            ..a
        }) && e == Seq::<EffectView>::empty(),
        Message::SetNewTokenLabel(v) => b == (DeviceAppView { new_token_label: v@, ..a }) && e
            == Seq::<EffectView>::empty(),
        Message::SetNewTokenValue(v) => b == (DeviceAppView { new_token_value: v@, ..a }) && e
            == Seq::<EffectView>::empty(),
        Message::SaveGithubToken => save_token_post(a, b, e),
        Message::SetDPath(v) => b == (DeviceAppView { deploy_path: v@, ..a }) && e == Seq::<
            EffectView,
        >::empty(),
        Message::SetDEnvFile(v) => b == (DeviceAppView { deploy_env_file: v@, ..a }) && e == Seq::<
            EffectView,
        >::empty(),
        Message::PickEnvFile => b == a && e == seq![EffectView::PickEnvFile],
        Message::EnvFilePicked(path, vars) => b == toast(
            DeviceAppView {
                deploy_env_file: path@,
                deploy_env_vars: a.deploy_env_vars + pairs_view(vars@),
                ..a
            },
            "Imported "@ + dec(vars@.len()) + " env vars"@,
            ToastKind::Info,
        ) && e == Seq::<EffectView>::empty(),
        Message::PickPath => b == a && e == seq![EffectView::PickFolder],
        Message::SetDEKey(v) => b == (DeviceAppView { deploy_env_key: v@, ..a }) && e == Seq::<
            EffectView,
        >::empty(),
        Message::SetDEValue(v) => b == (DeviceAppView { deploy_env_value: v@, ..a }) && e
            == Seq::<EffectView>::empty(),
        Message::AddDEVar => b == add_var_step(a) && e == Seq::<EffectView>::empty(),
        Message::RemoveDEVar(i) => b == (if i < a.deploy_env_vars.len() {
            DeviceAppView { deploy_env_vars: a.deploy_env_vars.remove(i as int), ..a }
        } else {
            a
        }) && e == Seq::<EffectView>::empty(),
        _ => post_rest(a, m, b, e),
    }
}

/// Deploy tracking, update, notification and clipboard messages.
pub open spec fn post_rest(a: DeviceAppView, m: Message, b: DeviceAppView, e: Seq<EffectView>) -> bool {
    match m {
        Message::SubmitDeploy => (b, e) == submit_step(a),
        Message::DeployStatus(id, status) => b == (DeviceAppView {
            active_deploys: update_state(
                a.active_deploys,
                id,
                |d: StateView| state_after_status(d, status@),
            ),
            ..a
        }) && e == Seq::<EffectView>::empty(),
        Message::DeployEvent(id, ev) => (b, e) == deploy_event_step(a, id, ev.event),
        Message::DeployStreamEnded(id) => (b, e) == stream_ended_step(a, id),
        Message::DeployErr(id, err) => b == (DeviceAppView {
            active_deploys: update_state(
                a.active_deploys,
                id,
                |d: StateView| state_after_failure(d, err@),
            ),
            ..a
        }) && e == seq![
            EffectView::Notify(ToastKind::Error, "Deploy failed: "@ + err@),
            EffectView::RefreshApps(a.active),
        ],
        Message::ToggleDeployLog(id) => b == (DeviceAppView {
            expanded_deploy: if a.expanded_deploy == Some(id) {
                None
            } else {
                Some(id)
            },
            ..a
        }) && e == Seq::<EffectView>::empty(),
        Message::ClearFinishedDeploys => b == clear_finished_step(a) && e == Seq::<
            EffectView,
        >::empty(),
        Message::OpenUpdate(_id) => b == (match a.app_detail {
            Some(d) => DeviceAppView {
                update_build: d.build_command@,
                update_run: d.run_command@,
                update_open: true,
                ..a
            },
            None => DeviceAppView { update_open: true, ..a },
        }) && e == Seq::<EffectView>::empty(),
        Message::CloseUpdate => b == (DeviceAppView { update_open: false, ..a }) && e == Seq::<
            EffectView,
        >::empty(),
        Message::SetUpdateBuild(v) => b == (DeviceAppView { update_build: v@, ..a }) && e == Seq::<
            EffectView,
        >::empty(),
        Message::SetUpdateRun(v) => b == (DeviceAppView { update_run: v@, ..a }) && e == Seq::<
            EffectView,
        >::empty(),
        Message::ConfirmUpdate(id) => b == (DeviceAppView { update_open: false, ..a }) && e
            == seq![
            EffectView::UpdateApp(
                id@,
                a.active,
                non_empty(trim(a.update_build)),
                non_empty(trim(a.update_run)),
            ),
        ],
        Message::Info(msg) => b == toast(a, msg@, ToastKind::Info) && e == Seq::<
            EffectView,
        >::empty(),
        Message::Toast(msg) => b == toast(a, msg@, ToastKind::Error) && e == Seq::<
            EffectView,
        >::empty(),
        Message::Dismiss(i) => b == (if i < a.toasts.len() {
            DeviceAppView { toasts: a.toasts.remove(i as int), ..a }
        } else {
            a
        }) && e == Seq::<EffectView>::empty(),
        Message::Copy(t) => b == a && e == seq![EffectView::Copy(t@)],
        _ => b == a && e == Seq::<EffectView>::empty(),
    }
}

proof fn lemma_devices_update(v: Seq<DeviceState>, i: int, d: DeviceState)
    requires
        0 <= i < v.len(),
    ensures
        v.update(i, d).map_values(|x: DeviceState| x@) == v.map_values(|x: DeviceState| x@).update(
            i,
            d@,
        ),
{
    assert(v.update(i, d).map_values(|x: DeviceState| x@) =~= v.map_values(
        |x: DeviceState| x@,
    ).update(i, d@));
}

fn clear_selected(app: &mut RoverApp)
    ensures
        final(app)@ == clear_selection(old(app)@),
{
    app.selected_app = None;
    app.app_detail = None;
    app.log_entries = Vec::new();
    assert(app.log_entries.deep_view() =~= Seq::<Seq<char>>::empty());
}

fn set_toast(app: &mut RoverApp, message: String, kind: ToastKind)
    ensures
        final(app)@ == toast(old(app)@, message@, kind),
{
    let mut t: Vec<ToastState> = Vec::new();
    t.push(ToastState { message, kind });
    app.toasts = t;
    assert(app.toasts@.map_values(|t: ToastState| (t.message@, t.kind)) =~= seq![
        (message@, kind),
    ]);
}

fn copy_profile(p: &ConnectionProfile) -> (r: ConnectionProfile)
    ensures
        r@ == p@,
{
    ConnectionProfile {
        id: p.id.clone(),
        name: p.name.clone(),
        address: p.address.clone(),
        api_key: match &p.api_key {
            Some(k) => Some(k.clone()),
            None => None,
        },
        last_used: p.last_used,
    }
}

/// The message for a reply that failed on a device: the device's name,
/// a colon, and the error.
pub fn device_error(device_name: &str, error: &str) -> (s: String)
    ensures
        s@ == device_name@ + ": "@ + error@,
{
    concat3(device_name, ": ", error)
}

impl RoverApp {
    /// The deploy with this id, for changing it in place.
    pub fn find_deploy_mut(&mut self, deploy_id: usize) -> (r: Option<&mut DeployState>)
        ensures
            state_index(old(self)@.active_deploys, deploy_id) == -1 ==> r is None && final(self)@
                == old(self)@,
            state_index(old(self)@.active_deploys, deploy_id) != -1 ==> (r matches Some(d) && ({
                let i = state_index(old(self)@.active_deploys, deploy_id);
                &&& 0 <= i < old(self)@.active_deploys.len()
                &&& state_view(*d) == old(self)@.active_deploys[i]
                &&& final(self)@ == (DeviceAppView {
                    active_deploys: old(self)@.active_deploys.update(i, state_view(*final(d))),
                    ..old(self)@
                })
            })),
    {
        let ghost before = self.active_deploys@;
        let r = find_state_mut(&mut self.active_deploys, deploy_id);
        proof {
            let i = state_index(states_view(before), deploy_id);
            if i != -1 {
                let d = r->Some_0;
                lemma_states_view_update(before, i, *final(d));
            }
        }
        r
    }

    /// How many deploys are still in progress.
    pub fn active_deploy_count(&self) -> (n: usize)
        ensures
            n == active_states(self@.active_deploys).len(),
    {
        let ghost sv = self@.active_deploys;
        let mut n: usize = 0;
        let mut i: usize = 0;
        while i < self.active_deploys.len()
            invariant
                i <= self.active_deploys@.len(),
                sv == self@.active_deploys,
                n == active_states(sv.take(i as int)).len(),
                n <= i,
            decreases self.active_deploys@.len() - i,
        {
            assert(sv.take(i + 1).drop_last() =~= sv.take(i as int));
            if self.active_deploys[i].is_active() {
                n = n + 1;
            }
            i = i + 1;
        }
        assert(sv.take(i as int) =~= sv);
        n
    }

    /// The name of the active device, or `"unknown"`.
    pub fn active_device_name(&self) -> (s: String)
        ensures
            s@ == active_name(self@),
    {
        if self.active < self.devices.len() {
            self.devices[self.active].profile.name.clone()
        } else {
            owned("unknown")
        }
    }
}

fn select(app: &mut RoverApp, i: usize) -> (v: Vec<Effect>)
    ensures
        (final(app)@, effects_view(v@)) == select_step(old(app)@, i),
{
    if i < app.devices.len() {
        let mut v = no_effects();
        if !app.devices[i].connected && !app.devices[i].connecting
            && app.devices[i].profile.api_key.is_some() {
            let ghost before = app.devices@;
            let addr = app.devices[i].profile.address.clone();
            let key = match &app.devices[i].profile.api_key {
                Some(k) => k.clone(),
                None => String::new(),
            };
            let d = &mut app.devices[i];
            d.connecting = true;
            d.err = None;
            proof {
                lemma_devices_update(before, i as int, app.devices@[i as int]);
            }
            v = one_effect(Effect::Reconnect(i, addr, key));
        }
        app.active = i;
        clear_selected(app);
        v
    } else {
        no_effects()
    }
}

fn connect_device(app: &mut RoverApp) -> (v: Vec<Effect>)
    ensures
        (final(app)@, effects_view(v@)) == connect_step(old(app)@),
{
    let addr = trimmed(app.addr.as_str());
    let token = trimmed(app.token.as_str());
    let n = trimmed(app.name.as_str());
    let name = if n.as_str().is_empty() {
        addr.clone()
    } else {
        n
    };
    if addr.as_str().is_empty() || token.as_str().is_empty() {
        app.error = Some(owned("Address and pairing token are required"));
        return no_effects();
    }
    app.error = None;
    one_effect(Effect::Pair(addr, token, name))
}

fn device_added(app: &mut RoverApp, name: String, api_key: String, now: i64) -> (v: Vec<Effect>)
    ensures
        dev_added_post(old(app)@, name@, api_key@, now, final(app)@, effects_view(v@)),
{
    let addr = trimmed(app.addr.as_str());
    let mut profile = ConnectionProfile::new(name, addr);
    profile.api_key = Some(api_key);
    profile.last_used = Some(now);
    let saved = copy_profile(&profile);
    let d = DeviceState {
        profile,
        connected: true,
        info: None,
        metrics: None,
        apps: Vec::new(),
        connecting: false,
        err: None,
    };
    assert(d@.apps =~= Seq::<AppSummary>::empty());
    let ghost before = app.devices@;
    app.devices.push(d);
    assert(app.devices@.map_values(|x: DeviceState| x@) =~= before.map_values(
        |x: DeviceState| x@,
    ).push(d@));
    let idx = app.devices.len() - 1;
    app.active = idx;
    app.show_add = false;
    app.addr = String::new();
    app.token = String::new();
    app.name = String::new();
    app.error = None;
    clear_selected(app);
    let mut v = one_effect(Effect::SaveProfile(saved));
    push_effect(&mut v, Effect::RefreshData(idx));
    push_effect(&mut v, Effect::RefreshApps(idx));
    v
}

fn dev_connected(app: &mut RoverApp, idx: usize, ok: bool) -> (v: Vec<Effect>)
    ensures
        (final(app)@, effects_view(v@)) == dev_connected_step(old(app)@, idx, ok),
{
    if idx < app.devices.len() {
        let ghost before = app.devices@;
        let d = &mut app.devices[idx];
        d.connected = ok;
        d.connecting = false;
        d.err = None;
        proof {
            lemma_devices_update(before, idx as int, app.devices@[idx as int]);
        }
        if ok {
            return two_effects(Effect::RefreshData(app.active), Effect::RefreshApps(app.active));
        }
    }
    no_effects()
}

fn dev_error(app: &mut RoverApp, idx: usize, err: String)
    ensures
        final(app)@ == dev_error_step(old(app)@, idx, err@),
{
    let name = if idx < app.devices.len() {
        let ghost before = app.devices@;
        let d = &mut app.devices[idx];
        d.connecting = false;
        d.err = Some(err.clone());
        let n = d.profile.name.clone();
        proof {
            lemma_devices_update(before, idx as int, app.devices@[idx as int]);
        }
        n
    } else {
        owned("unknown")
    };
    if app.active == idx {
        let head = concat3("Connection error (", name.as_str(), "): ");
        set_toast(app, concat(head.as_str(), err.as_str()), ToastKind::Error);
    }
}

fn disconnect(app: &mut RoverApp) -> (v: Vec<Effect>)
    ensures
        (final(app)@, effects_view(v@)) == disconnect_step(old(app)@),
{
    let mut v = no_effects();
    if app.active < app.devices.len() {
        let ghost before = app.devices@;
        let i = app.active;
        let d = &mut app.devices[i];
        d.connected = false;
        d.info = None;
        d.metrics = None;
        d.apps = Vec::new();
        d.err = None;
        proof {
            assert(app.devices@[i as int]@.apps =~= Seq::<AppSummary>::empty());
            lemma_devices_update(before, i as int, app.devices@[i as int]);
        }
        v = one_effect(Effect::DropClient(i));
    }
    clear_selected(app);
    v
}

fn confirm_rename(app: &mut RoverApp, idx: usize) -> (v: Vec<Effect>)
    ensures
        (final(app)@, effects_view(v@)) == confirm_rename_step(old(app)@, idx),
{
    let new_name = trimmed(app.rename_value.as_str());
    let mut v = no_effects();
    if !new_name.as_str().is_empty() && idx < app.devices.len() {
        let ghost before = app.devices@;
        let d = &mut app.devices[idx];
        d.profile.name = new_name;
        let saved = copy_profile(&d.profile);
        proof {
            lemma_devices_update(before, idx as int, app.devices@[idx as int]);
        }
        v = one_effect(Effect::SaveProfile(saved));
    }
    app.editing_device = None;
    app.rename_value = String::new();
    v
}

fn confirm_delete_device(app: &mut RoverApp, idx: usize) -> (v: Vec<Effect>)
    ensures
        (final(app)@, effects_view(v@)) == delete_device_step(old(app)@, idx),
{
    app.confirm_device_delete = None;
    if idx < app.devices.len() {
        let id = app.devices[idx].profile.id.clone();
        let ghost before = app.devices@;
        let _removed = app.devices.remove(idx);
        assert(app.devices@.map_values(|x: DeviceState| x@) =~= before.map_values(
            |x: DeviceState| x@,
        ).remove(idx as int));
        if app.devices.len() == 0 {
            app.active = 0;
            app.selected_app = None;
            app.app_detail = None;
        } else if app.active >= app.devices.len() {
            app.active = app.devices.len() - 1;
        }
        one_effect(Effect::RemoveProfile(id))
    } else {
        no_effects()
    }
}

fn data(app: &mut RoverApp, info: ServerInfo, metrics: ServerMetrics)
    ensures
        final(app)@ == (if old(app)@.active < old(app)@.devices.len() {
            with_device(
                old(app)@,
                old(app)@.active as int,
                DeviceView {
                    info: Some(info),
                    metrics: Some(metrics),
                    ..old(app)@.devices[old(app)@.active as int]
                },
            )
        } else {
            old(app)@
        }),
{
    if app.active < app.devices.len() {
        let ghost before = app.devices@;
        let i = app.active;
        let d = &mut app.devices[i];
        d.info = Some(info);
        d.metrics = Some(metrics);
        proof {
            lemma_devices_update(before, i as int, app.devices@[i as int]);
        }
    }
}

fn apps(app: &mut RoverApp, list: Vec<AppSummary>)
    ensures
        final(app)@ == apps_step(old(app)@, list@),
{
    if app.active < app.devices.len() {
        let gone = match &app.selected_app {
            Some(s) => !has_app(&list, s),
            None => false,
        };
        if gone {
            clear_selected(app);
        }
        let ghost before = app.devices@;
        let i = app.active;
        let d = &mut app.devices[i];
        d.apps = list;
        proof {
            lemma_devices_update(before, i as int, app.devices@[i as int]);
        }
    }
}

fn tick(app: &RoverApp) -> (v: Vec<Effect>)
    ensures
        effects_view(v@) == tick_effects(app@),
{
    if app.active < app.devices.len() && app.devices[app.active].connected {
        let mut v = two_effects(Effect::RefreshData(app.active), Effect::RefreshApps(app.active));
        match &app.selected_app {
            Some(id) => {
                push_effect(&mut v, Effect::FetchDetail(id.clone(), app.active));
                push_effect(&mut v, Effect::FetchLogs(id.clone(), app.active));
                assert(effects_view(v@) =~= tick_effects(app@));
            },
            None => {
                assert(effects_view(v@) =~= tick_effects(app@));
            },
        }
        v
    } else {
        no_effects()
    }
}

fn save_github_token(app: &mut RoverApp) -> (v: Vec<Effect>)
    ensures
        save_token_post(old(app)@, final(app)@, effects_view(v@)),
{
    let label = trimmed(app.new_token_label.as_str());
    let value = trimmed(app.new_token_value.as_str());
    if !label.as_str().is_empty() && !value.as_str().is_empty() {
        let token = GithubToken::new(label.clone(), value);
        app.selected_github_token = Some(label);
        let ghost before = app.github_tokens@;
        app.github_tokens.push(token);
        assert(app.github_tokens@.map_values(|t: GithubToken| t@) =~= before.map_values(
            |t: GithubToken| t@,
        ).push(token@));
        app.new_token_label = String::new();
        app.new_token_value = String::new();
        one_effect(Effect::SaveGithubTokens)
    } else {
        no_effects()
    }
}

fn env_file_picked(app: &mut RoverApp, path: String, vars: Vec<(String, String)>)
    ensures
        final(app)@ == toast(
            DeviceAppView {
                deploy_env_file: path@,
                deploy_env_vars: old(app)@.deploy_env_vars + pairs_view(vars@),
                ..old(app)@
            },
            "Imported "@ + dec(vars@.len()) + " env vars"@,
            ToastKind::Info,
        ),
{
    app.deploy_env_file = path;
    let count = vars.len();
    let mut vars = vars;
    let ghost before = app.deploy_env_vars@;
    let ghost added = vars@;
    app.deploy_env_vars.append(&mut vars);
    assert(pairs_view(app.deploy_env_vars@) =~= pairs_view(before) + pairs_view(added));
    let mut text: Vec<char> = Vec::new();
    push_str(&mut text, "Imported ");
    push_dec(&mut text, count as u64);
    push_str(&mut text, " env vars");
    set_toast(app, string_from_chars(text.as_slice()), ToastKind::Info);
}

fn add_var(app: &mut RoverApp)
    ensures
        final(app)@ == add_var_step(old(app)@),
{
    let key = trimmed(app.deploy_env_key.as_str());
    let value = trimmed(app.deploy_env_value.as_str());
    if !key.as_str().is_empty() {
        let ghost before = app.deploy_env_vars@;
        app.deploy_env_vars.push((key, value));
        assert(pairs_view(app.deploy_env_vars@) =~= pairs_view(before).push((key@, value@)));
        app.deploy_env_key = String::new();
        app.deploy_env_value = String::new();
    }
}

fn submit_deploy(app: &mut RoverApp) -> (v: Vec<Effect>)
    requires
        old(app)@.next_deploy_id < usize::MAX,
    ensures
        (final(app)@, effects_view(v@)) == submit_step(old(app)@),
{
    let url = trimmed(app.deploy_github_url.as_str());
    let use_github = app.deploy_use_github && !url.as_str().is_empty();
    let name = trimmed(app.deploy_name.as_str());
    if (!use_github && app.deploy_path.as_str().is_empty()) || name.as_str().is_empty()
        || app.deploy_runtime.as_str().is_empty() {
        return no_effects();
    }
    let deploy_id = app.next_deploy_id;
    app.next_deploy_id = app.next_deploy_id + 1;
    let runtime = app.deploy_runtime.clone();
    let build_cmd = trimmed(app.deploy_build.as_str());
    let run_cmd = trimmed(app.deploy_run.as_str());
    let source_path = if app.deploy_use_github {
        String::new()
    } else {
        app.deploy_path.clone()
    };
    let github_url = if use_github {
        Some(url)
    } else {
        None
    };
    let github_token = if app.deploy_use_github {
        match &app.selected_github_token {
            Some(label) => find_token(&app.github_tokens, label),
            None => None,
        }
    } else {
        None
    };
    let env_vars = crate::text::clone_pairs(&app.deploy_env_vars);
    let mut logs: Vec<String> = Vec::new();
    logs.push(owned("Packaging source..."));
    let d = DeployState {
        id: deploy_id,
        name: name.clone(),
        runtime: runtime.clone(),
        source_path: source_path.clone(),
        status: owned("packaging"),
        logs,
        app_id: None,
        error: None,
    };
    assert(d.logs.deep_view() =~= seq!["Packaging source..."@]);
    let ghost before = app.active_deploys@;
    app.active_deploys.push(d);
    assert(states_view(app.active_deploys@) =~= states_view(before).push(state_view(d)));
    app.expanded_deploy = Some(deploy_id);
    app.deploy_open = false;
    let note = concat3("Deploying ", name.as_str(), " in the background");
    let order = DeployOrder {
        deploy_id,
        server_index: app.active,
        name,
        runtime,
        build_command: build_cmd,
        run_command: run_cmd,
        source_path,
        env_vars,
        github_url,
        github_token,
    };
    two_effects(Effect::Notify(ToastKind::Info, note), Effect::StartDeploy(order))
}

fn deploy_event(app: &mut RoverApp, id: usize, event: DeployEvent) -> (v: Vec<Effect>)
    ensures
        (final(app)@, effects_view(v@)) == deploy_event_step(old(app)@, id, event.event),
{
    let active = app.active;
    match app.find_deploy_mut(id) {
        Some(d) => {
            record_state_event(d, &event);
            match &event.event {
                Some(Event::Complete { .. }) => {
                    let note = concat("Deployed ", d.name.as_str());
                    two_effects(Effect::Notify(ToastKind::Info, note), Effect::RefreshApps(active))
                },
                Some(Event::Error { message }) => {
                    let head = concat3("Deploy ", d.name.as_str(), " failed: ");
                    let note = concat(head.as_str(), message.as_str());
                    two_effects(Effect::Notify(ToastKind::Error, note), Effect::RefreshApps(active))
                },
                _ => no_effects(),
            }
        },
        None => no_effects(),
    }
}

fn deploy_stream_ended(app: &mut RoverApp, id: usize) -> (v: Vec<Effect>)
    ensures
        (final(app)@, effects_view(v@)) == stream_ended_step(old(app)@, id),
{
    let mut v = one_effect(Effect::RefreshApps(app.active));
    let running = match find_state(&app.active_deploys, id) {
        Some(i) => app.active_deploys[i].is_active(),
        None => false,
    };
    if running {
        match app.find_deploy_mut(id) {
            Some(d) => {
                record_state_failure(d, "deploy stream ended before completion");
                let note = concat3(
                    "Deploy ",
                    d.name.as_str(),
                    " failed: deploy stream ended before completion",
                );
                push_effect(&mut v, Effect::Notify(ToastKind::Error, note));
            },
            None => {},
        }
    }
    v
}

fn clear_finished(app: &mut RoverApp)
    ensures
        final(app)@ == clear_finished_step(old(app)@),
{
    let mut rest: Vec<DeployState> = Vec::new();
    std::mem::swap(&mut app.active_deploys, &mut rest);
    let ghost orig = rest@;
    let ghost sv = states_view(orig);
    let n = rest.len();
    let mut kept: Vec<DeployState> = Vec::new();
    let mut k: usize = 0;
    while rest.len() > 0
        invariant
            k <= n == orig.len(),
            k + rest@.len() == n,
            rest@ == orig.skip(k as int),
            sv == states_view(orig),
            states_view(kept@) == active_states(sv.take(k as int)),
        decreases rest@.len(),
    {
        let x = rest.remove(0);
        assert(x == orig[k as int]);
        assert(sv.take(k + 1).drop_last() =~= sv.take(k as int));
        assert(sv.take(k + 1).last() == state_view(x));
        if x.is_active() {
            let ghost prev = kept@;
            kept.push(x);
            assert(states_view(kept@) =~= states_view(prev).push(state_view(x)));
        }
        assert(rest@ =~= orig.skip(k + 1));
        k = k + 1;
    }
    assert(sv.take(k as int) =~= sv);
    app.active_deploys = kept;
    match app.expanded_deploy {
        Some(x) => {
            if find_state(&app.active_deploys, x).is_none() {
                app.expanded_deploy = None;
                proof {
                    let kv = states_view(app.active_deploys@);
                    if has_state_id(kv, x) {
                        let q = choose|q: int| 0 <= q < kv.len() && (#[trigger] kv[q]).id == x;
                        lemma_state_index_none(kv, x, 0, q);
                    }
                }
            } else {
                proof {
                    let kv = states_view(app.active_deploys@);
                    lemma_state_index_from(kv, x, 0);
                    assert(kv[state_index(kv, x)].id == x);
                }
            }
        },
        None => {},
    }
}

/// Which part of the handlers deals with a message.
pub open spec fn device_group(m: Message) -> int {
    match m {
        Message::Noop
        | Message::Tick
        | Message::Select(..)
        | Message::ShowAdd
        | Message::HideAdd
        | Message::SetAddr(..)
        | Message::SetToken(..)
        | Message::SetName(..)
        | Message::Connect
        | Message::DevAdded(..)
        | Message::DevAddErr(..)
        | Message::DevConnected(..)
        | Message::DevError(..)
        | Message::Disconnect
        | Message::StartRename(..)
        | Message::SetRenameValue(..)
        | Message::ConfirmRename(..)
        | Message::CancelRename
        | Message::DeleteDevice(..)
        | Message::CancelDeleteDevice
        | Message::ConfirmDeleteDevice(..)
        | Message::Data(..)
        | Message::Apps(..) => 0,
        Message::SubmitDeploy
        | Message::DeployStatus(..)
        | Message::DeployEvent(..)
        | Message::DeployStreamEnded(..)
        | Message::DeployErr(..)
        | Message::ToggleDeployLog(..)
        | Message::ClearFinishedDeploys
        | Message::OpenUpdate(..)
        | Message::CloseUpdate
        | Message::SetUpdateBuild(..)
        | Message::SetUpdateRun(..)
        | Message::ConfirmUpdate(..)
        | Message::Info(..)
        | Message::Toast(..)
        | Message::Dismiss(..)
        | Message::Copy(..) => 2,
        _ => 1,
    }
}

fn group_of(m: &Message) -> (g: u8)
    ensures
        g == device_group(*m),
{
    match m {
        Message::Noop
        | Message::Tick
        | Message::Select(..)
        | Message::ShowAdd
        | Message::HideAdd
        | Message::SetAddr(..)
        | Message::SetToken(..)
        | Message::SetName(..)
        | Message::Connect
        | Message::DevAdded(..)
        | Message::DevAddErr(..)
        | Message::DevConnected(..)
        | Message::DevError(..)
        | Message::Disconnect
        | Message::StartRename(..)
        | Message::SetRenameValue(..)
        | Message::ConfirmRename(..)
        | Message::CancelRename
        | Message::DeleteDevice(..)
        | Message::CancelDeleteDevice
        | Message::ConfirmDeleteDevice(..)
        | Message::Data(..)
        | Message::Apps(..) => 0,
        Message::SubmitDeploy
        | Message::DeployStatus(..)
        | Message::DeployEvent(..)
        | Message::DeployStreamEnded(..)
        | Message::DeployErr(..)
        | Message::ToggleDeployLog(..)
        | Message::ClearFinishedDeploys
        | Message::OpenUpdate(..)
        | Message::CloseUpdate
        | Message::SetUpdateBuild(..)
        | Message::SetUpdateRun(..)
        | Message::ConfirmUpdate(..)
        | Message::Info(..)
        | Message::Toast(..)
        | Message::Dismiss(..)
        | Message::Copy(..) => 2,
        _ => 1,
    }
}

fn update_devices(app: &mut RoverApp, message: Message) -> (effects: Vec<Effect>)
    requires
        device_group(message) == 0,
    ensures
        post_devices(old(app)@, message, final(app)@, effects_view(effects@)),
{
    match message {
        Message::Noop => no_effects(),
        Message::Tick => tick(app),
        Message::Select(i) => select(app, i),
        Message::ShowAdd => {
            app.show_add = true;
            no_effects()
        },
        Message::HideAdd => {
            app.show_add = false;
            app.addr = String::new();
            app.token = String::new();
            app.name = String::new();
            app.error = None;
            no_effects()
        },
        Message::SetAddr(v) => {
            app.addr = v;
            no_effects()
        },
        Message::SetToken(v) => {
            app.token = v;
            no_effects()
        },
        Message::SetName(v) => {
            app.name = v;
            no_effects()
        },
        Message::Connect => connect_device(app),
        Message::DevAdded(name, key, now) => device_added(app, name, key, now),
        Message::DevAddErr(err) => {
            app.error = Some(err);
            no_effects()
        },
        Message::DevConnected(idx, ok) => dev_connected(app, idx, ok),
        Message::DevError(idx, err) => {
            dev_error(app, idx, err);
            no_effects()
        },
        Message::Disconnect => disconnect(app),
        Message::StartRename(idx) => {
            if idx < app.devices.len() {
                app.rename_value = app.devices[idx].profile.name.clone();
                app.editing_device = Some(idx);
            }
            no_effects()
        },
        Message::SetRenameValue(v) => {
            app.rename_value = v;
            no_effects()
        },
        Message::ConfirmRename(idx) => confirm_rename(app, idx),
        Message::CancelRename => {
            app.editing_device = None;
            app.rename_value = String::new();
            no_effects()
        },
        Message::DeleteDevice(idx) => {
            if idx < app.devices.len() {
                app.confirm_device_delete = Some(idx);
            }
            no_effects()
        },
        Message::CancelDeleteDevice => {
            app.confirm_device_delete = None;
            no_effects()
        },
        Message::ConfirmDeleteDevice(idx) => confirm_delete_device(app, idx),
        Message::Data(info, metrics) => {
            data(app, info, metrics);
            no_effects()
        },
        Message::Apps(list) => {
            apps(app, list);
            no_effects()
        },
        _ => no_effects(),
    }
}

fn update_apps(app: &mut RoverApp, message: Message) -> (effects: Vec<Effect>)
    requires
        device_group(message) == 1,
    ensures
        post_devices(old(app)@, message, final(app)@, effects_view(effects@)),
{
    match message {
        Message::SelectApp(id) => {
            let fetch = Effect::FetchDetail(id.clone(), app.active);
            app.selected_app = Some(id);
            app.app_detail = None;
            app.log_entries = Vec::new();
            assert(app.log_entries.deep_view() =~= Seq::<Seq<char>>::empty());
            one_effect(fetch)
        },
        Message::Detail(d) => {
            app.app_detail = Some(d);
            no_effects()
        },
        Message::Logs(lines) => {
            app.log_entries = lines;
            no_effects()
        },
        Message::Back => {
            clear_selected(app);
            no_effects()
        },
        Message::Start(id) => one_effect(Effect::AppAction(id, app.active, AppAction::Start)),
        Message::Stop(id) => one_effect(Effect::AppAction(id, app.active, AppAction::Stop)),
        Message::Restart(id) => one_effect(Effect::AppAction(id, app.active, AppAction::Restart)),
        Message::Delete(id) => {
            let pick = match &app.app_detail {
                Some(d) => if d.app_id == id {
                    Some(d.name.clone())
                } else {
                    None
                },
                None => None,
            };
            match pick {
                Some(name) => {
                    app.confirm_delete = Some((id, name));
                },
                None => {},
            }
            no_effects()
        },
        Message::CancelDelete => {
            app.confirm_delete = None;
            no_effects()
        },
        Message::ConfirmDelete(id, _name) => one_effect(Effect::DeleteApp(id, app.active)),
        Message::OpenDeploy => {
            app.deploy_open = true;
            app.deploy_name = String::new();
            app.deploy_runtime = String::new();
            app.deploy_build = String::new();
            app.deploy_run = String::new();
            app.deploy_path = String::new();
            app.deploy_use_github = false;
            app.deploy_github_url = String::new();
            app.deploy_env_file = String::new();
            app.deploy_env_vars = Vec::new();
            app.deploy_env_key = String::new();
            app.deploy_env_value = String::new();
            assert(pairs_view(app.deploy_env_vars@) =~= Seq::<(Seq<char>, Seq<char>)>::empty());
            no_effects()
        },
        Message::CloseDeploy => {
            app.deploy_open = false;
            one_effect(Effect::RefreshApps(app.active))
        },
        Message::SetDName(v) => {
            app.deploy_name = v;
            no_effects()
        },
        Message::SetDRuntime(v) => {
            if !v.as_str().is_empty() {
                app.deploy_build = owned(default_build_for(v.as_str()));
                app.deploy_run = owned(default_run_for(v.as_str()));
            }
            app.deploy_runtime = v;
            no_effects()
        },
        Message::SetDBuild(v) => {
            app.deploy_build = v;
            no_effects()
        },
        Message::SetDRun(v) => {
            app.deploy_run = v;
            no_effects()
        },
        Message::ToggleGithub => {
            app.deploy_use_github = !app.deploy_use_github;
            no_effects()
        },
        Message::SetDGithubUrl(v) => {
            app.deploy_github_url = v;
            no_effects()
        },
        Message::SelectGithubToken(l) => {
            app.selected_github_token = l;
            no_effects()
        },
        Message::SetNewTokenLabel(v) => {
            app.new_token_label = v;
            no_effects()
        },
        Message::SetNewTokenValue(v) => {
            app.new_token_value = v;
            no_effects()
        },
        Message::SaveGithubToken => save_github_token(app),
        Message::SetDPath(v) => {
            app.deploy_path = v;
            no_effects()
        },
        Message::SetDEnvFile(v) => {
            app.deploy_env_file = v;
            no_effects()
        },
        Message::PickEnvFile => one_effect(Effect::PickEnvFile),
        Message::EnvFilePicked(path, vars) => {
            env_file_picked(app, path, vars);
            no_effects()
        },
        Message::PickPath => one_effect(Effect::PickFolder),
        Message::SetDEKey(v) => {
            app.deploy_env_key = v;
            no_effects()
        },
        Message::SetDEValue(v) => {
            app.deploy_env_value = v;
            no_effects()
        },
        Message::AddDEVar => {
            add_var(app);
            no_effects()
        },
        Message::RemoveDEVar(i) => {
            if i < app.deploy_env_vars.len() {
                let ghost before = app.deploy_env_vars@;
                let _gone = app.deploy_env_vars.remove(i);
                assert(pairs_view(app.deploy_env_vars@) =~= pairs_view(before).remove(i as int));
            }
            no_effects()
        },
        _ => no_effects(),
    }
}

#[verifier::spinoff_prover]
#[verifier::rlimit(60)]
fn update_rest(app: &mut RoverApp, message: Message) -> (effects: Vec<Effect>)
    requires
        device_group(message) == 2,
        message is SubmitDeploy ==> old(app)@.next_deploy_id < usize::MAX,
    ensures
        post_devices(old(app)@, message, final(app)@, effects_view(effects@)),
{
    match message {
        Message::SubmitDeploy => submit_deploy(app),
        Message::DeployStatus(id, status) => {
            match app.find_deploy_mut(id) {
                Some(d) => record_state_status(d, status),
                None => {},
            }
            no_effects()
        },
        Message::DeployEvent(id, event) => deploy_event(app, id, event),
        Message::DeployStreamEnded(id) => deploy_stream_ended(app, id),
        Message::DeployErr(id, error) => {
            match app.find_deploy_mut(id) {
                Some(d) => record_state_failure(d, error.as_str()),
                None => {},
            }
            two_effects(
                Effect::Notify(ToastKind::Error, concat("Deploy failed: ", error.as_str())),
                Effect::RefreshApps(app.active),
            )
        },
        Message::ToggleDeployLog(id) => {
            let same = match app.expanded_deploy {
                Some(x) => x == id,
                None => false,
            };
            app.expanded_deploy = if same {
                None
            } else {
                Some(id)
            };
            no_effects()
        },
        Message::ClearFinishedDeploys => {
            clear_finished(app);
            no_effects()
        },
        Message::OpenUpdate(_id) => {
            let cmds = match &app.app_detail {
                Some(d) => Some((d.build_command.clone(), d.run_command.clone())),
                None => None,
            };
            match cmds {
                Some((b, r)) => {
                    app.update_build = b;
                    app.update_run = r;
                },
                None => {},
            }
            app.update_open = true;
            no_effects()
        },
        Message::CloseUpdate => {
            app.update_open = false;
            no_effects()
        },
        Message::SetUpdateBuild(v) => {
            app.update_build = v;
            no_effects()
        },
        Message::SetUpdateRun(v) => {
            app.update_run = v;
            no_effects()
        },
        Message::ConfirmUpdate(id) => {
            app.update_open = false;
            let build = trimmed(app.update_build.as_str());
            let run = trimmed(app.update_run.as_str());
            let build = if build.as_str().is_empty() {
                None
            } else {
                Some(build)
            };
            let run = if run.as_str().is_empty() {
                None
            } else {
                Some(run)
            };
            one_effect(Effect::UpdateApp(id, app.active, build, run))
        },
        Message::Info(msg) => {
            set_toast(app, msg, ToastKind::Info);
            no_effects()
        },
        Message::Toast(msg) => {
            set_toast(app, msg, ToastKind::Error);
            no_effects()
        },
        Message::Dismiss(i) => {
            if i < app.toasts.len() {
                let ghost before = app.toasts@;
                let _gone = app.toasts.remove(i);
                assert(app.toasts@.map_values(|t: ToastState| (t.message@, t.kind))
                    =~= before.map_values(|t: ToastState| (t.message@, t.kind)).remove(i as int));
            }
            no_effects()
        },
        Message::Copy(t) => one_effect(Effect::Copy(t)),
        _ => no_effects(),
    }
}

/// Applies one message to the single-device state and returns the work it
/// asks for.
pub fn update(app: &mut RoverApp, message: Message) -> (effects: Vec<Effect>)
    requires
        message is SubmitDeploy ==> old(app)@.next_deploy_id < usize::MAX,
    ensures
        post_devices(old(app)@, message, final(app)@, effects_view(effects@)),
{
    let g = group_of(&message);
    if g == 0 {
        update_devices(app, message)
    } else if g == 1 {
        update_apps(app, message)
    } else {
        update_rest(app, message)
    }
}

/// A disconnected device for a saved profile.
pub open spec fn idle_device(p: ProfileView) -> DeviceView {
    DeviceView {
        profile: p,
        connected: false,
        info: None,
        metrics: None,
        apps: seq![],
        connecting: false,
        err: None,
    }
}

/// The starting state: one disconnected device per saved profile, the first
/// one active, the add form shown when there is none, the saved GitHub
/// tokens loaded, deploy ids counting from 1, and everything else empty.
pub open spec fn initial_state(ps: Seq<ProfileView>, tokens: Seq<TokenView>) -> DeviceAppView {
    DeviceAppView {
        devices: ps.map_values(|p: ProfileView| idle_device(p)),
        active: 0,
        show_add: ps.len() == 0,
        addr: seq![],
        token: seq![],
        name: seq![],
        error: None,
        selected_app: None,
        app_detail: None,
        log_entries: seq![],
        deploy_open: false,
        deploy_name: seq![],
        deploy_runtime: seq![],
        deploy_build: seq![],
        deploy_run: seq![],
        deploy_path: seq![],
        deploy_use_github: false,
        deploy_github_url: seq![],
        deploy_env_file: seq![],
        github_tokens: tokens,
        selected_github_token: None,
        new_token_label: seq![],
        new_token_value: seq![],
        deploy_env_vars: seq![],
        deploy_env_key: seq![],
        deploy_env_value: seq![],
        next_deploy_id: 1,
        active_deploys: seq![],
        expanded_deploy: None,
        confirm_delete: None,
        confirm_device_delete: None,
        editing_device: None,
        rename_value: seq![],
        update_open: false,
        update_build: seq![],
        update_run: seq![],
        toasts: seq![],
    }
}

/// The starting state for the saved profiles and GitHub tokens, and the
/// reconnections to ask for (one per profile with an API key).
pub fn init(profiles: Vec<ConnectionProfile>, github_tokens: Vec<GithubToken>) -> (r: (
    RoverApp,
    Vec<Effect>,
))
    ensures
        r.0@ == initial_state(
            profiles@.map_values(|p: ConnectionProfile| p@),
            github_tokens@.map_values(|t: GithubToken| t@),
        ),
        effects_view(r.1@) == crate::client::update::init_effects(
            profiles@.map_values(|p: ConnectionProfile| p@),
        ),
{
    let ghost pv = profiles@.map_values(|p: ConnectionProfile| p@);
    let ghost orig = profiles@;
    let n = profiles.len();
    let mut rest = profiles;
    let mut devices: Vec<DeviceState> = Vec::new();
    let mut effects = no_effects();
    let mut k: usize = 0;
    while rest.len() > 0
        invariant
            k <= n == orig.len(),
            k + rest@.len() == n,
            rest@ == orig.skip(k as int),
            pv == orig.map_values(|p: ConnectionProfile| p@),
            devices@.map_values(|x: DeviceState| x@) == pv.take(k as int).map_values(
                |p: ProfileView| idle_device(p),
            ),
            effects_view(effects@) == crate::client::update::init_effects(pv.take(k as int)),
        decreases rest@.len(),
    {
        let p = rest.remove(0);
        assert(p == orig[k as int]);
        assert(pv.take(k + 1).drop_last() =~= pv.take(k as int));
        assert(pv.take(k + 1).last() == p@);
        match &p.api_key {
            Some(key) => {
                push_effect(&mut effects, Effect::Reconnect(k, p.address.clone(), key.clone()));
            },
            None => {},
        }
        let d = DeviceState::from_profile(p);
        let ghost prev = devices@;
        devices.push(d);
        assert(devices@.map_values(|x: DeviceState| x@) =~= prev.map_values(|x: DeviceState| x@).push(
            d@,
        ));
        assert(pv.take(k + 1).map_values(|p: ProfileView| idle_device(p)) =~= pv.take(
            k as int,
        ).map_values(|p: ProfileView| idle_device(p)).push(idle_device(p@)));
        assert(rest@ =~= orig.skip(k + 1));
        k = k + 1;
    }
    assert(pv.take(k as int) =~= pv);
    let show_add = devices.len() == 0;
    let app = RoverApp {
        devices,
        active: 0,
        show_add,
        addr: String::new(),
        token: String::new(),
        name: String::new(),
        error: None,
        selected_app: None,
        app_detail: None,
        log_entries: Vec::new(),
        deploy_open: false,
        deploy_name: String::new(),
        deploy_runtime: String::new(),
        deploy_build: String::new(),
        deploy_run: String::new(),
        deploy_path: String::new(),
        deploy_use_github: false,
        deploy_github_url: String::new(),
        deploy_env_file: String::new(),
        github_tokens,
        selected_github_token: None,
        new_token_label: String::new(),
        new_token_value: String::new(),
        deploy_env_vars: Vec::new(),
        deploy_env_key: String::new(),
        deploy_env_value: String::new(),
        next_deploy_id: 1,
        active_deploys: Vec::new(),
        expanded_deploy: None,
        confirm_delete: None,
        confirm_device_delete: None,
        editing_device: None,
        rename_value: String::new(),
        update_open: false,
        update_build: String::new(),
        update_run: String::new(),
        toasts: Vec::new(),
    };
    assert(app@.log_entries =~= Seq::<Seq<char>>::empty());
    assert(app@.deploy_env_vars =~= Seq::<(Seq<char>, Seq<char>)>::empty());
    assert(app@.active_deploys =~= Seq::<StateView>::empty());
    assert(app@.toasts =~= Seq::<(Seq<char>, ToastKind)>::empty());
    (app, effects)
}

/// The window title: the active device's name while it is connected.
pub open spec fn title_text(a: DeviceAppView) -> Seq<char> {
    if a.active < a.devices.len() && a.devices[a.active as int].connected {
        "Rover \u{2014} "@ + a.devices[a.active as int].profile.name
    } else {
        "Rover"@
    }
}

/// The window title.
pub fn title(app: &RoverApp) -> (s: String)
    ensures
        s@ == title_text(app@),
{
    if app.active < app.devices.len() && app.devices[app.active].connected {
        concat("Rover \u{2014} ", app.devices[app.active].profile.name.as_str())
    } else {
        owned("Rover")
    }
}

/// The active index points at a device whenever there is one.
pub open spec fn active_in_range(a: DeviceAppView) -> bool {
    a.devices.len() == 0 || a.active < a.devices.len()
}

/// Every message keeps the active index on a device, when there is one.
pub proof fn law_update_keeps_active_in_range(
    a: DeviceAppView,
    m: Message,
    b: DeviceAppView,
    e: Seq<EffectView>,
)
    requires
        active_in_range(a),
        post_devices(a, m, b, e),
    ensures
        active_in_range(b),
{
    match m {
        Message::Select(i) => {
            assert(b == select_step(a, i).0);
        },
        Message::DevAdded(..) => {},
        Message::ConfirmDeleteDevice(idx) => {
            assert(b == delete_device_step(a, idx).0);
        },
        Message::SaveGithubToken => {},
        _ => {
            assert(b.devices.len() == a.devices.len() && b.active == a.active);
        },
    }
}

/// The starting state keeps the active index in range.
pub proof fn law_initial_active_in_range(ps: Seq<ProfileView>, tokens: Seq<TokenView>)
    ensures
        active_in_range(initial_state(ps, tokens)),
{
}

/// The status bar text: the active device's connection state and the number
/// of deploys in progress.
pub open spec fn status_bar_text(a: DeviceAppView) -> Seq<char> {
    let base = if a.active < a.devices.len() {
        let d = a.devices[a.active as int];
        if d.connected {
            "\u{25cf} "@ + d.profile.name + " \u{2014} "@ + d.profile.address
        } else if d.connecting {
            "\u{25cc} Connecting to "@ + d.profile.name + "..."@
        } else if d.err is Some {
            "\u{2715} "@ + d.profile.name
        } else {
            "\u{25cb} "@ + d.profile.name + " \u{2014} disconnected"@
        }
    } else if a.devices.len() == 0 {
        "No devices"@
    } else {
        "Select a device"@
    };
    let n = active_states(a.active_deploys).len();
    if n > 0 {
        base + " \u{2014} "@ + dec(n) + " deploy running"@
    } else {
        base
    }
}

impl RoverApp {
    /// The status bar text.
    pub fn status_text(&self) -> (s: String)
        ensures
            s@ == status_bar_text(self@),
    {
        let mut t: Vec<char> = Vec::new();
        if self.active < self.devices.len() {
            let d = &self.devices[self.active];
            let name = crate::text::chars_of(d.profile.name.as_str());
            if d.connected {
                push_str(&mut t, "\u{25cf} ");
                crate::client::format::push_chars(&mut t, name.as_slice());
                push_str(&mut t, " \u{2014} ");
                push_str(&mut t, d.profile.address.as_str());
            } else if d.connecting {
                push_str(&mut t, "\u{25cc} Connecting to ");
                crate::client::format::push_chars(&mut t, name.as_slice());
                push_str(&mut t, "...");
            } else if d.err.is_some() {
                push_str(&mut t, "\u{2715} ");
                crate::client::format::push_chars(&mut t, name.as_slice());
            } else {
                push_str(&mut t, "\u{25cb} ");
                crate::client::format::push_chars(&mut t, name.as_slice());
                push_str(&mut t, " \u{2014} disconnected");
            }
        } else if self.devices.len() == 0 {
            push_str(&mut t, "No devices");
        } else {
            push_str(&mut t, "Select a device");
        }
        let n = self.active_deploy_count();
        if n > 0 {
            push_str(&mut t, " \u{2014} ");
            push_dec(&mut t, n as u64);
            push_str(&mut t, " deploy running");
        }
        string_from_chars(t.as_slice())
    }
}

} // verus!
