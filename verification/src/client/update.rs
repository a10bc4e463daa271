//! How the client reacts to each UI event and each reply. The state change is
//! made here; the work that leaves the process (calls to a server, file
//! dialogs, the clipboard, saving files, the shell session) is returned as a
//! list of effects, whose outcomes come back as further messages.
use vstd::prelude::*;
use crate::client::app::{GithubToken, Screen, Toast, ToastKind, TokenView};
use crate::client::model::{
    all_apps_of, opt_view, pairs_view, server_name_of, AppView, RoverApp, ScreenView, ServerState,
    ServerView,
};
use crate::profile::ProfileView;
use crate::proto::{AppDetailResponse, AppSummary, DeployEvent, ServerInfo, ServerMetrics};
use crate::text::{concat, concat3, owned, string_from_chars, trim, trimmed};
use crate::client::app::{deploy_in_progress, DeployJob};
use crate::client::jobs::{
    after_event, after_failure, after_status, find_job, job_index, lemma_job_index_from,
    lemma_job_index_none, record_event, record_failure, record_status, update_job,
};
use crate::client::model::{job_view, jobs_view, JobView};
use crate::proto::Event;
use crate::client::format::push_str;
use crate::num::{dec, push_dec};
use crate::status::{parse_runtime, runtime_build_text, runtime_run_text};

verus! {

/// Every UI event and every reply of outside work.
pub enum Message {
    Noop,
    /// Periodic tick for auto-refresh, with the lines the shell session has
    /// produced so far.
    Tick(Vec<String>),
    ManageServers,
    CloseManageServers,
    ShowAddForm,
    HideAddForm,
    SetAddr(String),
    SetToken(String),
    SetServerName(String),
    Connect,
    /// Pairing succeeded: the name, the API key, and the time in
    /// milliseconds since the Unix epoch.
    ServerAdded(String, String, i64),
    ServerAddError(String),
    /// Whether reconnecting to a server succeeded.
    ServerConnected(usize, bool),
    ServerError(usize, String),
    Disconnect(usize),
    Reconnect(usize),
    ConfirmServerDelete(usize),
    CancelServerDelete,
    DeleteServer(usize),
    StartRename(usize),
    SetRenameValue(String),
    ConfirmRename(usize),
    CancelRename,
    ServerData(usize, ServerInfo, ServerMetrics),
    ServerApps(usize, Vec<AppSummary>),
    SelectApp(String, usize),
    AppDetail(AppDetailResponse),
    LogLines(Vec<String>),
    BackToDashboard,
    StartApp(String, usize),
    StopApp(String, usize),
    RestartApp(String, usize),
    DeleteApp(String, usize),
    CancelDelete,
    ConfirmDelete(String, String, usize),
    OpenDeploy,
    CloseDeploy,
    SetDeployTarget(Option<usize>),
    SetDeployName(String),
    SetDeployRuntime(String),
    SetDeployBuild(String),
    SetDeployRun(String),
    SetDeployPath(String),
    ToggleGithub,
    SetDeployGithubUrl(String),
    SelectGithubToken(Option<String>),
    SetNewTokenLabel(String),
    SetNewTokenValue(String),
    SaveGithubToken,
    PickPath,
    SetEnvKey(String),
    SetEnvValue(String),
    AddEnvVar,
    RemoveEnvVar(usize),
    PickEnvFile,
    EnvFilePicked(String, Vec<(String, String)>),
    SubmitDeploy,
    DeployStatus(usize, String),
    DeployEvent(usize, DeployEvent),
    DeployStreamEnded(usize),
    DeployError(usize, String),
    ToggleDeployLog(usize),
    ClearFinishedDeploys,
    OpenUpdate(String),
    CloseUpdate,
    SetUpdateBuild(String),
    SetUpdateRun(String),
    ConfirmUpdate(String),
    Info(String),
    Error(String),
    DismissToast(usize),
    Copy(String),
    OpenTerminal(usize),
    ShellStarted,
    ShellOutput(Vec<u8>),
    ShellClosed,
    SetTerminalInput(String),
    SubmitShellCommand,
    CloseTerminal,
}

/// What to do to an app.
#[derive(Debug, Clone, Copy, PartialEq, Eq, Structural)]
pub enum AppAction {
    Start,
    Stop,
    Restart,
}

/// Everything a background deploy needs.
pub struct DeployOrder {
    pub deploy_id: usize,
    pub server_index: usize,
    pub name: String,
    pub runtime: String,
    pub build_command: String,
    pub run_command: String,
    pub source_path: String,
    pub env_vars: Vec<(String, String)>,
    pub github_url: Option<String>,
    pub github_token: Option<String>,
}

/// A deploy order as mathematical values.
pub struct OrderView {
    pub deploy_id: usize,
    pub server_index: usize,
    pub name: Seq<char>,
    pub runtime: Seq<char>,
    pub build_command: Seq<char>,
    pub run_command: Seq<char>,
    pub source_path: Seq<char>,
    pub env_vars: Seq<(Seq<char>, Seq<char>)>,
    pub github_url: Option<Seq<char>>,
    pub github_token: Option<Seq<char>>,
}

impl View for DeployOrder {
    type V = OrderView;

    open spec fn view(&self) -> OrderView {
        OrderView {
            deploy_id: self.deploy_id,
            server_index: self.server_index,
            name: self.name@,
            runtime: self.runtime@,
            build_command: self.build_command@,
            run_command: self.run_command@,
            source_path: self.source_path@,
            env_vars: pairs_view(self.env_vars@),
            github_url: opt_view(self.github_url),
            github_token: opt_view(self.github_token),
        }
    }
}

/// Work for the UI shell to carry out; server indices refer to the state
/// after the update that asked for it.
pub enum Effect {
    /// Fetch the server's info and metrics (replies `ServerData` or `Error`).
    RefreshData(usize),
    /// Fetch the server's apps (replies `ServerApps` or `Error`).
    RefreshApps(usize),
    /// Fetch an app's details (replies `AppDetail` or `Error`).
    FetchDetail(String, usize),
    /// Fetch an app's recent log lines (replies `LogLines` or `Error`).
    FetchLogs(String, usize),
    /// Start, stop or restart an app (replies `AppDetail` or `Error`).
    AppAction(String, usize, AppAction),
    /// Delete an app (replies `BackToDashboard` or `Error`).
    DeleteApp(String, usize),
    /// Change an app's commands; `None` keeps one (replies `AppDetail` or
    /// `Error`).
    UpdateApp(String, usize, Option<String>, Option<String>),
    /// Pair with a new server: address, pairing token, name (replies
    /// `ServerAdded` or `ServerAddError`).
    Pair(String, String, String),
    /// Reconnect to a server with its address and API key (replies
    /// `ServerConnected` or `ServerError`).
    Reconnect(usize, String, String),
    /// Close the connection to a server.
    DropClient(usize),
    /// Save this profile in the profile store.
    SaveProfile(crate::profile::ConnectionProfile),
    /// Remove the profile with this id from the profile store.
    RemoveProfile(String),
    /// Save the GitHub tokens of the state.
    SaveGithubTokens,
    /// Ask for a source folder (replies `SetDeployPath` or `Noop`).
    PickFolder,
    /// Ask for an env file (replies `EnvFilePicked` or `Noop`).
    PickEnvFile,
    /// Package and send a deploy (replies `DeployStatus`, `DeployEvent`,
    /// `DeployStreamEnded` or `DeployError`).
    StartDeploy(DeployOrder),
    /// Show a notification (replies `Info` or `Error`).
    Notify(ToastKind, String),
    /// Put text on the clipboard.
    Copy(String),
    /// Open a shell session on a server.
    OpenShell(usize),
    /// Send input to the shell session.
    SendShellInput(String),
    /// Close the shell session.
    CloseShell,
}

/// An effect as mathematical values.
pub enum EffectView {
    RefreshData(usize),
    RefreshApps(usize),
    FetchDetail(Seq<char>, usize),
    FetchLogs(Seq<char>, usize),
    AppAction(Seq<char>, usize, AppAction),
    DeleteApp(Seq<char>, usize),
    UpdateApp(Seq<char>, usize, Option<Seq<char>>, Option<Seq<char>>),
    Pair(Seq<char>, Seq<char>, Seq<char>),
    Reconnect(usize, Seq<char>, Seq<char>),
    DropClient(usize),
    SaveProfile(ProfileView),
    RemoveProfile(Seq<char>),
    SaveGithubTokens,
    PickFolder,
    PickEnvFile,
    StartDeploy(OrderView),
    Notify(ToastKind, Seq<char>),
    Copy(Seq<char>),
    OpenShell(usize),
    SendShellInput(Seq<char>),
    CloseShell,
}

pub open spec fn effect_view(e: Effect) -> EffectView {
    match e {
        Effect::RefreshData(i) => EffectView::RefreshData(i),
        Effect::RefreshApps(i) => EffectView::RefreshApps(i),
        Effect::FetchDetail(id, i) => EffectView::FetchDetail(id@, i),
        Effect::FetchLogs(id, i) => EffectView::FetchLogs(id@, i),
        Effect::AppAction(id, i, a) => EffectView::AppAction(id@, i, a),
        Effect::DeleteApp(id, i) => EffectView::DeleteApp(id@, i),
        Effect::UpdateApp(id, i, b, r) => EffectView::UpdateApp(id@, i, opt_view(b), opt_view(r)),
        Effect::Pair(a, t, n) => EffectView::Pair(a@, t@, n@),
        Effect::Reconnect(i, a, k) => EffectView::Reconnect(i, a@, k@),
        Effect::DropClient(i) => EffectView::DropClient(i),
        Effect::SaveProfile(p) => EffectView::SaveProfile(p@),
        Effect::RemoveProfile(id) => EffectView::RemoveProfile(id@),
        Effect::SaveGithubTokens => EffectView::SaveGithubTokens,
        Effect::PickFolder => EffectView::PickFolder,
        Effect::PickEnvFile => EffectView::PickEnvFile,
        Effect::StartDeploy(o) => EffectView::StartDeploy(o@),
        Effect::Notify(k, m) => EffectView::Notify(k, m@),
        Effect::Copy(t) => EffectView::Copy(t@),
        Effect::OpenShell(i) => EffectView::OpenShell(i),
        Effect::SendShellInput(s) => EffectView::SendShellInput(s@),
        Effect::CloseShell => EffectView::CloseShell,
    }
}

pub open spec fn effects_view(v: Seq<Effect>) -> Seq<EffectView> {
    v.map_values(|e: Effect| effect_view(e))
}

/// The refreshes of every connected server, server by server in order.
pub open spec fn refresh_effects(servers: Seq<ServerView>) -> Seq<EffectView>
    decreases servers.len(),
{
    if servers.len() == 0 {
        seq![]
    } else {
        let k = (servers.len() - 1) as int;
        refresh_effects(servers.drop_last()) + if servers[k].connected {
            seq![EffectView::RefreshData(k as usize), EffectView::RefreshApps(k as usize)]
        } else {
            seq![]
        }
    }
}

/// The state with only this notification shown.
pub open spec fn with_toast(a: AppView, message: Seq<char>, kind: ToastKind) -> AppView {
    AppView { toasts: seq![(message, kind)], ..a }
}

/// The state back on the dashboard, with no app detail and no log lines.
pub open spec fn leave_detail(a: AppView) -> AppView {
    AppView { screen: ScreenView::Dashboard, app_detail: None, log_entries: seq![], ..a }
}

/// Whether the app detail screen shows an app of server `idx`.
pub open spec fn viewing_server(a: AppView, idx: usize) -> bool {
    a.screen matches ScreenView::AppDetail(_, si) && si == idx
}

/// The state with the all-apps list rebuilt.
pub open spec fn rebuilt(a: AppView) -> AppView {
    AppView { all_apps: all_apps_of(a.servers), ..a }
}

/// The state with server `idx` replaced.
pub open spec fn with_server(a: AppView, idx: int, s: ServerView) -> AppView {
    AppView { servers: a.servers.update(idx, s), ..a }
}

/// Connecting to a new server: the trimmed address and pairing token are
/// required; the name defaults to the address.
pub open spec fn connect_step(a: AppView) -> (AppView, Seq<EffectView>) {
    let addr = trim(a.addr_input);
    let token = trim(a.token_input);
    let name = if trim(a.name_input).len() == 0 {
        addr
    } else {
        trim(a.name_input)
    };
    if addr.len() == 0 || token.len() == 0 {
        (
            AppView { form_error: Some("Address and pairing token are required"@), ..a },
            seq![],
        )
    } else {
        (AppView { form_error: None, ..a }, seq![EffectView::Pair(addr, token, name)])
    }
}

/// A server was paired: it is added as connected, saved with a fresh id, and
/// refreshed; the form is cleared and the dashboard shown.
pub open spec fn server_added_post(
    a: AppView,
    name: Seq<char>,
    api_key: Seq<char>,
    now: i64,
    b: AppView,
    e: Seq<EffectView>,
) -> bool {
    let idx = a.servers.len() as usize;
    e.len() == 3 && match e[0] {
        EffectView::SaveProfile(p) => {
            &&& p == (ProfileView {
                id: p.id,
                name,
                address: trim(a.addr_input),
                api_key: Some(api_key),
                last_used: Some(now),
            })
            &&& crate::ids::is_uuid_v4_text(p.id)
            &&& e[1] == EffectView::RefreshData(idx)
            &&& e[2] == EffectView::RefreshApps(idx)
            &&& b == (AppView {
                servers: a.servers.push(
                    ServerView {
                        profile: p,
                        connected: true,
                        connecting: false,
                        error: None,
                        info: None,
                        metrics: None,
                        apps: seq![],
                    },
                ),
                show_add_form: false,
                addr_input: seq![],
                token_input: seq![],
                name_input: seq![],
                form_error: None,
                screen: ScreenView::Dashboard,
                app_detail: None,
                log_entries: seq![],
                ..a
            })
        },
        _ => false,
    }
}

/// A reconnection finished: the server is marked connected or not, and a
/// connected server is refreshed.
pub open spec fn server_connected_step(a: AppView, idx: usize, ok: bool) -> (
    AppView,
    Seq<EffectView>,
) {
    if idx < a.servers.len() {
        let s = a.servers[idx as int];
        (
            with_server(a, idx as int, ServerView { connected: ok, connecting: false, error: None, ..s }),
            if ok {
                seq![EffectView::RefreshData(idx), EffectView::RefreshApps(idx)]
            } else {
                seq![]
            },
        )
    } else {
        (a, seq![])
    }
}

/// A server reported an error: it stops connecting, keeps the error, and a
/// notification says so.
pub open spec fn server_error_step(a: AppView, idx: usize, err: Seq<char>) -> AppView {
    let a1 = if idx < a.servers.len() {
        let s = a.servers[idx as int];
        with_server(a, idx as int, ServerView { connecting: false, error: Some(err), ..s })
    } else {
        a
    };
    with_toast(a1, "Server connection error: "@ + err, ToastKind::Error)
}

/// Disconnecting forgets what was fetched from the server and leaves its app
/// detail screen.
pub open spec fn disconnect_step(a: AppView, idx: usize) -> (AppView, Seq<EffectView>) {
    let a1 = if idx < a.servers.len() {
        let s = a.servers[idx as int];
        with_server(
            a,
            idx as int,
            ServerView { connected: false, info: None, metrics: None, apps: seq![], error: None, ..s },
        )
    } else {
        a
    };
    let a2 = rebuilt(a1);
    (
        if viewing_server(a2, idx) {
            leave_detail(a2)
        } else {
            a2
        },
        if idx < a.servers.len() {
            seq![EffectView::DropClient(idx)]
        } else {
            seq![]
        },
    )
}

/// Reconnecting is started only for an idle, disconnected server that has an
/// API key.
pub open spec fn reconnect_step(a: AppView, idx: usize) -> (AppView, Seq<EffectView>) {
    if idx < a.servers.len() && !a.servers[idx as int].connected
        && !a.servers[idx as int].connecting && a.servers[idx as int].profile.api_key is Some {
        let s = a.servers[idx as int];
        (
            with_server(a, idx as int, ServerView { connecting: true, error: None, ..s }),
            seq![EffectView::Reconnect(idx, s.profile.address, s.profile.api_key->Some_0)],
        )
    } else {
        (a, seq![])
    }
}

/// Renaming keeps a non-empty trimmed name, saves the profile, and closes the
/// rename field.
pub open spec fn confirm_rename_step(a: AppView, idx: usize) -> (AppView, Seq<EffectView>) {
    let new_name = trim(a.rename_value);
    let (a1, e) = if new_name.len() > 0 && idx < a.servers.len() {
        let s = a.servers[idx as int];
        let p = ProfileView { name: new_name, ..s.profile };
        (with_server(a, idx as int, ServerView { profile: p, ..s }), seq![EffectView::SaveProfile(p)])
    } else {
        (a, seq![])
    };
    (rebuilt(AppView { editing_server: None, rename_value: seq![], ..a1 }), e)
}

/// Deleting a server removes it and its saved profile.
pub open spec fn delete_server_step(a: AppView, idx: usize) -> (AppView, Seq<EffectView>) {
    let a0 = AppView { confirm_server_delete: None, ..a };
    let (a1, e) = if idx < a.servers.len() {
        let a1 = AppView { servers: a.servers.remove(idx as int), ..a0 };
        (
            if viewing_server(a1, idx) {
                leave_detail(a1)
            } else {
                a1
            },
            seq![EffectView::RemoveProfile(a.servers[idx as int].profile.id)],
        )
    } else {
        (a0, seq![])
    };
    (rebuilt(a1), e)
}

/// Whether some app in the list has this id.
pub open spec fn has_app_id(apps: Seq<AppSummary>, id: Seq<char>) -> bool {
    exists|k: int| 0 <= k < apps.len() && (#[trigger] apps[k]).app_id@ == id
}

/// A new app list for a server; the detail screen is left when its app is
/// gone.
pub open spec fn server_apps_step(a: AppView, idx: usize, apps: Seq<AppSummary>) -> AppView {
    let a1 = match a.screen {
        ScreenView::AppDetail(id, si) => if si == idx && !has_app_id(apps, id) {
            leave_detail(a)
        } else {
            a
        },
        _ => a,
    };
    let a2 = if idx < a1.servers.len() {
        let s = a1.servers[idx as int];
        with_server(a1, idx as int, ServerView { apps, ..s })
    } else {
        a1
    };
    rebuilt(a2)
}

/// Choosing a runtime in the deploy form proposes its default commands.
pub open spec fn deploy_runtime_step(a: AppView, v: Seq<char>) -> AppView {
    let a1 = AppView { deploy_runtime: v, ..a };
    if v.len() == 0 {
        a1
    } else {
        match parse_runtime(v) {
            Ok(r) => AppView {
                deploy_build: runtime_build_text(r),
                deploy_run: runtime_run_text(r),
                ..a1
            },
            Err(_) => a1,
        }
    }
}

/// Saving a GitHub token needs a non-empty trimmed label and value; the token
/// gets a fresh id, becomes the selected one, and the tokens are saved.
pub open spec fn save_token_post(a: AppView, b: AppView, e: Seq<EffectView>) -> bool {
    let label = trim(a.new_token_label);
    let value = trim(a.new_token_value);
    if label.len() > 0 && value.len() > 0 {
        let t = b.github_tokens.last();
        &&& b.github_tokens.len() == a.github_tokens.len() + 1
        &&& t == (TokenView { id: t.id, label, token: value })
        &&& crate::ids::is_uuid_v4_text(t.id)
        &&& b == (AppView {
            github_tokens: a.github_tokens.push(t),
            selected_github_token: Some(label),
            new_token_label: seq![],
            new_token_value: seq![],
            ..a
        })
        &&& e == seq![EffectView::SaveGithubTokens]
    } else {
        b == a && e == Seq::<EffectView>::empty()
    }
}

/// Adding an env var needs a non-empty trimmed key; both are trimmed and the
/// input fields cleared.
pub open spec fn add_env_step(a: AppView) -> AppView {
    let key = trim(a.deploy_env_key);
    let value = trim(a.deploy_env_value);
    if key.len() > 0 {
        AppView {
            deploy_env_vars: a.deploy_env_vars.push((key, value)),
            deploy_env_key: seq![],
            deploy_env_value: seq![],
            ..a
        }
    } else {
        a
    }
}

/// Opening the deploy form starts from an empty form.
pub open spec fn open_deploy_step(a: AppView) -> AppView {
    AppView {
        deploy_open: true,
        deploy_target: None,
        deploy_name: seq![],
        deploy_runtime: seq![],
        deploy_build: seq![],
        deploy_run: seq![],
        deploy_path: seq![],
        deploy_use_github: false,
        deploy_github_url: seq![],
        deploy_env_vars: seq![],
        deploy_env_key: seq![],
        deploy_env_value: seq![],
        ..a
    }
}

/// The token of the first saved token from position `k` on with this label.
pub open spec fn token_for_label_from(tokens: Seq<TokenView>, label: Seq<char>, k: int) -> Option<
    Seq<char>,
>
    decreases tokens.len() - k,
{
    if k < 0 || k >= tokens.len() {
        None
    } else if tokens[k].label == label {
        Some(tokens[k].token)
    } else {
        token_for_label_from(tokens, label, k + 1)
    }
}

/// A non-empty text, or `None`.
pub open spec fn non_empty(s: Seq<char>) -> Option<Seq<char>> {
    if s.len() == 0 {
        None
    } else {
        Some(s)
    }
}

/// Submitting the deploy form: a target is required (else an error is
/// shown); a source (folder, or GitHub URL when GitHub is chosen), a name and
/// a runtime are required (else nothing happens). A job is added as
/// `"packaging"` and expanded, the form is closed, and the deploy is started.
pub open spec fn submit_step(a: AppView) -> (AppView, Seq<EffectView>) {
    let use_github = a.deploy_use_github && trim(a.deploy_github_url).len() > 0;
    match a.deploy_target {
        None => (a, seq![EffectView::Notify(ToastKind::Error, "Select a deployment target server"@)]),
        Some(target) => if (!use_github && a.deploy_path.len() == 0) || trim(a.deploy_name).len()
            == 0 || a.deploy_runtime.len() == 0 {
            (a, seq![])
        } else {
            let id = a.next_deploy_id;
            let name = trim(a.deploy_name);
            let server_name = server_name_of(a.servers, target as int);
            let source_path = if a.deploy_use_github {
                seq![]
            } else {
                a.deploy_path
            };
            let order = OrderView {
                deploy_id: id,
                server_index: target,
                name,
                runtime: a.deploy_runtime,
                build_command: trim(a.deploy_build),
                run_command: trim(a.deploy_run),
                source_path,
                env_vars: a.deploy_env_vars,
                github_url: if use_github {
                    Some(trim(a.deploy_github_url))
                } else {
                    None
                },
                github_token: if a.deploy_use_github {
                    match a.selected_github_token {
                        Some(l) => token_for_label_from(a.github_tokens, l, 0),
                        None => None,
                    }
                } else {
                    None
                },
            };
            let job = JobView {
                id,
                name,
                runtime: a.deploy_runtime,
                source_path,
                status: "packaging"@,
                logs: seq!["Packaging source..."@],
                app_id: None,
                error: None,
                server_index: target,
                server_name,
            };
            (
                AppView {
                    next_deploy_id: (id + 1) as usize,
                    deploy_jobs: a.deploy_jobs.push(job),
                    expanded_deploy: Some(id),
                    deploy_open: false,
                    ..a
                },
                seq![
                    EffectView::Notify(ToastKind::Info, "Deploying "@ + name + " to "@ + server_name),
                    EffectView::StartDeploy(order),
                ],
            )
        },
    }
}

/// An event of a deploy stream is recorded on its job; a completion or an
/// error is announced and every server refreshed.
pub open spec fn deploy_event_step(a: AppView, id: usize, ev: Option<Event>) -> (
    AppView,
    Seq<EffectView>,
) {
    let i = job_index(a.deploy_jobs, id);
    if i == -1 {
        (a, seq![])
    } else {
        let j = a.deploy_jobs[i];
        let a1 = AppView { deploy_jobs: a.deploy_jobs.update(i, after_event(j, ev)), ..a };
        match ev {
            Some(Event::Complete { .. }) => (
                a1,
                seq![EffectView::Notify(ToastKind::Info, "Deployed "@ + j.name)] + refresh_effects(
                    a.servers,
                ),
            ),
            Some(Event::Error { message }) => (
                a1,
                seq![
                    EffectView::Notify(
                        ToastKind::Error,
                        "Deploy "@ + j.name + " failed: "@ + message@,
                    ),
                ] + refresh_effects(a.servers),
            ),
            _ => (a1, seq![]),
        }
    }
}

/// A deploy stream that ends while its job is in progress fails the job;
/// every server is refreshed either way.
pub open spec fn stream_ended_step(a: AppView, id: usize) -> (AppView, Seq<EffectView>) {
    let i = job_index(a.deploy_jobs, id);
    let r = refresh_effects(a.servers);
    if i != -1 && deploy_in_progress(a.deploy_jobs[i].status) {
        let j = a.deploy_jobs[i];
        (
            AppView {
                deploy_jobs: a.deploy_jobs.update(
                    i,
                    after_failure(j, "deploy stream ended unexpectedly"@),
                ),
                ..a
            },
            r + seq![
                EffectView::Notify(
                    ToastKind::Error,
                    "Deploy "@ + j.name + " failed: deploy stream ended unexpectedly"@,
                ),
            ],
        )
    } else {
        (a, r)
    }
}

/// The deploys still in progress, in order.
pub open spec fn active_jobs(jobs: Seq<JobView>) -> Seq<JobView>
    decreases jobs.len(),
{
    if jobs.len() == 0 {
        seq![]
    } else {
        active_jobs(jobs.drop_last()) + if deploy_in_progress(jobs.last().status) {
            seq![jobs.last()]
        } else {
            seq![]
        }
    }
}

/// Whether some job has this id.
pub open spec fn has_job_id(jobs: Seq<JobView>, id: usize) -> bool {
    exists|k: int| 0 <= k < jobs.len() && (#[trigger] jobs[k]).id == id
}

/// Clearing finished deploys keeps those in progress; the expanded one stays
/// expanded only if it is kept.
pub open spec fn clear_finished_step(a: AppView) -> AppView {
    let kept = active_jobs(a.deploy_jobs);
    AppView {
        deploy_jobs: kept,
        expanded_deploy: match a.expanded_deploy {
            Some(x) => if has_job_id(kept, x) {
                Some(x)
            } else {
                None
            },
            None => None,
        },
        ..a
    }
}

/// The periodic tick refreshes every connected server and the app on
/// screen, and shows the shell's lines while the terminal is open.
pub open spec fn tick_step(a: AppView, buffer: Seq<Seq<char>>) -> (AppView, Seq<EffectView>) {
    (
        if a.terminal_open {
            AppView { terminal_output: buffer, ..a }
        } else {
            a
        },
        refresh_effects(a.servers) + match a.screen {
            ScreenView::AppDetail(id, si) => seq![
                EffectView::FetchDetail(id, si),
                EffectView::FetchLogs(id, si),
            ],
            _ => seq![],
        },
    )
}

/// The deploy, update, notification and terminal part of `update_post`.
pub open spec fn update_post_rest(a: AppView, m: Message, b: AppView, e: Seq<EffectView>) -> bool {
    match m {
        Message::Tick(buf) => (b, e) == tick_step(a, buf.deep_view()),
        Message::SubmitDeploy => (b, e) == submit_step(a),
        Message::DeployStatus(id, status) => b == (AppView {
            deploy_jobs: update_job(a.deploy_jobs, id, |j: JobView| after_status(j, status@)),
            ..a
        }) && e == Seq::<EffectView>::empty(),
        Message::DeployEvent(id, ev) => (b, e) == deploy_event_step(a, id, ev.event),
        Message::DeployStreamEnded(id) => (b, e) == stream_ended_step(a, id),
        Message::DeployError(id, err) => b == (AppView {
            deploy_jobs: update_job(a.deploy_jobs, id, |j: JobView| after_failure(j, err@)),
            ..a
        }) && e == seq![EffectView::Notify(ToastKind::Error, "Deploy failed: "@ + err@)]
            + refresh_effects(a.servers),
        Message::ToggleDeployLog(id) => b == (AppView {
            expanded_deploy: if a.expanded_deploy == Some(id) {
                None
            } else {
                Some(id)
            },
            ..a
        }) && e == Seq::<EffectView>::empty(),
        Message::ClearFinishedDeploys => b == clear_finished_step(a) && e == Seq::<
            EffectView,
        >::empty(),
        Message::OpenUpdate(_id) => b == (match a.app_detail {
            Some(d) => AppView {
                update_build: d.build_command@,
                update_run: d.run_command@,
                update_open: true,
                ..a
            },
            None => AppView { update_open: true, ..a },
        }) && e == Seq::<EffectView>::empty(),
        Message::CloseUpdate => b == (AppView { update_open: false, ..a }) && e == Seq::<
            EffectView,
        >::empty(),
        Message::SetUpdateBuild(v) => b == (AppView { update_build: v@, ..a }) && e == Seq::<
            EffectView,
        >::empty(),
        Message::SetUpdateRun(v) => b == (AppView { update_run: v@, ..a }) && e == Seq::<
            EffectView,
        >::empty(),
        Message::ConfirmUpdate(id) => b == (AppView { update_open: false, ..a }) && e == seq![
            EffectView::UpdateApp(
                id@,
                a.app_detail_server,
                non_empty(trim(a.update_build)),
                non_empty(trim(a.update_run)),
            ),
        ],
        Message::Info(msg) => b == with_toast(a, msg@, ToastKind::Info) && e == Seq::<
            EffectView,
        >::empty(),
        Message::Error(msg) => b == with_toast(a, msg@, ToastKind::Error) && e == Seq::<
            EffectView,
        >::empty(),
        Message::DismissToast(i) => b == (if i < a.toasts.len() {
            AppView { toasts: a.toasts.remove(i as int), ..a }
        } else {
            a
        }) && e == Seq::<EffectView>::empty(),
        Message::Copy(t) => b == a && e == seq![EffectView::Copy(t@)],
        Message::OpenTerminal(si) => b == (AppView {
            terminal_open: true,
            terminal_server: si,
            terminal_output: seq![],
            terminal_input: seq![],
            screen: ScreenView::Terminal(si),
            ..a
        }) && e == seq![
            EffectView::OpenShell(si),
            EffectView::Notify(
                ToastKind::Info,
                "Shell opened on "@ + server_name_of(a.servers, si as int),
            ),
        ],
        Message::SetTerminalInput(v) => b == (AppView { terminal_input: v@, ..a }) && e == Seq::<
            EffectView,
        >::empty(),
        Message::SubmitShellCommand => b == (AppView { terminal_input: seq![], ..a }) && e
            == seq![EffectView::SendShellInput(a.terminal_input + "\n"@)],
        Message::CloseTerminal => b == (AppView {
            terminal_open: false,
            terminal_output: seq![],
            terminal_input: seq![],
            screen: ScreenView::Dashboard,
            ..a
        }) && e == seq![EffectView::CloseShell],
        _ => b == a && e == Seq::<EffectView>::empty(),
    }
}

/// The detail-and-form part of `update_post`.
pub open spec fn update_post_detail(a: AppView, m: Message, b: AppView, e: Seq<EffectView>) -> bool {
    match m {
        Message::SelectApp(id, si) => b == (AppView {
            screen: ScreenView::AppDetail(id@, si),
            app_detail_server: si,
            app_detail: None,
            log_entries: seq![],
            ..a
        }) && e == seq![EffectView::FetchDetail(id@, si)],
        Message::AppDetail(d) => b == (AppView { app_detail: Some(d), ..a }) && e == Seq::<
            EffectView,
        >::empty(),
        Message::LogLines(lines) => b == (AppView { log_entries: lines.deep_view(), ..a }) && e
            == Seq::<EffectView>::empty(),
        Message::BackToDashboard => b == leave_detail(a) && e == Seq::<EffectView>::empty(),
        Message::StartApp(id, si) => b == a && e == seq![
            EffectView::AppAction(id@, si, AppAction::Start),
        ],
        Message::StopApp(id, si) => b == a && e == seq![
            EffectView::AppAction(id@, si, AppAction::Stop),
        ],
        Message::RestartApp(id, si) => b == a && e == seq![
            EffectView::AppAction(id@, si, AppAction::Restart),
        ],
        Message::DeleteApp(id, si) => b == (match a.app_detail {
            Some(d) => if d.app_id@ == id@ {
                AppView { confirm_delete: Some((id@, d.name@, si)), ..a }
            } else {
                a
            },
            None => a,
        }) && e == Seq::<EffectView>::empty(),
        Message::CancelDelete => b == (AppView { confirm_delete: None, ..a }) && e == Seq::<
            EffectView,
        >::empty(),
        Message::ConfirmDelete(id, _name, si) => b == (AppView { confirm_delete: None, ..a }) && e
            == seq![EffectView::DeleteApp(id@, si)],
        Message::OpenDeploy => b == open_deploy_step(a) && e == Seq::<EffectView>::empty(),
        Message::CloseDeploy => b == (AppView { deploy_open: false, ..a }) && e == refresh_effects(
            a.servers,
        ),
        Message::SetDeployTarget(t) => b == (AppView { deploy_target: t, ..a }) && e == Seq::<
            EffectView,
        >::empty(),
        Message::SetDeployName(v) => b == (AppView { deploy_name: v@, ..a }) && e == Seq::<
            EffectView,
        >::empty(),
        Message::SetDeployRuntime(v) => b == deploy_runtime_step(a, v@) && e == Seq::<
            EffectView,
        >::empty(),
        Message::SetDeployBuild(v) => b == (AppView { deploy_build: v@, ..a }) && e == Seq::<
            EffectView,
        >::empty(),
        Message::SetDeployRun(v) => b == (AppView { deploy_run: v@, ..a }) && e == Seq::<
            EffectView,
        >::empty(),
        Message::SetDeployPath(v) => b == (AppView { deploy_path: v@, ..a }) && e == Seq::<
            EffectView,
        >::empty(),
        Message::ToggleGithub => b == (AppView { deploy_use_github: !a.deploy_use_github, ..a })
            && e == Seq::<EffectView>::empty(),
        Message::SetDeployGithubUrl(v) => b == (AppView { deploy_github_url: v@, ..a }) && e
            == Seq::<EffectView>::empty(),
        Message::SelectGithubToken(l) => b == (AppView { selected_github_token: opt_view(l), ..a })
            && e == Seq::<EffectView>::empty(),
        Message::SetNewTokenLabel(v) => b == (AppView { new_token_label: v@, ..a }) && e == Seq::<
            EffectView,
        >::empty(),
        Message::SetNewTokenValue(v) => b == (AppView { new_token_value: v@, ..a }) && e == Seq::<
            EffectView,
        >::empty(),
        Message::SaveGithubToken => save_token_post(a, b, e),
        Message::PickPath => b == a && e == seq![EffectView::PickFolder],
        Message::SetEnvKey(v) => b == (AppView { deploy_env_key: v@, ..a }) && e == Seq::<
            EffectView,
        >::empty(),
        Message::SetEnvValue(v) => b == (AppView { deploy_env_value: v@, ..a }) && e == Seq::<
            EffectView,
        >::empty(),
        Message::AddEnvVar => b == add_env_step(a) && e == Seq::<EffectView>::empty(),
        Message::RemoveEnvVar(i) => b == (if i < a.deploy_env_vars.len() {
            AppView { deploy_env_vars: a.deploy_env_vars.remove(i as int), ..a }
        } else {
            a
        }) && e == Seq::<EffectView>::empty(),
        Message::PickEnvFile => b == a && e == seq![EffectView::PickEnvFile],
        Message::EnvFilePicked(_path, vars) => b == with_toast(
            AppView { deploy_env_vars: a.deploy_env_vars + pairs_view(vars@), ..a },
            "Imported "@ + dec(vars@.len()) + " env vars from .env file"@,
            ToastKind::Info,
        ) && e == Seq::<EffectView>::empty(),
        _ => update_post_rest(a, m, b, e),
    }
}

/// What each message does to the state, and which effects it asks for.
pub open spec fn update_post(a: AppView, m: Message, b: AppView, e: Seq<EffectView>) -> bool {
    match m {
        Message::Noop => b == a && e == Seq::<EffectView>::empty(),
        Message::ManageServers => b == (AppView {
            show_manage_servers: true,
            show_add_form: false,
            ..a
        }) && e == Seq::<EffectView>::empty(),
        Message::CloseManageServers => b == (AppView { show_manage_servers: false, ..a }) && e
            == Seq::<EffectView>::empty(),
        Message::ShowAddForm => b == (AppView {
            show_add_form: true,
            show_manage_servers: false,
            ..a
        }) && e == Seq::<EffectView>::empty(),
        Message::HideAddForm => b == (AppView {
            show_add_form: false,
            addr_input: seq![],
            token_input: seq![],
            name_input: seq![],
            form_error: None,
            ..a
        }) && e == Seq::<EffectView>::empty(),
        Message::SetAddr(v) => b == (AppView { addr_input: v@, ..a }) && e == Seq::<
            EffectView,
        >::empty(),
        Message::SetToken(v) => b == (AppView { token_input: v@, ..a }) && e == Seq::<
            EffectView,
        >::empty(),
        Message::SetServerName(v) => b == (AppView { name_input: v@, ..a }) && e == Seq::<
            EffectView,
        >::empty(),
        Message::Connect => (b, e) == connect_step(a),
        Message::ServerAdded(name, key, now) => server_added_post(a, name@, key@, now, b, e),
        Message::ServerAddError(err) => b == (AppView { form_error: Some(err@), ..a }) && e
            == Seq::<EffectView>::empty(),
        Message::ServerConnected(idx, ok) => (b, e) == server_connected_step(a, idx, ok),
        Message::ServerError(idx, err) => b == server_error_step(a, idx, err@) && e == Seq::<
            EffectView,
        >::empty(),
        Message::Disconnect(idx) => (b, e) == disconnect_step(a, idx),
        Message::Reconnect(idx) => (b, e) == reconnect_step(a, idx),
        Message::StartRename(idx) => b == (if idx < a.servers.len() {
            AppView {
                rename_value: a.servers[idx as int].profile.name,
                editing_server: Some(idx),
                ..a
            }
        } else {
            a
        }) && e == Seq::<EffectView>::empty(),
        Message::SetRenameValue(v) => b == (AppView { rename_value: v@, ..a }) && e == Seq::<
            EffectView,
        >::empty(),
        Message::ConfirmRename(idx) => (b, e) == confirm_rename_step(a, idx),
        Message::CancelRename => b == (AppView { editing_server: None, rename_value: seq![], ..a })
            && e == Seq::<EffectView>::empty(),
        Message::ConfirmServerDelete(idx) => b == (if idx < a.servers.len() {
            AppView { confirm_server_delete: Some(idx), ..a }
        } else {
            a
        }) && e == Seq::<EffectView>::empty(),
        Message::CancelServerDelete => b == (AppView { confirm_server_delete: None, ..a }) && e
            == Seq::<EffectView>::empty(),
        Message::DeleteServer(idx) => (b, e) == delete_server_step(a, idx),
        Message::ServerData(idx, info, metrics) => b == (if idx < a.servers.len() {
            with_server(
                a,
                idx as int,
                ServerView { info: Some(info), metrics: Some(metrics), ..a.servers[idx as int] },
            )
        } else {
            a
        }) && e == Seq::<EffectView>::empty(),
        Message::ServerApps(idx, apps) => b == server_apps_step(a, idx, apps@) && e == Seq::<
            EffectView,
        >::empty(),
        _ => update_post_detail(a, m, b, e),
    }
}

pub(crate) fn no_effects() -> (v: Vec<Effect>)
    ensures
        effects_view(v@) == Seq::<EffectView>::empty(),
{
    let v: Vec<Effect> = Vec::new();
    assert(effects_view(v@) =~= Seq::<EffectView>::empty());
    v
}

pub(crate) fn one_effect(x: Effect) -> (v: Vec<Effect>)
    ensures
        effects_view(v@) == seq![effect_view(x)],
{
    let mut v: Vec<Effect> = Vec::new();
    v.push(x);
    assert(effects_view(v@) =~= seq![effect_view(x)]);
    v
}

pub(crate) fn two_effects(x: Effect, y: Effect) -> (v: Vec<Effect>)
    ensures
        effects_view(v@) == seq![effect_view(x), effect_view(y)],
{
    let mut v: Vec<Effect> = Vec::new();
    v.push(x);
    v.push(y);
    assert(effects_view(v@) =~= seq![effect_view(x), effect_view(y)]);
    v
}

pub(crate) fn push_effect(v: &mut Vec<Effect>, x: Effect)
    ensures
        effects_view(final(v)@) == effects_view(old(v)@).push(effect_view(x)),
{
    v.push(x);
    assert(effects_view(v@) =~= effects_view(old(v)@).push(effect_view(x)));
}

pub(crate) fn append_effects(v: &mut Vec<Effect>, w: Vec<Effect>)
    ensures
        effects_view(final(v)@) == effects_view(old(v)@) + effects_view(w@),
{
    let mut w = w;
    let n = w.len();
    let ghost wv = w@;
    let ghost start = effects_view(v@);
    let mut k: usize = 0;
    while w.len() > 0
        invariant
            k <= wv.len() == n,
            k + w@.len() == wv.len(),
            w@ == wv.skip(k as int),
            effects_view(v@) == start + effects_view(wv.take(k as int)),
        decreases w@.len(),
    {
        let x = w.remove(0);
        let ghost prev = v@;
        v.push(x);
        assert(effects_view(v@) =~= effects_view(prev).push(effect_view(x)));
        assert(effects_view(wv.take(k + 1)) =~= effects_view(wv.take(k as int)).push(
            effect_view(x),
        ));
        assert(w@ =~= wv.skip(k + 1));
        k = k + 1;
    }
    assert(wv.take(k as int) =~= wv);
}

proof fn lemma_servers_update(v: Seq<ServerState>, i: int, s: ServerState)
    requires
        0 <= i < v.len(),
    ensures
        v.update(i, s).map_values(|x: ServerState| x@) == v.map_values(|x: ServerState| x@).update(
            i,
            s@,
        ),
{
    assert(v.update(i, s).map_values(|x: ServerState| x@) =~= v.map_values(
        |x: ServerState| x@,
    ).update(i, s@));
}

proof fn lemma_servers_remove(v: Seq<ServerState>, i: int)
    requires
        0 <= i < v.len(),
    ensures
        v.remove(i).map_values(|x: ServerState| x@) == v.map_values(|x: ServerState| x@).remove(i),
{
    assert(v.remove(i).map_values(|x: ServerState| x@) =~= v.map_values(
        |x: ServerState| x@,
    ).remove(i));
}

/// The refreshes of every connected server.
pub fn refresh_all(app: &RoverApp) -> (v: Vec<Effect>)
    ensures
        effects_view(v@) == refresh_effects(app@.servers),
{
    let ghost sv = app@.servers;
    let mut v = no_effects();
    let mut i: usize = 0;
    while i < app.servers.len()
        invariant
            i <= app.servers@.len(),
            sv == app@.servers,
            effects_view(v@) == refresh_effects(sv.take(i as int)),
        decreases app.servers@.len() - i,
    {
        assert(sv.take(i + 1).drop_last() =~= sv.take(i as int));
        if app.servers[i].connected {
            push_effect(&mut v, Effect::RefreshData(i));
            push_effect(&mut v, Effect::RefreshApps(i));
            assert(effects_view(v@) =~= refresh_effects(sv.take(i + 1)));
        } else {
            assert(refresh_effects(sv.take(i + 1)) =~= refresh_effects(sv.take(i as int)));
        }
        i = i + 1;
    }
    assert(sv.take(i as int) =~= sv);
    v
}

fn leave_detail_screen(app: &mut RoverApp)
    ensures
        final(app)@ == leave_detail(old(app)@),
{
    app.screen = Screen::Dashboard;
    app.app_detail = None;
    app.log_entries = Vec::new();
    assert(app.log_entries.deep_view() =~= Seq::<Seq<char>>::empty());
}

fn viewing(app: &RoverApp, idx: usize) -> (b: bool)
    ensures
        b == viewing_server(app@, idx),
{
    match &app.screen {
        Screen::AppDetail(_, si) => *si == idx,
        _ => false,
    }
}

fn connect_server(app: &mut RoverApp) -> (v: Vec<Effect>)
    ensures
        (final(app)@, effects_view(v@)) == connect_step(old(app)@),
{
    let addr = trimmed(app.addr_input.as_str());
    let token = trimmed(app.token_input.as_str());
    let n = trimmed(app.name_input.as_str());
    let name = if n.as_str().is_empty() {
        addr.clone()
    } else {
        n
    };
    if addr.as_str().is_empty() || token.as_str().is_empty() {
        app.form_error = Some(owned("Address and pairing token are required"));
        return no_effects();
    }
    app.form_error = None;
    one_effect(Effect::Pair(addr, token, name))
}

fn server_added(app: &mut RoverApp, name: String, api_key: String, now: i64) -> (v: Vec<Effect>)
    ensures
        server_added_post(old(app)@, name@, api_key@, now, final(app)@, effects_view(v@)),
{
    let addr = trimmed(app.addr_input.as_str());
    let mut profile = crate::profile::ConnectionProfile::new(name, addr);
    profile.api_key = Some(api_key);
    profile.last_used = Some(now);
    let idx = app.servers.len();
    let saved = crate::profile::ConnectionProfile {
        id: profile.id.clone(),
        name: profile.name.clone(),
        address: profile.address.clone(),
        api_key: match &profile.api_key {
            Some(k) => Some(k.clone()),
            None => None,
        },
        last_used: profile.last_used,
    };
    let s = ServerState {
        profile,
        connected: true,
        connecting: false,
        error: None,
        info: None,
        metrics: None,
        apps: Vec::new(),
    };
    assert(s@.apps =~= Seq::<AppSummary>::empty());
    let ghost before = app.servers@;
    app.servers.push(s);
    assert(app.servers@.map_values(|x: ServerState| x@) =~= before.map_values(
        |x: ServerState| x@,
    ).push(s@));
    app.show_add_form = false;
    app.addr_input = String::new();
    app.token_input = String::new();
    app.name_input = String::new();
    app.form_error = None;
    leave_detail_screen(app);
    let mut v = one_effect(Effect::SaveProfile(saved));
    push_effect(&mut v, Effect::RefreshData(idx));
    push_effect(&mut v, Effect::RefreshApps(idx));
    v
}

fn server_connected(app: &mut RoverApp, idx: usize, ok: bool) -> (v: Vec<Effect>)
    ensures
        (final(app)@, effects_view(v@)) == server_connected_step(old(app)@, idx, ok),
{
    if idx < app.servers.len() {
        let ghost before = app.servers@;
        let s = &mut app.servers[idx];
        s.connected = ok;
        s.connecting = false;
        s.error = None;
        proof {
            lemma_servers_update(before, idx as int, app.servers@[idx as int]);
        }
        if ok {
            let mut v = one_effect(Effect::RefreshData(idx));
            push_effect(&mut v, Effect::RefreshApps(idx));
            return v;
        }
    }
    no_effects()
}

fn server_error(app: &mut RoverApp, idx: usize, err: String)
    ensures
        final(app)@ == server_error_step(old(app)@, idx, err@),
{
    if idx < app.servers.len() {
        let ghost before = app.servers@;
        let s = &mut app.servers[idx];
        s.connecting = false;
        s.error = Some(err.clone());
        proof {
            lemma_servers_update(before, idx as int, app.servers@[idx as int]);
        }
    }
    set_toast(app, concat("Server connection error: ", err.as_str()), ToastKind::Error);
}

fn set_toast(app: &mut RoverApp, message: String, kind: ToastKind)
    ensures
        final(app)@ == with_toast(old(app)@, message@, kind),
{
    let mut t: Vec<Toast> = Vec::new();
    t.push(Toast { message, kind });
    app.toasts = t;
    assert(crate::client::model::toasts_view(app.toasts@) =~= seq![(message@, kind)]);
}

fn disconnect(app: &mut RoverApp, idx: usize) -> (v: Vec<Effect>)
    ensures
        (final(app)@, effects_view(v@)) == disconnect_step(old(app)@, idx),
{
    let known = idx < app.servers.len();
    if known {
        let ghost before = app.servers@;
        let s = &mut app.servers[idx];
        s.connected = false;
        s.info = None;
        s.metrics = None;
        s.apps = Vec::new();
        s.error = None;
        proof {
            assert(app.servers@[idx as int]@.apps =~= Seq::<AppSummary>::empty());
            lemma_servers_update(before, idx as int, app.servers@[idx as int]);
        }
    }
    app.rebuild_all_apps();
    if viewing(app, idx) {
        leave_detail_screen(app);
    }
    if known {
        one_effect(Effect::DropClient(idx))
    } else {
        no_effects()
    }
}

fn reconnect(app: &mut RoverApp, idx: usize) -> (v: Vec<Effect>)
    ensures
        (final(app)@, effects_view(v@)) == reconnect_step(old(app)@, idx),
{
    if idx < app.servers.len() && !app.servers[idx].connected && !app.servers[idx].connecting
        && app.servers[idx].profile.api_key.is_some() {
        let ghost before = app.servers@;
        let addr = app.servers[idx].profile.address.clone();
        let key = match &app.servers[idx].profile.api_key {
            Some(k) => k.clone(),
            None => String::new(),
        };
        let s = &mut app.servers[idx];
        s.connecting = true;
        s.error = None;
        proof {
            lemma_servers_update(before, idx as int, app.servers@[idx as int]);
        }
        one_effect(Effect::Reconnect(idx, addr, key))
    } else {
        no_effects()
    }
}

fn copy_profile(p: &crate::profile::ConnectionProfile) -> (r: crate::profile::ConnectionProfile)
    ensures
        r@ == p@,
{
    crate::profile::ConnectionProfile {
        id: p.id.clone(),
        name: p.name.clone(),
        address: p.address.clone(),
        api_key: match &p.api_key {
            Some(k) => Some(k.clone()),
            None => None,
        },
        last_used: p.last_used,
    }
}

fn confirm_rename(app: &mut RoverApp, idx: usize) -> (v: Vec<Effect>)
    ensures
        (final(app)@, effects_view(v@)) == confirm_rename_step(old(app)@, idx),
{
    let new_name = trimmed(app.rename_value.as_str());
    let mut v = no_effects();
    if !new_name.as_str().is_empty() && idx < app.servers.len() {
        let ghost before = app.servers@;
        let s = &mut app.servers[idx];
        s.profile.name = new_name;
        let saved = copy_profile(&s.profile);
        proof {
            lemma_servers_update(before, idx as int, app.servers@[idx as int]);
        }
        v = one_effect(Effect::SaveProfile(saved));
    }
    app.editing_server = None;
    app.rename_value = String::new();
    app.rebuild_all_apps();
    v
}

fn delete_server(app: &mut RoverApp, idx: usize) -> (v: Vec<Effect>)
    ensures
        (final(app)@, effects_view(v@)) == delete_server_step(old(app)@, idx),
{
    app.confirm_server_delete = None;
    let mut v = no_effects();
    if idx < app.servers.len() {
        let id = app.servers[idx].profile.id.clone();
        let ghost before = app.servers@;
        let _removed = app.servers.remove(idx);
        proof {
            lemma_servers_remove(before, idx as int);
        }
        v = one_effect(Effect::RemoveProfile(id));
        if viewing(app, idx) {
            leave_detail_screen(app);
        }
    }
    app.rebuild_all_apps();
    v
}

fn server_data(app: &mut RoverApp, idx: usize, info: ServerInfo, metrics: ServerMetrics)
    ensures
        final(app)@ == (if idx < old(app)@.servers.len() {
            with_server(
                old(app)@,
                idx as int,
                ServerView {
                    info: Some(info),
                    metrics: Some(metrics),
                    ..old(app)@.servers[idx as int]
                },
            )
        } else {
            old(app)@
        }),
{
    if idx < app.servers.len() {
        let ghost before = app.servers@;
        let s = &mut app.servers[idx];
        s.info = Some(info);
        s.metrics = Some(metrics);
        proof {
            lemma_servers_update(before, idx as int, app.servers@[idx as int]);
        }
    }
}

pub(crate) fn has_app(apps: &Vec<AppSummary>, id: &String) -> (b: bool)
    ensures
        b == has_app_id(apps@, id@),
{
    let mut i: usize = 0;
    while i < apps.len()
        invariant
            i <= apps@.len(),
            forall|k: int| 0 <= k < i ==> (#[trigger] apps@[k]).app_id@ != id@,
        decreases apps@.len() - i,
    {
        if apps[i].app_id == *id {
            return true;
        }
        i = i + 1;
    }
    false
}

fn server_apps(app: &mut RoverApp, idx: usize, apps: Vec<AppSummary>)
    ensures
        final(app)@ == server_apps_step(old(app)@, idx, apps@),
{
    let gone = match &app.screen {
        Screen::AppDetail(id, si) => *si == idx && !has_app(&apps, id),
        _ => false,
    };
    if gone {
        leave_detail_screen(app);
    }
    if idx < app.servers.len() {
        let ghost before = app.servers@;
        let s = &mut app.servers[idx];
        s.apps = apps;
        proof {
            lemma_servers_update(before, idx as int, app.servers@[idx as int]);
        }
    }
    app.rebuild_all_apps();
}

fn set_deploy_runtime(app: &mut RoverApp, v: String)
    ensures
        final(app)@ == deploy_runtime_step(old(app)@, v@),
{
    let empty = v.as_str().is_empty();
    let parsed = crate::status::Runtime::parse(v.as_str());
    app.deploy_runtime = v;
    if !empty {
        match parsed {
            Ok(r) => {
                app.deploy_build = owned(r.default_build_command());
                app.deploy_run = owned(r.default_run_command());
            },
            Err(_) => {},
        }
    }
}

fn save_github_token(app: &mut RoverApp) -> (v: Vec<Effect>)
    ensures
        save_token_post(old(app)@, final(app)@, effects_view(v@)),
{
    let label = trimmed(app.new_token_label.as_str());
    let value = trimmed(app.new_token_value.as_str());
    if !label.as_str().is_empty() && !value.as_str().is_empty() {
        let token = GithubToken::new(label.clone(), value);
        app.selected_github_token = Some(label);
        let ghost before = app.github_tokens@;
        app.github_tokens.push(token);
        assert(app.github_tokens@.map_values(|t: GithubToken| t@) =~= before.map_values(
            |t: GithubToken| t@,
        ).push(token@));
        app.new_token_label = String::new();
        app.new_token_value = String::new();
        one_effect(Effect::SaveGithubTokens)
    } else {
        no_effects()
    }
}

fn add_env_var(app: &mut RoverApp)
    ensures
        final(app)@ == add_env_step(old(app)@),
{
    let key = trimmed(app.deploy_env_key.as_str());
    let value = trimmed(app.deploy_env_value.as_str());
    if !key.as_str().is_empty() {
        let ghost before = app.deploy_env_vars@;
        app.deploy_env_vars.push((key, value));
        assert(pairs_view(app.deploy_env_vars@) =~= pairs_view(before).push((key@, value@)));
        app.deploy_env_key = String::new();
        app.deploy_env_value = String::new();
    }
}

fn remove_env_var(app: &mut RoverApp, i: usize)
    ensures
        final(app)@ == (if i < old(app)@.deploy_env_vars.len() {
            AppView { deploy_env_vars: old(app)@.deploy_env_vars.remove(i as int), ..old(app)@ }
        } else {
            old(app)@
        }),
{
    if i < app.deploy_env_vars.len() {
        let ghost before = app.deploy_env_vars@;
        let _gone = app.deploy_env_vars.remove(i);
        assert(pairs_view(app.deploy_env_vars@) =~= pairs_view(before).remove(i as int));
    }
}

fn env_file_picked(app: &mut RoverApp, vars: Vec<(String, String)>)
    ensures
        final(app)@ == with_toast(
            AppView {
                deploy_env_vars: old(app)@.deploy_env_vars + pairs_view(vars@),
                ..old(app)@
            },
            "Imported "@ + dec(vars@.len()) + " env vars from .env file"@,
            ToastKind::Info,
        ),
{
    let count = vars.len();
    let mut vars = vars;
    let ghost before = app.deploy_env_vars@;
    let ghost added = vars@;
    app.deploy_env_vars.append(&mut vars);
    assert(pairs_view(app.deploy_env_vars@) =~= pairs_view(before) + pairs_view(added));
    let mut text: Vec<char> = Vec::new();
    push_str(&mut text, "Imported ");
    push_dec(&mut text, count as u64);
    push_str(&mut text, " env vars from .env file");
    set_toast(app, string_from_chars(text.as_slice()), ToastKind::Info);
}

pub(crate) fn find_token(tokens: &Vec<GithubToken>, label: &String) -> (r: Option<String>)
    ensures
        opt_view(r) == token_for_label_from(tokens@.map_values(|t: GithubToken| t@), label@, 0),
{
    let ghost tv = tokens@.map_values(|t: GithubToken| t@);
    let mut i: usize = 0;
    while i < tokens.len()
        invariant
            i <= tokens@.len(),
            tv == tokens@.map_values(|t: GithubToken| t@),
            token_for_label_from(tv, label@, 0) == token_for_label_from(tv, label@, i as int),
        decreases tokens@.len() - i,
    {
        if tokens[i].label == *label {
            return Some(tokens[i].token.clone());
        }
        i = i + 1;
    }
    None
}

fn submit_deploy(app: &mut RoverApp) -> (v: Vec<Effect>)
    requires
        old(app)@.next_deploy_id < usize::MAX,
    ensures
        (final(app)@, effects_view(v@)) == submit_step(old(app)@),
{
    let url = trimmed(app.deploy_github_url.as_str());
    let use_github = app.deploy_use_github && !url.as_str().is_empty();
    let target = match app.deploy_target {
        Some(t) => t,
        None => {
            return one_effect(
                Effect::Notify(ToastKind::Error, owned("Select a deployment target server")),
            );
        },
    };
    let name = trimmed(app.deploy_name.as_str());
    if (!use_github && app.deploy_path.as_str().is_empty()) || name.as_str().is_empty()
        || app.deploy_runtime.as_str().is_empty() {
        return no_effects();
    }
    let deploy_id = app.next_deploy_id;
    app.next_deploy_id = app.next_deploy_id + 1;
    let runtime = app.deploy_runtime.clone();
    let build_cmd = trimmed(app.deploy_build.as_str());
    let run_cmd = trimmed(app.deploy_run.as_str());
    let source_path = if app.deploy_use_github {
        String::new()
    } else {
        app.deploy_path.clone()
    };
    let github_url = if use_github {
        Some(url)
    } else {
        None
    };
    let github_token = if app.deploy_use_github {
        match &app.selected_github_token {
            Some(label) => find_token(&app.github_tokens, label),
            None => None,
        }
    } else {
        None
    };
    let env_vars = crate::text::clone_pairs(&app.deploy_env_vars);
    let server_name = app.server_name_for(target);
    let mut logs: Vec<String> = Vec::new();
    logs.push(owned("Packaging source..."));
    let job = DeployJob {
        id: deploy_id,
        name: name.clone(),
        runtime: runtime.clone(),
        source_path: source_path.clone(),
        status: owned("packaging"),
        logs,
        app_id: None,
        error: None,
        server_index: target,
        server_name: server_name.clone(),
    };
    assert(job.logs.deep_view() =~= seq!["Packaging source..."@]);
    let ghost before = app.deploy_jobs@;
    app.deploy_jobs.push(job);
    assert(jobs_view(app.deploy_jobs@) =~= jobs_view(before).push(job_view(job)));
    app.expanded_deploy = Some(deploy_id);
    app.deploy_open = false;
    let head = concat3("Deploying ", name.as_str(), " to ");
    let note = concat(head.as_str(), server_name.as_str());
    let order = DeployOrder {
        deploy_id,
        server_index: target,
        name,
        runtime,
        build_command: build_cmd,
        run_command: run_cmd,
        source_path,
        env_vars,
        github_url,
        github_token,
    };
    let mut v = one_effect(Effect::Notify(ToastKind::Info, note));
    push_effect(&mut v, Effect::StartDeploy(order));
    v
}

fn deploy_status(app: &mut RoverApp, id: usize, status: String)
    ensures
        final(app)@ == (AppView {
            deploy_jobs: update_job(
                old(app)@.deploy_jobs,
                id,
                |j: JobView| after_status(j, status@),
            ),
            ..old(app)@
        }),
{
    match app.find_deploy_mut(id) {
        Some(job) => record_status(job, status),
        None => {},
    }
}

fn deploy_event(app: &mut RoverApp, id: usize, event: DeployEvent) -> (v: Vec<Effect>)
    ensures
        (final(app)@, effects_view(v@)) == deploy_event_step(old(app)@, id, event.event),
{
    let mut v = no_effects();
    let mut refresh = false;
    match app.find_deploy_mut(id) {
        Some(job) => {
            record_event(job, &event);
            match &event.event {
                Some(Event::Complete { .. }) => {
                    push_effect(
                        &mut v,
                        Effect::Notify(ToastKind::Info, concat("Deployed ", job.name.as_str())),
                    );
                    refresh = true;
                },
                Some(Event::Error { message }) => {
                    let head = concat3("Deploy ", job.name.as_str(), " failed: ");
                    push_effect(
                        &mut v,
                        Effect::Notify(ToastKind::Error, concat(head.as_str(), message.as_str())),
                    );
                    refresh = true;
                },
                _ => {},
            }
        },
        None => {},
    }
    if refresh {
        let r = refresh_all(app);
        append_effects(&mut v, r);
    }
    v
}

fn deploy_stream_ended(app: &mut RoverApp, id: usize) -> (v: Vec<Effect>)
    ensures
        (final(app)@, effects_view(v@)) == stream_ended_step(old(app)@, id),
{
    let mut v = refresh_all(app);
    let active = match find_job(&app.deploy_jobs, id) {
        Some(i) => app.deploy_jobs[i].is_active(),
        None => false,
    };
    if active {
        match app.find_deploy_mut(id) {
            Some(job) => {
                record_failure(job, "deploy stream ended unexpectedly");
                let note = concat3(
                    "Deploy ",
                    job.name.as_str(),
                    " failed: deploy stream ended unexpectedly",
                );
                push_effect(&mut v, Effect::Notify(ToastKind::Error, note));
            },
            None => {},
        }
    }
    v
}

fn deploy_failed(app: &mut RoverApp, id: usize, error: String) -> (v: Vec<Effect>)
    ensures
        final(app)@ == (AppView {
            deploy_jobs: update_job(
                old(app)@.deploy_jobs,
                id,
                |j: JobView| after_failure(j, error@),
            ),
            ..old(app)@
        }),
        effects_view(v@) == seq![EffectView::Notify(ToastKind::Error, "Deploy failed: "@ + error@)]
            + refresh_effects(old(app)@.servers),
{
    match app.find_deploy_mut(id) {
        Some(job) => record_failure(job, error.as_str()),
        None => {},
    }
    let mut v = one_effect(Effect::Notify(ToastKind::Error, concat("Deploy failed: ", error.as_str())));
    let r = refresh_all(app);
    append_effects(&mut v, r);
    v
}

fn clear_finished(app: &mut RoverApp)
    ensures
        final(app)@ == clear_finished_step(old(app)@),
{
    let mut rest: Vec<DeployJob> = Vec::new();
    std::mem::swap(&mut app.deploy_jobs, &mut rest);
    let ghost orig = rest@;
    let ghost jv = jobs_view(orig);
    let n = rest.len();
    let mut kept: Vec<DeployJob> = Vec::new();
    let mut k: usize = 0;
    while rest.len() > 0
        invariant
            k <= n == orig.len(),
            k + rest@.len() == n,
            rest@ == orig.skip(k as int),
            jv == jobs_view(orig),
            jobs_view(kept@) == active_jobs(jv.take(k as int)),
        decreases rest@.len(),
    {
        let x = rest.remove(0);
        assert(x == orig[k as int]);
        assert(jv.take(k + 1).drop_last() =~= jv.take(k as int));
        assert(jv.take(k + 1).last() == job_view(x));
        if x.is_active() {
            let ghost prev = kept@;
            kept.push(x);
            assert(jobs_view(kept@) =~= jobs_view(prev).push(job_view(x)));
        }
        assert(rest@ =~= orig.skip(k + 1));
        k = k + 1;
    }
    assert(jv.take(k as int) =~= jv);
    app.deploy_jobs = kept;
    match app.expanded_deploy {
        Some(x) => {
            if find_job(&app.deploy_jobs, x).is_none() {
                app.expanded_deploy = None;
                proof {
                    let kv = jobs_view(app.deploy_jobs@);
                    if has_job_id(kv, x) {
                        let q = choose|q: int| 0 <= q < kv.len() && (#[trigger] kv[q]).id == x;
                        lemma_job_index_none(kv, x, 0, q);
                    }
                }
            } else {
                proof {
                    let kv = jobs_view(app.deploy_jobs@);
                    lemma_job_index_from(kv, x, 0);
                    assert(kv[job_index(kv, x)].id == x);
                }
            }
        },
        None => {},
    }
}

fn tick(app: &mut RoverApp, buffer: Vec<String>) -> (v: Vec<Effect>)
    ensures
        (final(app)@, effects_view(v@)) == tick_step(old(app)@, buffer.deep_view()),
{
    let mut v = refresh_all(app);
    match &app.screen {
        Screen::AppDetail(id, si) => {
            push_effect(&mut v, Effect::FetchDetail(id.clone(), *si));
            push_effect(&mut v, Effect::FetchLogs(id.clone(), *si));
        },
        _ => {},
    }
    if app.terminal_open {
        app.terminal_output = buffer;
    }
    v
}

/// Which part of the handlers deals with a message: server management,
/// app detail and the deploy form, or the rest.
pub open spec fn message_group(m: Message) -> int {
    match m {
        Message::Noop
        | Message::ManageServers
        | Message::CloseManageServers
        | Message::ShowAddForm
        | Message::HideAddForm
        | Message::SetAddr(..)
        | Message::SetToken(..)
        | Message::SetServerName(..)
        | Message::Connect
        | Message::ServerAdded(..)
        | Message::ServerAddError(..)
        | Message::ServerConnected(..)
        | Message::ServerError(..)
        | Message::Disconnect(..)
        | Message::Reconnect(..)
        | Message::StartRename(..)
        | Message::SetRenameValue(..)
        | Message::ConfirmRename(..)
        | Message::CancelRename
        | Message::ConfirmServerDelete(..)
        | Message::CancelServerDelete
        | Message::DeleteServer(..)
        | Message::ServerData(..)
        | Message::ServerApps(..) => 0,
        Message::SelectApp(..)
        | Message::AppDetail(..)
        | Message::LogLines(..)
        | Message::BackToDashboard
        | Message::StartApp(..)
        | Message::StopApp(..)
        | Message::RestartApp(..)
        | Message::DeleteApp(..)
        | Message::CancelDelete
        | Message::ConfirmDelete(..)
        | Message::OpenDeploy
        | Message::CloseDeploy
        | Message::SetDeployTarget(..)
        | Message::SetDeployName(..)
        | Message::SetDeployRuntime(..)
        | Message::SetDeployBuild(..)
        | Message::SetDeployRun(..)
        | Message::SetDeployPath(..)
        | Message::ToggleGithub
        | Message::SetDeployGithubUrl(..)
        | Message::SelectGithubToken(..)
        | Message::SetNewTokenLabel(..)
        | Message::SetNewTokenValue(..)
        | Message::SaveGithubToken
        | Message::PickPath
        | Message::SetEnvKey(..)
        | Message::SetEnvValue(..)
        | Message::AddEnvVar
        | Message::RemoveEnvVar(..)
        | Message::PickEnvFile
        | Message::EnvFilePicked(..) => 1,
        _ => 2,
    }
}

fn group_of(m: &Message) -> (g: u8)
    ensures
        g == message_group(*m),
{
    match m {
        Message::Noop
        | Message::ManageServers
        | Message::CloseManageServers
        | Message::ShowAddForm
        | Message::HideAddForm
        | Message::SetAddr(..)
        | Message::SetToken(..)
        | Message::SetServerName(..)
        | Message::Connect
        | Message::ServerAdded(..)
        | Message::ServerAddError(..)
        | Message::ServerConnected(..)
        | Message::ServerError(..)
        | Message::Disconnect(..)
        | Message::Reconnect(..)
        | Message::StartRename(..)
        | Message::SetRenameValue(..)
        | Message::ConfirmRename(..)
        | Message::CancelRename
        | Message::ConfirmServerDelete(..)
        | Message::CancelServerDelete
        | Message::DeleteServer(..)
        | Message::ServerData(..)
        | Message::ServerApps(..) => 0,
        Message::SelectApp(..)
        | Message::AppDetail(..)
        | Message::LogLines(..)
        | Message::BackToDashboard
        | Message::StartApp(..)
        | Message::StopApp(..)
        | Message::RestartApp(..)
        | Message::DeleteApp(..)
        | Message::CancelDelete
        | Message::ConfirmDelete(..)
        | Message::OpenDeploy
        | Message::CloseDeploy
        | Message::SetDeployTarget(..)
        | Message::SetDeployName(..)
        | Message::SetDeployRuntime(..)
        | Message::SetDeployBuild(..)
        | Message::SetDeployRun(..)
        | Message::SetDeployPath(..)
        | Message::ToggleGithub
        | Message::SetDeployGithubUrl(..)
        | Message::SelectGithubToken(..)
        | Message::SetNewTokenLabel(..)
        | Message::SetNewTokenValue(..)
        | Message::SaveGithubToken
        | Message::PickPath
        | Message::SetEnvKey(..)
        | Message::SetEnvValue(..)
        | Message::AddEnvVar
        | Message::RemoveEnvVar(..)
        | Message::PickEnvFile
        | Message::EnvFilePicked(..) => 1,
        _ => 2,
    }
}

/// Server management messages.
fn update_servers(app: &mut RoverApp, message: Message) -> (effects: Vec<Effect>)
    requires
        message_group(message) == 0,
        message is SubmitDeploy ==> old(app)@.next_deploy_id < usize::MAX,
    ensures
        update_post(old(app)@, message, final(app)@, effects_view(effects@)),
{
    match message {
        Message::Noop => no_effects(),
        Message::ManageServers => {
            app.show_manage_servers = true;
            app.show_add_form = false;
            no_effects()
        },
        Message::CloseManageServers => {
            app.show_manage_servers = false;
            no_effects()
        },
        Message::ShowAddForm => {
            app.show_add_form = true;
            app.show_manage_servers = false;
            no_effects()
        },
        Message::HideAddForm => {
            app.show_add_form = false;
            app.addr_input = String::new();
            app.token_input = String::new();
            app.name_input = String::new();
            app.form_error = None;
            no_effects()
        },
        Message::SetAddr(v) => {
            app.addr_input = v;
            no_effects()
        },
        Message::SetToken(v) => {
            app.token_input = v;
            no_effects()
        },
        Message::SetServerName(v) => {
            app.name_input = v;
            no_effects()
        },
        Message::Connect => connect_server(app),
        Message::ServerAdded(name, key, now) => server_added(app, name, key, now),
        Message::ServerAddError(err) => {
            app.form_error = Some(err);
            no_effects()
        },
        Message::ServerConnected(idx, ok) => server_connected(app, idx, ok),
        Message::ServerError(idx, err) => {
            server_error(app, idx, err);
            no_effects()
        },
        Message::Disconnect(idx) => disconnect(app, idx),
        Message::Reconnect(idx) => reconnect(app, idx),
        Message::StartRename(idx) => {
            if idx < app.servers.len() {
                app.rename_value = app.servers[idx].profile.name.clone();
                app.editing_server = Some(idx);
            }
            no_effects()
        },
        Message::SetRenameValue(v) => {
            app.rename_value = v;
            no_effects()
        },
        Message::ConfirmRename(idx) => confirm_rename(app, idx),
        Message::CancelRename => {
            app.editing_server = None;
            app.rename_value = String::new();
            no_effects()
        },
        Message::ConfirmServerDelete(idx) => {
            if idx < app.servers.len() {
                app.confirm_server_delete = Some(idx);
            }
            no_effects()
        },
        Message::CancelServerDelete => {
            app.confirm_server_delete = None;
            no_effects()
        },
        Message::DeleteServer(idx) => delete_server(app, idx),
        Message::ServerData(idx, info, metrics) => {
            server_data(app, idx, info, metrics);
            no_effects()
        },
        Message::ServerApps(idx, apps) => {
            server_apps(app, idx, apps);
            no_effects()
        },
        _ => no_effects(),
    }
}

/// App detail and deploy form messages.
fn update_detail(app: &mut RoverApp, message: Message) -> (effects: Vec<Effect>)
    requires
        message_group(message) == 1,
        message is SubmitDeploy ==> old(app)@.next_deploy_id < usize::MAX,
    ensures
        update_post(old(app)@, message, final(app)@, effects_view(effects@)),
{
    match message {
        Message::SelectApp(id, si) => {
            let fetch = Effect::FetchDetail(id.clone(), si);
            app.screen = Screen::AppDetail(id, si);
            app.app_detail_server = si;
            app.app_detail = None;
            app.log_entries = Vec::new();
            assert(app.log_entries.deep_view() =~= Seq::<Seq<char>>::empty());
            one_effect(fetch)
        },
        Message::AppDetail(d) => {
            app.app_detail = Some(d);
            no_effects()
        },
        Message::LogLines(lines) => {
            app.log_entries = lines;
            no_effects()
        },
        Message::BackToDashboard => {
            leave_detail_screen(app);
            no_effects()
        },
        Message::StartApp(id, si) => one_effect(Effect::AppAction(id, si, AppAction::Start)),
        Message::StopApp(id, si) => one_effect(Effect::AppAction(id, si, AppAction::Stop)),
        Message::RestartApp(id, si) => one_effect(Effect::AppAction(id, si, AppAction::Restart)),
        Message::DeleteApp(id, si) => {
            let pick = match &app.app_detail {
                Some(d) => if d.app_id == id {
                    Some(d.name.clone())
                } else {
                    None
                },
                None => None,
            };
            match pick {
                Some(name) => {
                    app.confirm_delete = Some((id, name, si));
                },
                None => {},
            }
            no_effects()
        },
        Message::CancelDelete => {
            app.confirm_delete = None;
            no_effects()
        },
        Message::ConfirmDelete(id, _name, si) => {
            app.confirm_delete = None;
            one_effect(Effect::DeleteApp(id, si))
        },
        Message::OpenDeploy => {
            app.deploy_open = true;
            app.deploy_target = None;
            app.deploy_name = String::new();
            app.deploy_runtime = String::new();
            app.deploy_build = String::new();
            app.deploy_run = String::new();
            app.deploy_path = String::new();
            app.deploy_use_github = false;
            app.deploy_github_url = String::new();
            app.deploy_env_vars = Vec::new();
            app.deploy_env_key = String::new();
            app.deploy_env_value = String::new();
            assert(pairs_view(app.deploy_env_vars@) =~= Seq::<(Seq<char>, Seq<char>)>::empty());
            no_effects()
        },
        Message::CloseDeploy => {
            app.deploy_open = false;
            refresh_all(app)
        },
        Message::SetDeployTarget(t) => {
            app.deploy_target = t;
            no_effects()
        },
        Message::SetDeployName(v) => {
            app.deploy_name = v;
            no_effects()
        },
        Message::SetDeployRuntime(v) => {
            set_deploy_runtime(app, v);
            no_effects()
        },
        Message::SetDeployBuild(v) => {
            app.deploy_build = v;
            no_effects()
        },
        Message::SetDeployRun(v) => {
            app.deploy_run = v;
            no_effects()
        },
        Message::SetDeployPath(v) => {
            app.deploy_path = v;
            no_effects()
        },
        Message::ToggleGithub => {
            app.deploy_use_github = !app.deploy_use_github;
            no_effects()
        },
        Message::SetDeployGithubUrl(v) => {
            app.deploy_github_url = v;
            no_effects()
        },
        Message::SelectGithubToken(l) => {
            app.selected_github_token = l;
            no_effects()
        },
        Message::SetNewTokenLabel(v) => {
            app.new_token_label = v;
            no_effects()
        },
        Message::SetNewTokenValue(v) => {
            app.new_token_value = v;
            no_effects()
        },
        Message::SaveGithubToken => save_github_token(app),
        Message::PickPath => one_effect(Effect::PickFolder),
        Message::SetEnvKey(v) => {
            app.deploy_env_key = v;
            no_effects()
        },
        Message::SetEnvValue(v) => {
            app.deploy_env_value = v;
            no_effects()
        },
        Message::AddEnvVar => {
            add_env_var(app);
            no_effects()
        },
        Message::RemoveEnvVar(i) => {
            remove_env_var(app, i);
            no_effects()
        },
        Message::PickEnvFile => one_effect(Effect::PickEnvFile),
        Message::EnvFilePicked(_path, vars) => {
            env_file_picked(app, vars);
            no_effects()
        },
        _ => no_effects(),
    }
}

/// Deploy tracking, notification, terminal and tick messages.
#[verifier::spinoff_prover]
#[verifier::rlimit(60)]
fn update_rest(app: &mut RoverApp, message: Message) -> (effects: Vec<Effect>)
    requires
        message_group(message) == 2,
        message is SubmitDeploy ==> old(app)@.next_deploy_id < usize::MAX,
    ensures
        update_post(old(app)@, message, final(app)@, effects_view(effects@)),
{
    match message {
        Message::Tick(buffer) => tick(app, buffer),
        Message::SubmitDeploy => submit_deploy(app),
        Message::DeployStatus(id, status) => {
            deploy_status(app, id, status);
            no_effects()
        },
        Message::DeployEvent(id, event) => deploy_event(app, id, event),
        Message::DeployStreamEnded(id) => deploy_stream_ended(app, id),
        Message::DeployError(id, error) => deploy_failed(app, id, error),
        Message::ToggleDeployLog(id) => {
            let same = match app.expanded_deploy {
                Some(x) => x == id,
                None => false,
            };
            app.expanded_deploy = if same {
                None
            } else {
                Some(id)
            };
            no_effects()
        },
        Message::ClearFinishedDeploys => {
            clear_finished(app);
            no_effects()
        },
        Message::OpenUpdate(_id) => {
            let cmds = match &app.app_detail {
                Some(d) => Some((d.build_command.clone(), d.run_command.clone())),
                None => None,
            };
            match cmds {
                Some((b, r)) => {
                    app.update_build = b;
                    app.update_run = r;
                },
                None => {},
            }
            app.update_open = true;
            no_effects()
        },
        Message::CloseUpdate => {
            app.update_open = false;
            no_effects()
        },
        Message::SetUpdateBuild(v) => {
            app.update_build = v;
            no_effects()
        },
        Message::SetUpdateRun(v) => {
            app.update_run = v;
            no_effects()
        },
        Message::ConfirmUpdate(id) => {
            app.update_open = false;
            let build = trimmed(app.update_build.as_str());
            let run = trimmed(app.update_run.as_str());
            let build = if build.as_str().is_empty() {
                None
            } else {
                Some(build)
            };
            let run = if run.as_str().is_empty() {
                None
            } else {
                Some(run)
            };
            one_effect(Effect::UpdateApp(id, app.app_detail_server, build, run))
        },
        Message::Info(msg) => {
            set_toast(app, msg, ToastKind::Info);
            no_effects()
        },
        Message::Error(msg) => {
            set_toast(app, msg, ToastKind::Error);
            no_effects()
        },
        Message::DismissToast(i) => {
            if i < app.toasts.len() {
                let ghost before = app.toasts@;
                let _gone = app.toasts.remove(i);
                assert(crate::client::model::toasts_view(app.toasts@)
                    =~= crate::client::model::toasts_view(before).remove(i as int));
            }
            no_effects()
        },
        Message::Copy(t) => one_effect(Effect::Copy(t)),
        Message::OpenTerminal(si) => {
            app.terminal_open = true;
            app.terminal_server = si;
            app.terminal_output = Vec::new();
            app.terminal_input = String::new();
            app.screen = Screen::Terminal(si);
            assert(app.terminal_output.deep_view() =~= Seq::<Seq<char>>::empty());
            let name = app.server_name_for(si);
            two_effects(
                Effect::OpenShell(si),
                Effect::Notify(ToastKind::Info, concat("Shell opened on ", name.as_str())),
            )
        },
        Message::SetTerminalInput(v) => {
            app.terminal_input = v;
            no_effects()
        },
        Message::SubmitShellCommand => {
            let cmd = concat(app.terminal_input.as_str(), "\n");
            app.terminal_input = String::new();
            one_effect(Effect::SendShellInput(cmd))
        },
        Message::CloseTerminal => {
            app.terminal_open = false;
            app.terminal_output = Vec::new();
            app.terminal_input = String::new();
            app.screen = Screen::Dashboard;
            assert(app.terminal_output.deep_view() =~= Seq::<Seq<char>>::empty());
            one_effect(Effect::CloseShell)
        },

        _ => no_effects(),
    }
}

/// Applies one message to the state and returns the work it asks for.
pub fn update(app: &mut RoverApp, message: Message) -> (effects: Vec<Effect>)
    requires
        message is SubmitDeploy ==> old(app)@.next_deploy_id < usize::MAX,
    ensures
        update_post(old(app)@, message, final(app)@, effects_view(effects@)),
{
    let g = group_of(&message);
    if g == 0 {
        update_servers(app, message)
    } else if g == 1 {
        update_detail(app, message)
    } else {
        update_rest(app, message)
    }
}

/// The reconnections asked for at start: one for each saved profile with an
/// API key, in order.
pub open spec fn init_effects(ps: Seq<ProfileView>) -> Seq<EffectView>
    decreases ps.len(),
{
    if ps.len() == 0 {
        seq![]
    } else {
        let k = (ps.len() - 1) as int;
        init_effects(ps.drop_last()) + match ps[k].api_key {
            Some(key) => seq![EffectView::Reconnect(k as usize, ps[k].address, key)],
            None => seq![],
        }
    }
}

/// A disconnected server for a saved profile.
pub open spec fn idle_server(p: ProfileView) -> ServerView {
    ServerView {
        profile: p,
        connected: false,
        connecting: false,
        error: None,
        info: None,
        metrics: None,
        apps: seq![],
    }
}

/// The starting state: one disconnected server per saved profile, on the
/// connect screen, with the add-server form shown when there is no server,
/// the saved GitHub tokens loaded, deploy ids counting from 1, and everything
/// else empty.
pub open spec fn initial_state(ps: Seq<ProfileView>, tokens: Seq<TokenView>) -> AppView {
    AppView {
        servers: ps.map_values(|p: ProfileView| idle_server(p)),
        all_apps: seq![],
        show_add_form: ps.len() == 0,
        show_manage_servers: false,
        addr_input: seq![],
        token_input: seq![],
        name_input: seq![],
        form_error: None,
        screen: ScreenView::Connect,
        app_detail: None,
        app_detail_server: 0,
        log_entries: seq![],
        deploy_open: false,
        deploy_target: None,
        deploy_name: seq![],
        deploy_runtime: seq![],
        deploy_build: seq![],
        deploy_run: seq![],
        deploy_path: seq![],
        deploy_use_github: false,
        deploy_github_url: seq![],
        github_tokens: tokens,
        selected_github_token: None,
        new_token_label: seq![],
        new_token_value: seq![],
        deploy_env_vars: seq![],
        deploy_env_key: seq![],
        deploy_env_value: seq![],
        next_deploy_id: 1,
        deploy_jobs: seq![],
        expanded_deploy: None,
        confirm_delete: None,
        confirm_server_delete: None,
        editing_server: None,
        rename_value: seq![],
        update_open: false,
        update_build: seq![],
        update_run: seq![],
        toasts: seq![],
        terminal_open: false,
        terminal_server: 0,
        terminal_output: seq![],
        terminal_input: seq![],
    }
}

/// The starting state for the saved profiles and GitHub tokens, and the
/// reconnections to ask for.
pub fn init(profiles: Vec<crate::profile::ConnectionProfile>, github_tokens: Vec<GithubToken>) -> (r: (
    RoverApp,
    Vec<Effect>,
))
    ensures
        r.0@ == initial_state(
            profiles@.map_values(|p: crate::profile::ConnectionProfile| p@),
            github_tokens@.map_values(|t: GithubToken| t@),
        ),
        effects_view(r.1@) == init_effects(
            profiles@.map_values(|p: crate::profile::ConnectionProfile| p@),
        ),
{
    let ghost pv = profiles@.map_values(|p: crate::profile::ConnectionProfile| p@);
    let ghost orig = profiles@;
    let n = profiles.len();
    let mut rest = profiles;
    let mut servers: Vec<ServerState> = Vec::new();
    let mut effects = no_effects();
    let mut k: usize = 0;
    while rest.len() > 0
        invariant
            k <= n == orig.len(),
            k + rest@.len() == n,
            rest@ == orig.skip(k as int),
            pv == orig.map_values(|p: crate::profile::ConnectionProfile| p@),
            servers@.map_values(|x: ServerState| x@) == pv.take(k as int).map_values(
                |p: ProfileView| idle_server(p),
            ),
            effects_view(effects@) == init_effects(pv.take(k as int)),
        decreases rest@.len(),
    {
        let p = rest.remove(0);
        assert(p == orig[k as int]);
        assert(pv.take(k + 1).drop_last() =~= pv.take(k as int));
        assert(pv.take(k + 1).last() == p@);
        match &p.api_key {
            Some(key) => {
                push_effect(&mut effects, Effect::Reconnect(k, p.address.clone(), key.clone()));
            },
            None => {},
        }
        let sv = ServerState::from_profile(p);
        let ghost prev = servers@;
        servers.push(sv);
        assert(servers@.map_values(|x: ServerState| x@) =~= prev.map_values(|x: ServerState| x@).push(
            sv@,
        ));
        assert(pv.take(k + 1).map_values(|p: ProfileView| idle_server(p)) =~= pv.take(
            k as int,
        ).map_values(|p: ProfileView| idle_server(p)).push(idle_server(p@)));
        assert(rest@ =~= orig.skip(k + 1));
        k = k + 1;
    }
    assert(pv.take(k as int) =~= pv);
    let show_add = servers.len() == 0;
    let app = RoverApp {
        servers,
        all_apps: Vec::new(),
        show_add_form: show_add,
        show_manage_servers: false,
        addr_input: String::new(),
        token_input: String::new(),
        name_input: String::new(),
        form_error: None,
        screen: Screen::Connect,
        app_detail: None,
        app_detail_server: 0,
        log_entries: Vec::new(),
        deploy_open: false,
        deploy_target: None,
        deploy_name: String::new(),
        deploy_runtime: String::new(),
        deploy_build: String::new(),
        deploy_run: String::new(),
        deploy_path: String::new(),
        deploy_use_github: false,
        deploy_github_url: String::new(),
        github_tokens,
        selected_github_token: None,
        new_token_label: String::new(),
        new_token_value: String::new(),
        deploy_env_vars: Vec::new(),
        deploy_env_key: String::new(),
        deploy_env_value: String::new(),
        next_deploy_id: 1,
        deploy_jobs: Vec::new(),
        expanded_deploy: None,
        confirm_delete: None,
        confirm_server_delete: None,
        editing_server: None,
        rename_value: String::new(),
        update_open: false,
        update_build: String::new(),
        update_run: String::new(),
        toasts: Vec::new(),
        terminal_open: false,
        terminal_server: 0,
        terminal_output: Vec::new(),
        terminal_input: String::new(),
    };
    assert(app@.all_apps =~= Seq::<crate::client::model::AnnotatedView>::empty());
    assert(app@.log_entries =~= Seq::<Seq<char>>::empty());
    assert(app@.deploy_env_vars =~= Seq::<(Seq<char>, Seq<char>)>::empty());
    assert(app@.deploy_jobs =~= Seq::<JobView>::empty());
    assert(app@.toasts =~= Seq::<(Seq<char>, ToastKind)>::empty());
    assert(app@.terminal_output =~= Seq::<Seq<char>>::empty());
    (app, effects)
}

/// The window title: the number of connected servers, if any.
pub open spec fn title_text(n: nat) -> Seq<char> {
    if n > 0 {
        "Rover \u{2014} "@ + dec(n) + " server"@ + if n > 1 {
            "s"@
        } else {
            ""@
        }
    } else {
        "Rover"@
    }
}

/// The window title.
pub fn title(app: &RoverApp) -> (s: String)
    ensures
        s@ == title_text(crate::client::model::count_connected(app@.servers)),
{
    let connected = app.connected_count();
    if connected > 0 {
        let mut t: Vec<char> = Vec::new();
        push_str(&mut t, "Rover \u{2014} ");
        push_dec(&mut t, connected as u64);
        push_str(&mut t, " server");
        if connected > 1 {
            push_str(&mut t, "s");
        } else {
            push_str(&mut t, "");
        }
        string_from_chars(t.as_slice())
    } else {
        owned("Rover")
    }
}

/// Deploy ids as the client keeps them: each job's id is below the next id
/// to be handed out, and ids increase along the list.
pub open spec fn job_ids_ordered(a: AppView) -> bool {
    &&& forall|i: int| 0 <= i < a.deploy_jobs.len() ==> (#[trigger] a.deploy_jobs[i]).id
        < a.next_deploy_id
    &&& forall|i: int, j: int|
        0 <= i < j < a.deploy_jobs.len() ==> (#[trigger] a.deploy_jobs[i]).id
            < (#[trigger] a.deploy_jobs[j]).id
}

proof fn lemma_active_jobs_bound(s: Seq<JobView>, c: int)
    requires
        forall|i: int| 0 <= i < s.len() ==> (#[trigger] s[i]).id < c,
    ensures
        forall|i: int| 0 <= i < active_jobs(s).len() ==> (#[trigger] active_jobs(s)[i]).id < c,
    decreases s.len(),
{
    if s.len() > 0 {
        let t = s.drop_last();
        assert forall|i: int| 0 <= i < t.len() implies (#[trigger] t[i]).id < c by {
            assert(t[i] == s[i]);
        }
        lemma_active_jobs_bound(t, c);
        assert(s[s.len() - 1].id < c);
    }
}

proof fn lemma_active_jobs_ordered(s: Seq<JobView>)
    requires
        forall|i: int, j: int| 0 <= i < j < s.len() ==> (#[trigger] s[i]).id < (#[trigger] s[j]).id,
    ensures
        forall|i: int, j: int|
            0 <= i < j < active_jobs(s).len() ==> (#[trigger] active_jobs(s)[i]).id
                < (#[trigger] active_jobs(s)[j]).id,
        forall|i: int| 0 <= i < active_jobs(s).len() ==> deploy_in_progress(
            (#[trigger] active_jobs(s)[i]).status,
        ),
        active_jobs(s).len() == crate::client::model::count_active(s),
    decreases s.len(),
{
    if s.len() > 0 {
        let t = s.drop_last();
        let last = s[s.len() - 1];
        assert forall|i: int, j: int| 0 <= i < j < t.len() implies (#[trigger] t[i]).id
            < (#[trigger] t[j]).id by {
            assert(t[i] == s[i] && t[j] == s[j]);
        }
        lemma_active_jobs_ordered(t);
        assert forall|i: int| 0 <= i < t.len() implies (#[trigger] t[i]).id < last.id by {
            assert(t[i] == s[i]);
        }
        lemma_active_jobs_bound(t, last.id as int);
    }
}

/// Every message keeps deploy ids ordered: a new deploy takes the next id,
/// tracking a deploy never changes its id, and clearing keeps the order.
pub proof fn law_update_keeps_job_ids(a: AppView, m: Message, b: AppView, e: Seq<EffectView>)
    requires
        job_ids_ordered(a),
        m is SubmitDeploy ==> a.next_deploy_id < usize::MAX,
        update_post(a, m, b, e),
    ensures
        job_ids_ordered(b),
{
    match m {
        Message::ClearFinishedDeploys => {
            assert(b == clear_finished_step(a));
            lemma_active_jobs_ordered(a.deploy_jobs);
            lemma_active_jobs_bound(a.deploy_jobs, a.next_deploy_id as int);
            assert(b.deploy_jobs == active_jobs(a.deploy_jobs));
            assert(b.next_deploy_id == a.next_deploy_id);
        },
        Message::SubmitDeploy => {
            assert(b == submit_step(a).0);
        },
        Message::DeployStatus(id, st) => {
            crate::client::jobs::lemma_job_index_from(a.deploy_jobs, id, 0);
        },
        Message::DeployEvent(id, ev) => {
            crate::client::jobs::lemma_job_index_from(a.deploy_jobs, id, 0);
        },
        Message::DeployStreamEnded(id) => {
            crate::client::jobs::lemma_job_index_from(a.deploy_jobs, id, 0);
        },
        Message::DeployError(id, err) => {
            crate::client::jobs::lemma_job_index_from(a.deploy_jobs, id, 0);
        },
        Message::Noop => {},
        Message::Tick(..) => {},
        Message::ManageServers => {},
        Message::CloseManageServers => {},
        Message::ShowAddForm => {},
        Message::HideAddForm => {},
        Message::SetAddr(..) => {},
        Message::SetToken(..) => {},
        Message::SetServerName(..) => {},
        Message::Connect => {},
        Message::ServerAdded(..) => {},
        Message::ServerAddError(..) => {},
        Message::ServerConnected(..) => {},
        Message::ServerError(..) => {},
        Message::Disconnect(..) => {},
        Message::Reconnect(..) => {},
        Message::ConfirmServerDelete(..) => {},
        Message::CancelServerDelete => {},
        Message::DeleteServer(..) => {},
        Message::StartRename(..) => {},
        Message::SetRenameValue(..) => {},
        Message::ConfirmRename(..) => {},
        Message::CancelRename => {},
        Message::ServerData(..) => {},
        Message::ServerApps(..) => {},
        Message::SelectApp(..) => {},
        Message::AppDetail(..) => {},
        Message::LogLines(..) => {},
        Message::BackToDashboard => {},
        Message::StartApp(..) => {},
        Message::StopApp(..) => {},
        Message::RestartApp(..) => {},
        Message::DeleteApp(..) => {},
        Message::CancelDelete => {},
        Message::ConfirmDelete(..) => {},
        Message::OpenDeploy => {},
        Message::CloseDeploy => {},
        Message::SetDeployTarget(..) => {},
        Message::SetDeployName(..) => {},
        Message::SetDeployRuntime(..) => {},
        Message::SetDeployBuild(..) => {},
        Message::SetDeployRun(..) => {},
        Message::SetDeployPath(..) => {},
        Message::ToggleGithub => {},
        Message::SetDeployGithubUrl(..) => {},
        Message::SelectGithubToken(..) => {},
        Message::SetNewTokenLabel(..) => {},
        Message::SetNewTokenValue(..) => {},
        Message::SaveGithubToken => {},
        Message::PickPath => {},
        Message::SetEnvKey(..) => {},
        Message::SetEnvValue(..) => {},
        Message::AddEnvVar => {},
        Message::RemoveEnvVar(..) => {},
        Message::PickEnvFile => {},
        Message::EnvFilePicked(..) => {},
        Message::ToggleDeployLog(..) => {},
        Message::OpenUpdate(..) => {},
        Message::CloseUpdate => {},
        Message::SetUpdateBuild(..) => {},
        Message::SetUpdateRun(..) => {},
        Message::ConfirmUpdate(..) => {},
        Message::Info(..) => {},
        Message::Error(..) => {},
        Message::DismissToast(..) => {},
        Message::Copy(..) => {},
        Message::OpenTerminal(..) => {},
        Message::ShellStarted => {},
        Message::ShellOutput(..) => {},
        Message::ShellClosed => {},
        Message::SetTerminalInput(..) => {},
        Message::SubmitShellCommand => {},
        Message::CloseTerminal => {},
    }
}

/// The starting state has its deploy ids ordered.
pub proof fn law_initial_job_ids(ps: Seq<ProfileView>, tokens: Seq<TokenView>)
    ensures
        job_ids_ordered(initial_state(ps, tokens)),
{
}

/// Clearing finished deploys leaves only deploys in progress, and all of
/// them.
pub proof fn law_clear_keeps_only_active(a: AppView, b: AppView, e: Seq<EffectView>)
    requires
        job_ids_ordered(a),
        update_post(a, Message::ClearFinishedDeploys, b, e),
    ensures
        forall|i: int| 0 <= i < b.deploy_jobs.len() ==> deploy_in_progress(
            (#[trigger] b.deploy_jobs[i]).status,
        ),
        b.deploy_jobs.len() == crate::client::model::count_active(a.deploy_jobs),
{
    lemma_active_jobs_ordered(a.deploy_jobs);
}

/// Once a server is disconnected or deleted, no app of it is left on the
/// detail screen.
pub proof fn law_gone_server_leaves_detail(a: AppView, idx: usize, b: AppView, e: Seq<EffectView>)
    requires
        update_post(a, Message::Disconnect(idx), b, e) || (idx < a.servers.len() && update_post(
            a,
            Message::DeleteServer(idx),
            b,
            e,
        )),
    ensures
        !viewing_server(b, idx),
{
    if update_post(a, Message::Disconnect(idx), b, e) {
        assert(b == disconnect_step(a, idx).0);
        let a1 = if idx < a.servers.len() {
            let s = a.servers[idx as int];
            with_server(
                a,
                idx as int,
                ServerView { connected: false, info: None, metrics: None, apps: seq![], error: None, ..s },
            )
        } else {
            a
        };
        let a2 = rebuilt(a1);
        assert(!viewing_server(leave_detail(a2), idx));
    } else {
        assert(b == delete_server_step(a, idx).0);
        let a0 = AppView { confirm_server_delete: None, ..a };
        if idx < a.servers.len() {
            let a1 = AppView { servers: a.servers.remove(idx as int), ..a0 };
            assert(!viewing_server(leave_detail(a1), idx));
            assert(!viewing_server(rebuilt(leave_detail(a1)), idx));
        }
    }
}

/// Toggling a deploy's log twice gives back the same expansion, when no
/// other deploy was expanded.
pub proof fn law_toggle_log_twice(
    a: AppView,
    id: usize,
    b: AppView,
    c: AppView,
    e1: Seq<EffectView>,
    e2: Seq<EffectView>,
)
    requires
        a.expanded_deploy is None || a.expanded_deploy == Some(id),
        update_post(a, Message::ToggleDeployLog(id), b, e1),
        update_post(b, Message::ToggleDeployLog(id), c, e2),
    ensures
        c == a,
{
}

} // verus!
