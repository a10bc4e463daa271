//! The client's state and how each UI event changes it. Work that leaves the
//! process (RPCs, file dialogs, the clipboard, saving files) is returned as
//! effects for the UI shell to run; their results come back as messages.
use vstd::prelude::*;
use crate::client::app::{deploy_in_progress, DeployJob, GithubToken, Screen, Toast, ToastKind, TokenView};
use crate::client::format::{push_chars, push_str};
use crate::profile::{ConnectionProfile, ProfileView};
use crate::proto::{AppDetailResponse, AppSummary, ServerInfo, ServerMetrics};
use crate::text::{chars_of, owned, string_from_chars};
use crate::client::jobs::{find_job_mut, job_index, lemma_jobs_view_update};

verus! {

/// One server the client knows about.
#[derive(Debug, Clone)]
pub struct ServerState {
    pub profile: ConnectionProfile,
    pub connected: bool,
    pub connecting: bool,
    pub error: Option<String>,
    pub info: Option<ServerInfo>,
    pub metrics: Option<ServerMetrics>,
    pub apps: Vec<AppSummary>,
}

/// A server as mathematical values.
pub struct ServerView {
    pub profile: ProfileView,
    pub connected: bool,
    pub connecting: bool,
    pub error: Option<Seq<char>>,
    pub info: Option<ServerInfo>,
    pub metrics: Option<ServerMetrics>,
    pub apps: Seq<AppSummary>,
}

pub open spec fn opt_view(o: Option<String>) -> Option<Seq<char>> {
    match o {
        Some(s) => Some(s@),
        None => None,
    }
}

impl View for ServerState {
    type V = ServerView;

    open spec fn view(&self) -> ServerView {
        ServerView {
            profile: self.profile@,
            connected: self.connected,
            connecting: self.connecting,
            error: opt_view(self.error),
            info: self.info,
            metrics: self.metrics,
            apps: self.apps@,
        }
    }
}

/// The connection state shown for a server.
pub open spec fn server_status_text(s: ServerView) -> Seq<char> {
    if s.connected {
        "connected"@
    } else if s.connecting {
        "connecting"@
    } else if s.error is Some {
        "error"@
    } else {
        "offline"@
    }
}

impl ServerState {
    /// A disconnected server for a saved profile.
    pub fn from_profile(profile: ConnectionProfile) -> (s: Self)
        ensures
            s@ == (ServerView {
                profile: profile@,
                connected: false,
                connecting: false,
                error: None,
                info: None,
                metrics: None,
                apps: seq![],
            }),
    {
        let s = ServerState {
            profile,
            connected: false,
            connecting: false,
            error: None,
            info: None,
            metrics: None,
            apps: Vec::new(),
        };
        assert(s@.apps =~= seq![]);
        s
    }

    /// Number of apps deployed on this server.
    pub fn app_count(&self) -> (n: usize)
        ensures
            n == self@.apps.len(),
    {
        self.apps.len()
    }

    /// Connection status label.
    pub fn status_label(&self) -> (s: &'static str)
        ensures
            s@ == server_status_text(self@),
    {
        if self.connected {
            "connected"
        } else if self.connecting {
            "connecting"
        } else if self.error.is_some() {
            "error"
        } else {
            "offline"
        }
    }
}

/// An app from any server, annotated with its origin so operations can be
/// routed to it.
#[derive(Debug, Clone)]
pub struct AnnotatedApp {
    pub summary: AppSummary,
    pub server_index: usize,
    pub server_name: String,
    pub server_address: String,
}

/// An annotated app as mathematical values.
pub struct AnnotatedView {
    pub summary: AppSummary,
    pub server_index: usize,
    pub server_name: Seq<char>,
    pub server_address: Seq<char>,
}

impl View for AnnotatedApp {
    type V = AnnotatedView;

    open spec fn view(&self) -> AnnotatedView {
        AnnotatedView {
            summary: self.summary,
            server_index: self.server_index,
            server_name: self.server_name@,
            server_address: self.server_address@,
        }
    }
}

/// A background deploy as mathematical values.
pub struct JobView {
    pub id: usize,
    pub name: Seq<char>,
    pub runtime: Seq<char>,
    pub source_path: Seq<char>,
    pub status: Seq<char>,
    pub logs: Seq<Seq<char>>,
    pub app_id: Option<Seq<char>>,
    pub error: Option<Seq<char>>,
    pub server_index: usize,
    pub server_name: Seq<char>,
}

pub open spec fn job_view(j: DeployJob) -> JobView {
    JobView {
        id: j.id,
        name: j.name@,
        runtime: j.runtime@,
        source_path: j.source_path@,
        status: j.status@,
        logs: j.logs.deep_view(),
        app_id: opt_view(j.app_id),
        error: opt_view(j.error),
        server_index: j.server_index,
        server_name: j.server_name@,
    }
}

pub open spec fn jobs_view(v: Seq<DeployJob>) -> Seq<JobView> {
    v.map_values(|j: DeployJob| job_view(j))
}

/// The screen as mathematical values.
pub enum ScreenView {
    Connect,
    Dashboard,
    AppDetail(Seq<char>, usize),
    Terminal(usize),
}

pub open spec fn screen_view(s: Screen) -> ScreenView {
    match s {
        Screen::Connect => ScreenView::Connect,
        Screen::Dashboard => ScreenView::Dashboard,
        Screen::AppDetail(id, i) => ScreenView::AppDetail(id@, i),
        Screen::Terminal(i) => ScreenView::Terminal(i),
    }
}

pub open spec fn toasts_view(v: Seq<Toast>) -> Seq<(Seq<char>, ToastKind)> {
    v.map_values(|t: Toast| (t.message@, t.kind))
}

pub open spec fn pairs_view(v: Seq<(String, String)>) -> Seq<(Seq<char>, Seq<char>)> {
    v.map_values(|p: (String, String)| (p.0@, p.1@))
}

/// The root state of the client.
pub struct RoverApp {
    pub servers: Vec<ServerState>,
    pub all_apps: Vec<AnnotatedApp>,
    pub show_add_form: bool,
    pub show_manage_servers: bool,
    pub addr_input: String,
    pub token_input: String,
    pub name_input: String,
    pub form_error: Option<String>,
    pub screen: Screen,
    pub app_detail: Option<AppDetailResponse>,
    pub app_detail_server: usize,
    pub log_entries: Vec<String>,
    pub deploy_open: bool,
    pub deploy_target: Option<usize>,
    pub deploy_name: String,
    pub deploy_runtime: String,
    pub deploy_build: String,
    pub deploy_run: String,
    pub deploy_path: String,
    pub deploy_use_github: bool,
    pub deploy_github_url: String,
    pub github_tokens: Vec<GithubToken>,
    pub selected_github_token: Option<String>,
    pub new_token_label: String,
    pub new_token_value: String,
    pub deploy_env_vars: Vec<(String, String)>,
    pub deploy_env_key: String,
    pub deploy_env_value: String,
    pub next_deploy_id: usize,
    pub deploy_jobs: Vec<DeployJob>,
    pub expanded_deploy: Option<usize>,
    pub confirm_delete: Option<(String, String, usize)>,
    pub confirm_server_delete: Option<usize>,
    pub editing_server: Option<usize>,
    pub rename_value: String,
    pub update_open: bool,
    pub update_build: String,
    pub update_run: String,
    pub toasts: Vec<Toast>,
    pub terminal_open: bool,
    pub terminal_server: usize,
    pub terminal_output: Vec<String>,
    pub terminal_input: String,
}

/// The client state as mathematical values.
pub struct AppView {
    pub servers: Seq<ServerView>,
    pub all_apps: Seq<AnnotatedView>,
    pub show_add_form: bool,
    pub show_manage_servers: bool,
    pub addr_input: Seq<char>,
    pub token_input: Seq<char>,
    pub name_input: Seq<char>,
    pub form_error: Option<Seq<char>>,
    pub screen: ScreenView,
    pub app_detail: Option<AppDetailResponse>,
    pub app_detail_server: usize,
    pub log_entries: Seq<Seq<char>>,
    pub deploy_open: bool,
    pub deploy_target: Option<usize>,
    pub deploy_name: Seq<char>,
    pub deploy_runtime: Seq<char>,
    pub deploy_build: Seq<char>,
    pub deploy_run: Seq<char>,
    pub deploy_path: Seq<char>,
    pub deploy_use_github: bool,
    pub deploy_github_url: Seq<char>,
    pub github_tokens: Seq<TokenView>,
    pub selected_github_token: Option<Seq<char>>,
    pub new_token_label: Seq<char>,
    pub new_token_value: Seq<char>,
    pub deploy_env_vars: Seq<(Seq<char>, Seq<char>)>,
    pub deploy_env_key: Seq<char>,
    pub deploy_env_value: Seq<char>,
    pub next_deploy_id: usize,
    pub deploy_jobs: Seq<JobView>,
    pub expanded_deploy: Option<usize>,
    pub confirm_delete: Option<(Seq<char>, Seq<char>, usize)>,
    pub confirm_server_delete: Option<usize>,
    pub editing_server: Option<usize>,
    pub rename_value: Seq<char>,
    pub update_open: bool,
    pub update_build: Seq<char>,
    pub update_run: Seq<char>,
    pub toasts: Seq<(Seq<char>, ToastKind)>,
    pub terminal_open: bool,
    pub terminal_server: usize,
    pub terminal_output: Seq<Seq<char>>,
    pub terminal_input: Seq<char>,
}

impl View for RoverApp {
    type V = AppView;

    open spec fn view(&self) -> AppView {
        AppView {
            servers: self.servers@.map_values(|s: ServerState| s@),
            all_apps: self.all_apps@.map_values(|a: AnnotatedApp| a@),
            show_add_form: self.show_add_form,
            show_manage_servers: self.show_manage_servers,
            addr_input: self.addr_input@,
            token_input: self.token_input@,
            name_input: self.name_input@,
            form_error: opt_view(self.form_error),
            screen: screen_view(self.screen),
            app_detail: self.app_detail,
            app_detail_server: self.app_detail_server,
            log_entries: self.log_entries.deep_view(),
            deploy_open: self.deploy_open,
            deploy_target: self.deploy_target,
            deploy_name: self.deploy_name@,
            deploy_runtime: self.deploy_runtime@,
            deploy_build: self.deploy_build@,
            deploy_run: self.deploy_run@,
            deploy_path: self.deploy_path@,
            deploy_use_github: self.deploy_use_github,
            deploy_github_url: self.deploy_github_url@,
            github_tokens: self.github_tokens@.map_values(|t: GithubToken| t@),
            selected_github_token: opt_view(self.selected_github_token),
            new_token_label: self.new_token_label@,
            new_token_value: self.new_token_value@,
            deploy_env_vars: pairs_view(self.deploy_env_vars@),
            deploy_env_key: self.deploy_env_key@,
            deploy_env_value: self.deploy_env_value@,
            next_deploy_id: self.next_deploy_id,
            deploy_jobs: jobs_view(self.deploy_jobs@),
            expanded_deploy: self.expanded_deploy,
            confirm_delete: match self.confirm_delete {
                Some((a, b, c)) => Some((a@, b@, c)),
                None => None,
            },
            confirm_server_delete: self.confirm_server_delete,
            editing_server: self.editing_server,
            rename_value: self.rename_value@,
            update_open: self.update_open,
            update_build: self.update_build@,
            update_run: self.update_run@,
            toasts: toasts_view(self.toasts@),
            terminal_open: self.terminal_open,
            terminal_server: self.terminal_server,
            terminal_output: self.terminal_output.deep_view(),
            terminal_input: self.terminal_input@,
        }
    }
}

/// The apps of one server, annotated with where they run.
pub open spec fn annotate(apps: Seq<AppSummary>, i: usize, p: ProfileView) -> Seq<
    AnnotatedView,
> {
    apps.map_values(
        |s: AppSummary|
            AnnotatedView {
                summary: s,
                server_index: i,
                server_name: p.name,
                server_address: p.address,
            },
    )
}

/// The apps of every connected server, server by server in order.
pub open spec fn all_apps_of(servers: Seq<ServerView>) -> Seq<AnnotatedView>
    decreases servers.len(),
{
    if servers.len() == 0 {
        seq![]
    } else {
        let k = (servers.len() - 1) as int;
        all_apps_of(servers.drop_last()) + if servers[k].connected {
            annotate(servers[k].apps, k as usize, servers[k].profile)
        } else {
            seq![]
        }
    }
}

/// How many servers are connected.
pub open spec fn count_connected(servers: Seq<ServerView>) -> nat
    decreases servers.len(),
{
    if servers.len() == 0 {
        0
    } else {
        count_connected(servers.drop_last()) + if servers.last().connected {
            1nat
        } else {
            0nat
        }
    }
}

/// How many deploys are still in progress.
pub open spec fn count_active(jobs: Seq<JobView>) -> nat
    decreases jobs.len(),
{
    if jobs.len() == 0 {
        0
    } else {
        count_active(jobs.drop_last()) + if deploy_in_progress(jobs.last().status) {
            1nat
        } else {
            0nat
        }
    }
}

/// The name of server `i`, or `"unknown"`.
pub open spec fn server_name_of(servers: Seq<ServerView>, i: int) -> Seq<char> {
    if 0 <= i < servers.len() {
        servers[i].profile.name
    } else {
        "unknown"@
    }
}

fn annotated(s: &AppSummary, i: usize, p: &ConnectionProfile) -> (a: AnnotatedApp)
    ensures
        a@ == (AnnotatedView {
            summary: *s,
            server_index: i,
            server_name: p.name@,
            server_address: p.address@,
        }),
{
    AnnotatedApp {
        summary: s.duplicate(),
        server_index: i,
        server_name: p.name.clone(),
        server_address: p.address.clone(),
    }
}

impl RoverApp {
    /// The background deploy with this id, for changing it in place.
    pub fn find_deploy_mut(&mut self, deploy_id: usize) -> (r: Option<&mut DeployJob>)
        ensures
            job_index(old(self)@.deploy_jobs, deploy_id) == -1 ==> r is None && final(self)@
                == old(self)@,
            job_index(old(self)@.deploy_jobs, deploy_id) != -1 ==> (r matches Some(j) && ({
                let i = job_index(old(self)@.deploy_jobs, deploy_id);
                &&& 0 <= i < old(self)@.deploy_jobs.len()
                &&& job_view(*j) == old(self)@.deploy_jobs[i]
                &&& final(self)@ == (AppView {
                    deploy_jobs: old(self)@.deploy_jobs.update(i, job_view(*final(j))),
                    ..old(self)@
                })
            })),
    {
        let ghost before = self.deploy_jobs@;
        let r = find_job_mut(&mut self.deploy_jobs, deploy_id);
        proof {
            let i = job_index(jobs_view(before), deploy_id);
            if i != -1 {
                let j = r->Some_0;
                lemma_jobs_view_update(before, i, *final(j));
            }
        }
        r
    }

    /// How many background deploys are still in progress.
    pub fn active_deploy_count(&self) -> (n: usize)
        ensures
            n == count_active(self@.deploy_jobs),
    {
        let mut n: usize = 0;
        let mut i: usize = 0;
        while i < self.deploy_jobs.len()
            invariant
                i <= self.deploy_jobs@.len(),
                n == count_active(jobs_view(self.deploy_jobs@).take(i as int)),
                n <= i,
            decreases self.deploy_jobs@.len() - i,
        {
            assert(jobs_view(self.deploy_jobs@).take(i + 1).drop_last() =~= jobs_view(
                self.deploy_jobs@,
            ).take(i as int));
            if self.deploy_jobs[i].is_active() {
                n = n + 1;
            }
            i = i + 1;
        }
        assert(jobs_view(self.deploy_jobs@).take(i as int) =~= jobs_view(self.deploy_jobs@));
        n
    }

    /// Rebuilds the list of all apps from the connected servers.
    pub fn rebuild_all_apps(&mut self)
        ensures
            final(self)@ == (AppView { all_apps: all_apps_of(old(self)@.servers), ..old(self)@ }),
    {
        let ghost sv = self@.servers;
        let mut out: Vec<AnnotatedApp> = Vec::new();
        let mut i: usize = 0;
        while i < self.servers.len()
            invariant
                i <= self.servers@.len(),
                sv == self@.servers,
                out@.map_values(|a: AnnotatedApp| a@) == all_apps_of(sv.take(i as int)),
            decreases self.servers@.len() - i,
        {
            let s = &self.servers[i];
            assert(sv.take(i + 1).drop_last() =~= sv.take(i as int));
            assert(sv[i as int] == s@);
            if s.connected {
                let ghost base = out@.map_values(|a: AnnotatedApp| a@);
                let mut j: usize = 0;
                while j < s.apps.len()
                    invariant
                        j <= s.apps@.len(),
                        out@.map_values(|a: AnnotatedApp| a@) == base + annotate(
                            s.apps@.take(j as int),
                            i,
                            s.profile@,
                        ),
                    decreases s.apps@.len() - j,
                {
                    let a = annotated(&s.apps[j], i, &s.profile);
                    let ghost prev = out@;
                    out.push(a);
                    assert(out@.map_values(|a: AnnotatedApp| a@) =~= prev.map_values(
                        |a: AnnotatedApp| a@,
                    ).push(a@));
                    assert(annotate(s.apps@.take(j + 1), i, s.profile@) =~= annotate(
                        s.apps@.take(j as int),
                        i,
                        s.profile@,
                    ).push(a@));
                    j = j + 1;
                }
                assert(s.apps@.take(j as int) =~= s.apps@);
            } else {
                assert(all_apps_of(sv.take(i + 1)) =~= all_apps_of(sv.take(i as int)));
            }
            i = i + 1;
        }
        assert(sv.take(i as int) =~= sv);
        self.all_apps = out;
    }

    /// The name of server `server_index`, or `"unknown"`.
    pub fn server_name_for(&self, server_index: usize) -> (s: String)
        ensures
            s@ == server_name_of(self@.servers, server_index as int),
    {
        if server_index < self.servers.len() {
            self.servers[server_index].profile.name.clone()
        } else {
            owned("unknown")
        }
    }

    /// Number of connected servers.
    pub fn connected_count(&self) -> (n: usize)
        ensures
            n == count_connected(self@.servers),
    {
        let ghost sv = self@.servers;
        let mut n: usize = 0;
        let mut i: usize = 0;
        while i < self.servers.len()
            invariant
                i <= self.servers@.len(),
                sv == self@.servers,
                n == count_connected(sv.take(i as int)),
                n <= i,
            decreases self.servers@.len() - i,
        {
            assert(sv.take(i + 1).drop_last() =~= sv.take(i as int));
            if self.servers[i].connected {
                n = n + 1;
            }
            i = i + 1;
        }
        assert(sv.take(i as int) =~= sv);
        n
    }

    /// Total number of servers.
    pub fn server_count(&self) -> (n: usize)
        ensures
            n == self@.servers.len(),
    {
        self.servers.len()
    }

    /// Whether any server is connected.
    pub fn any_connected(&self) -> (b: bool)
        ensures
            b == (count_connected(self@.servers) > 0),
    {
        self.connected_count() > 0
    }
}

/// What the main area of the window shows.
#[derive(Debug, Clone, Copy, PartialEq, Eq, Structural)]
pub enum MainContent {
    Welcome,
    ConnectionForm,
    Dashboard,
    AppDetail,
    Terminal,
}

/// With no server, the welcome screen or the connection form (when asked
/// for); otherwise the screen's content, the dashboard for the connect
/// screen.
pub open spec fn main_content_of(a: AppView) -> MainContent {
    if a.servers.len() == 0 {
        if a.show_add_form {
            MainContent::ConnectionForm
        } else {
            MainContent::Welcome
        }
    } else {
        match a.screen {
            ScreenView::AppDetail(_, _) => MainContent::AppDetail,
            ScreenView::Terminal(_) => MainContent::Terminal,
            _ => MainContent::Dashboard,
        }
    }
}

/// The connection summary of the top bar.
pub open spec fn top_status_text(a: AppView) -> Seq<char> {
    if a.servers.len() == 0 {
        "No servers"@
    } else {
        crate::num::dec(count_connected(a.servers)) + "/"@ + crate::num::dec(a.servers.len())
            + " servers connected"@
    }
}

impl RoverApp {
    /// What the main area of the window shows.
    pub fn main_content(&self) -> (c: MainContent)
        ensures
            c == main_content_of(self@),
    {
        if self.servers.len() == 0 {
            if self.show_add_form {
                MainContent::ConnectionForm
            } else {
                MainContent::Welcome
            }
        } else {
            match &self.screen {
                Screen::AppDetail(_, _) => MainContent::AppDetail,
                Screen::Terminal(_) => MainContent::Terminal,
                _ => MainContent::Dashboard,
            }
        }
    }

    /// The connection summary of the top bar.
    pub fn top_status(&self) -> (s: String)
        ensures
            s@ == top_status_text(self@),
    {
        let total = self.server_count();
        if total == 0 {
            owned("No servers")
        } else {
            let connected = self.connected_count();
            let mut t: Vec<char> = Vec::new();
            crate::num::push_dec(&mut t, connected as u64);
            push_str(&mut t, "/");
            crate::num::push_dec(&mut t, total as u64);
            push_str(&mut t, " servers connected");
            string_from_chars(t.as_slice())
        }
    }
}

} // verus!
