//! Client-side records: background deploys, saved GitHub tokens, toasts and
//! screens, and the default commands offered by the deploy form.
use vstd::prelude::*;
use crate::text::{chars_of, is_literal};
use crate::status::{runtime_build_text, runtime_run_text, runtime_text, Runtime};

verus! {

/// Whether a deploy with this status text is still in progress: every status
/// but `"complete"` and `"failed"`.
pub open spec fn deploy_in_progress(status: Seq<char>) -> bool {
    status != "complete"@ && status != "failed"@
}

fn status_in_progress(status: &String) -> (b: bool)
    ensures
        b == deploy_in_progress(status@),
{
    let s = chars_of(status.as_str());
    !(is_literal(s.as_slice(), "complete") || is_literal(s.as_slice(), "failed"))
}

/// A background deployment tracked by the client UI.
#[derive(Debug, Clone)]
pub struct DeployJob {
    pub id: usize,
    pub name: String,
    pub runtime: String,
    pub source_path: String,
    pub status: String,
    pub logs: Vec<String>,
    pub app_id: Option<String>,
    pub error: Option<String>,
    /// Which server this deploy was sent to.
    pub server_index: usize,
    pub server_name: String,
}

impl DeployJob {
    /// Whether this deploy is still in progress.
    pub fn is_active(&self) -> (b: bool)
        ensures
            b == deploy_in_progress(self.status@),
    {
        status_in_progress(&self.status)
    }

    /// Last log line emitted, for display in compact cards.
    pub fn latest_log(&self) -> (l: Option<&str>)
        ensures
            l matches Some(x) ==> (self.logs@.len() > 0 && x@ == self.logs@.last()@),
            l is None ==> self.logs@.len() == 0,
    {
        if self.logs.len() == 0 {
            None
        } else {
            Some(self.logs[self.logs.len() - 1].as_str())
        }
    }
}

/// A single background deployment tracked by the single-device client.
#[derive(Debug, Clone)]
pub struct DeployState {
    pub id: usize,
    pub name: String,
    pub runtime: String,
    pub source_path: String,
    pub status: String,
    pub logs: Vec<String>,
    pub app_id: Option<String>,
    pub error: Option<String>,
}

impl DeployState {
    /// Whether this deploy is still in progress.
    pub fn is_active(&self) -> (b: bool)
        ensures
            b == deploy_in_progress(self.status@),
    {
        status_in_progress(&self.status)
    }

    /// Last log line emitted, for display in compact cards.
    pub fn latest_log(&self) -> (l: Option<&str>)
        ensures
            l matches Some(x) ==> (self.logs@.len() > 0 && x@ == self.logs@.last()@),
            l is None ==> self.logs@.len() == 0,
    {
        if self.logs.len() == 0 {
            None
        } else {
            Some(self.logs[self.logs.len() - 1].as_str())
        }
    }
}

/// A saved GitHub personal access token.
#[derive(Debug, Clone)]
pub struct GithubToken {
    /// Unique identifier.
    pub id: String,
    /// Display label (e.g., "Personal", "Work").
    pub label: String,
    /// The access token value.
    pub token: String,
}

/// A saved token as mathematical values.
pub struct TokenView {
    pub id: Seq<char>,
    pub label: Seq<char>,
    pub token: Seq<char>,
}

impl View for GithubToken {
    type V = TokenView;

    open spec fn view(&self) -> TokenView {
        TokenView { id: self.id@, label: self.label@, token: self.token@ }
    }
}

impl GithubToken {
    /// A token record with a fresh random identifier.
    pub fn new(label: String, token: String) -> (t: Self)
        ensures
            t.label == label,
            t.token == token,
            crate::ids::is_uuid_v4_text(t.id@),
    {
        GithubToken { id: crate::ids::new_uuid_v4(), label, token }
    }
}

/// The saved GitHub tokens.
#[derive(Debug, Clone)]
pub struct GithubTokenStore {
    pub tokens: Vec<GithubToken>,
}

impl Default for GithubTokenStore {
    fn default() -> (s: Self)
        ensures
            s.tokens@.len() == 0,
    {
        GithubTokenStore { tokens: Vec::new() }
    }
}

/// Visual severity for toast notifications.
#[derive(Debug, Clone, Copy, PartialEq, Eq, Structural)]
pub enum ToastKind {
    Info,
    Error,
}

/// A transient notification shown over the UI.
#[derive(Debug, Clone)]
pub struct Toast {
    pub message: String,
    pub kind: ToastKind,
}

/// A transient notification shown over the single-device UI.
#[derive(Debug, Clone)]
pub struct ToastState {
    pub message: String,
    pub kind: ToastKind,
}

/// The screens of the client.
#[derive(Debug, Clone, PartialEq, Eq)]
pub enum Screen {
    Connect,
    Dashboard,
    /// (app_id, server_index)
    AppDetail(String, usize),
    /// System shell (server_index)
    Terminal(usize),
}

/// The runtime a deploy form's runtime name selects.
pub open spec fn form_runtime(runtime: Seq<char>) -> Option<Runtime> {
    if runtime == "python"@ {
        Some(Runtime::Python)
    } else if runtime == "node"@ {
        Some(Runtime::Node)
    } else if runtime == "go"@ {
        Some(Runtime::Go)
    } else if runtime == "rust"@ {
        Some(Runtime::Rust)
    } else {
        None
    }
}

/// The build command the deploy form proposes for a runtime name: the
/// runtime's default build command.
pub open spec fn default_build_text(runtime: Seq<char>) -> Seq<char> {
    match form_runtime(runtime) {
        Some(r) => runtime_build_text(r),
        None => ""@,
    }
}

/// The run command the deploy form proposes for a runtime name: the
/// runtime's default run command.
pub open spec fn default_run_text(runtime: Seq<char>) -> Seq<char> {
    match form_runtime(runtime) {
        Some(r) => runtime_run_text(r),
        None => ""@,
    }
}

/// The deploy form proposes, for each runtime's name, that runtime's own
/// default build and run commands.
pub proof fn law_form_defaults_are_runtime_defaults(r: Runtime)
    ensures
        default_build_text(runtime_text(r)) == runtime_build_text(r),
        default_run_text(runtime_text(r)) == runtime_run_text(r),
{
    reveal_strlit("python");
    reveal_strlit("node");
    reveal_strlit("go");
    reveal_strlit("rust");
    assert("python"@.len() == 6 && "node"@.len() == 4 && "go"@.len() == 2 && "rust"@.len() == 4);
    assert("node"@[0] != "rust"@[0]);
}

/// Default build command for a runtime selected in the deploy form.
pub fn default_build_for(runtime: &str) -> (s: &'static str)
    ensures
        s@ == default_build_text(runtime@),
{
    let r = chars_of(runtime);
    let r = r.as_slice();
    if is_literal(r, "python") {
        "pip install -r requirements.txt"
    } else if is_literal(r, "node") {
        "npm install"
    } else if is_literal(r, "go") {
        "go build -o app ."
    } else if is_literal(r, "rust") {
        "cargo build --release"
    } else {
        ""
    }
}

/// Default run command for a runtime selected in the deploy form.
pub fn default_run_for(runtime: &str) -> (s: &'static str)
    ensures
        s@ == default_run_text(runtime@),
{
    let r = chars_of(runtime);
    let r = r.as_slice();
    if is_literal(r, "python") {
        "python3 main.py"
    } else if is_literal(r, "node") {
        "node index.js"
    } else if is_literal(r, "go") {
        "./app"
    } else if is_literal(r, "rust") {
        "./target/release/app"
    } else {
        ""
    }
}

/// The theme color a screen uses for a state; the UI shell maps each to its
/// palette.
#[derive(Debug, Clone, Copy, PartialEq, Eq, Structural)]
pub enum ThemeColor {
    Success,
    Danger,
    Accent,
    Warning,
    Muted,
}

/// The color of a deploy's status: green when complete, red when failed,
/// the accent while packaging, sending, building or starting, and the
/// warning color otherwise.
pub open spec fn deploy_status_theme(status: Seq<char>) -> ThemeColor {
    if status == "complete"@ {
        ThemeColor::Success
    } else if status == "failed"@ {
        ThemeColor::Danger
    } else if status == "packaging"@ || status == "sending"@ || status == "building"@ || status
        == "starting"@ {
        ThemeColor::Accent
    } else {
        ThemeColor::Warning
    }
}

/// The color of a deploy's status.
pub fn deploy_status_color(status: &str) -> (c: ThemeColor)
    ensures
        c == deploy_status_theme(status@),
{
    let v = chars_of(status);
    let s = v.as_slice();
    if is_literal(s, "complete") {
        ThemeColor::Success
    } else if is_literal(s, "failed") {
        ThemeColor::Danger
    } else if is_literal(s, "packaging") || is_literal(s, "sending") || is_literal(s, "building")
        || is_literal(s, "starting") {
        ThemeColor::Accent
    } else {
        ThemeColor::Warning
    }
}

/// The color of an app status code: deploying and starting warn, running is
/// green, crashed and failed are red, anything else is muted.
pub open spec fn app_status_theme(status: i32) -> ThemeColor {
    if status == 1 || status == 2 {
        ThemeColor::Warning
    } else if status == 3 {
        ThemeColor::Success
    } else if status == 5 || status == 6 {
        ThemeColor::Danger
    } else {
        ThemeColor::Muted
    }
}

/// The color of an app status code.
pub fn app_status_color(status: i32) -> (c: ThemeColor)
    ensures
        c == app_status_theme(status),
{
    match status {
        1 | 2 => ThemeColor::Warning,
        3 => ThemeColor::Success,
        5 | 6 => ThemeColor::Danger,
        _ => ThemeColor::Muted,
    }
}

/// The color of a runtime code: Python in the accent color, Node.js green,
/// Go and Rust in the warning color, anything else muted.
pub fn runtime_color(runtime: i32) -> (c: ThemeColor)
    ensures
        c == (if runtime == 1 {
            ThemeColor::Accent
        } else if runtime == 2 {
            ThemeColor::Success
        } else if runtime == 3 || runtime == 4 {
            ThemeColor::Warning
        } else {
            ThemeColor::Muted
        }),
{
    match runtime {
        1 => ThemeColor::Accent,
        2 => ThemeColor::Success,
        3 | 4 => ThemeColor::Warning,
        _ => ThemeColor::Muted,
    }
}

/// The status text shown for an app status code on the detail screen.
pub fn detail_status_label(status: i32) -> (s: &'static str)
    ensures
        s@ == crate::proto::status_label_text(status),
{
    crate::proto::status_label(status)
}

/// The status text shown for an app status code in the app table.
pub fn app_status_label(status: i32) -> (s: &'static str)
    ensures
        s@ == crate::proto::status_label_text(status),
{
    crate::proto::status_label(status)
}

} // verus!
