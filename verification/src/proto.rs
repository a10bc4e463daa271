//! The messages exchanged between client and server, and the wire codes of
//! runtimes and app states.
use vstd::prelude::*;
use crate::status::{runtime_display_text, runtime_text, status_text, AppStatus, Runtime};
use crate::text::{chars_of, is_literal};

verus! {

/// A point in time in milliseconds since the Unix epoch.
#[derive(Debug, Clone, Copy, PartialEq, Eq, Structural)]
pub struct Timestamp {
    pub millis: i64,
}

/// One app in a list.
#[derive(Debug, Clone)]
pub struct AppSummary {
    pub app_id: String,
    pub name: String,
    pub runtime: i32,
    pub status: i32,
    pub created_at: Option<Timestamp>,
    pub updated_at: Option<Timestamp>,
}

impl AppSummary {
    /// A copy of this summary.
    pub fn duplicate(&self) -> (r: Self)
        ensures
            r == *self,
    {
        AppSummary {
            app_id: self.app_id.clone(),
            name: self.name.clone(),
            runtime: self.runtime,
            status: self.status,
            created_at: self.created_at,
            updated_at: self.updated_at,
        }
    }
}

/// Everything about one app.
#[derive(Debug, Clone)]
pub struct AppDetailResponse {
    pub app_id: String,
    pub name: String,
    pub runtime: i32,
    pub status: i32,
    pub build_command: String,
    pub run_command: String,
    pub env_vars: Vec<(String, String)>,
    pub created_at: Option<Timestamp>,
    pub updated_at: Option<Timestamp>,
    pub restart_count: i32,
    pub pid: Option<i32>,
}

/// The server's identity.
#[derive(Debug, Clone)]
pub struct ServerInfo {
    pub name: String,
    pub version: String,
    pub os: String,
    pub hostname: String,
    pub uptime_seconds: u32,
}

/// RAM and disk use of the server, in bytes. (The CPU share is always
/// reported as zero and is not part of this record.)
#[derive(Debug, Clone, Copy, PartialEq, Eq, Structural)]
pub struct ServerMetrics {
    pub ram_used_bytes: u64,
    pub ram_total_bytes: u64,
    pub disk_used_bytes: u64,
    pub disk_total_bytes: u64,
}

/// Which part of a list to return.
#[derive(Debug, Clone, Copy, PartialEq, Eq, Structural)]
pub struct PageRequest {
    pub limit: i32,
    pub offset: i32,
}

/// Which part of a list was returned.
#[derive(Debug, Clone, Copy, PartialEq, Eq, Structural)]
pub struct PageResponse {
    pub total: i32,
    pub limit: i32,
    pub offset: i32,
}

/// A page of apps.
#[derive(Debug, Clone)]
pub struct AppListResponse {
    pub apps: Vec<AppSummary>,
    pub page: Option<PageResponse>,
}

/// One log line of an app.
#[derive(Debug, Clone)]
pub struct LogEntry {
    pub timestamp: Option<Timestamp>,
    pub line: String,
    pub is_stderr: bool,
}

/// What happened in a deploy, as sent to the client.
#[derive(Debug, Clone)]
pub enum Event {
    Log { line: String, is_stderr: bool },
    Complete { app_id: String },
    Error { message: String },
    /// A stage change; `percent_text` is the progress already rounded to
    /// whole percent for display.
    Progress { stage: String, percent_text: String },
}

/// A deploy event; `None` carries nothing.
#[derive(Debug, Clone)]
pub struct DeployEvent {
    pub event: Option<Event>,
}

/// The wire code of a runtime text: 1 to 4, or 0 for anything else.
pub open spec fn runtime_code(s: Seq<char>) -> i32 {
    if s == "python"@ {
        1
    } else if s == "node"@ {
        2
    } else if s == "go"@ {
        3
    } else if s == "rust"@ {
        4
    } else {
        0
    }
}

/// The wire code of a status text: 1 to 6, or 0 for anything else.
pub open spec fn status_code(s: Seq<char>) -> i32 {
    if s == "deploying"@ {
        1
    } else if s == "starting"@ {
        2
    } else if s == "running"@ {
        3
    } else if s == "stopped"@ {
        4
    } else if s == "crashed"@ {
        5
    } else if s == "failed"@ {
        6
    } else {
        0
    }
}

/// The status text of a wire code, `"unknown"` for codes outside 1 to 6.
pub open spec fn status_label_text(code: i32) -> Seq<char> {
    if code == 1 {
        "deploying"@
    } else if code == 2 {
        "starting"@
    } else if code == 3 {
        "running"@
    } else if code == 4 {
        "stopped"@
    } else if code == 5 {
        "crashed"@
    } else if code == 6 {
        "failed"@
    } else {
        "unknown"@
    }
}

/// The lowercase runtime text of a wire code, `"unknown"` outside 1 to 4.
pub open spec fn runtime_name_text(code: i32) -> Seq<char> {
    if code == 1 {
        "python"@
    } else if code == 2 {
        "node"@
    } else if code == 3 {
        "go"@
    } else if code == 4 {
        "rust"@
    } else {
        "unknown"@
    }
}

/// The display name of a runtime wire code, `"Unknown"` outside 1 to 4.
pub open spec fn runtime_display_of_code(code: i32) -> Seq<char> {
    if code == 1 {
        "Python"@
    } else if code == 2 {
        "Node.js"@
    } else if code == 3 {
        "Go"@
    } else if code == 4 {
        "Rust"@
    } else {
        "Unknown"@
    }
}

/// The wire code of a stored runtime text.
pub fn runtime_to_proto(s: &str) -> (c: i32)
    ensures
        c == runtime_code(s@),
{
    let v = chars_of(s);
    let v = v.as_slice();
    if is_literal(v, "python") {
        1
    } else if is_literal(v, "node") {
        2
    } else if is_literal(v, "go") {
        3
    } else if is_literal(v, "rust") {
        4
    } else {
        0
    }
}

/// The wire code of a stored status text.
pub fn status_to_proto(s: &str) -> (c: i32)
    ensures
        c == status_code(s@),
{
    let v = chars_of(s);
    let v = v.as_slice();
    if is_literal(v, "deploying") {
        1
    } else if is_literal(v, "starting") {
        2
    } else if is_literal(v, "running") {
        3
    } else if is_literal(v, "stopped") {
        4
    } else if is_literal(v, "crashed") {
        5
    } else if is_literal(v, "failed") {
        6
    } else {
        0
    }
}

/// The status text shown for a wire code.
pub fn status_label(status: i32) -> (s: &'static str)
    ensures
        s@ == status_label_text(status),
{
    match status {
        1 => "deploying",
        2 => "starting",
        3 => "running",
        4 => "stopped",
        5 => "crashed",
        6 => "failed",
        _ => "unknown",
    }
}

/// The lowercase runtime name shown for a wire code.
pub fn runtime_name(runtime: i32) -> (s: &'static str)
    ensures
        s@ == runtime_name_text(runtime),
{
    match runtime {
        1 => "python",
        2 => "node",
        3 => "go",
        4 => "rust",
        _ => "unknown",
    }
}

/// The runtime display name shown for a wire code.
pub fn detail_runtime_name(runtime: i32) -> (s: &'static str)
    ensures
        s@ == runtime_display_of_code(runtime),
{
    match runtime {
        1 => "Python",
        2 => "Node.js",
        3 => "Go",
        4 => "Rust",
        _ => "Unknown",
    }
}

/// A status stored as text travels as a code and is shown as the same text.
pub proof fn law_status_code_roundtrip(st: AppStatus)
    ensures
        1 <= status_code(status_text(st)) <= 6,
        status_label_text(status_code(status_text(st))) == status_text(st),
{
    reveal_strlit("deploying");
    reveal_strlit("starting");
    reveal_strlit("running");
    reveal_strlit("stopped");
    reveal_strlit("crashed");
    reveal_strlit("failed");
    assert("deploying"@.len() == 9 && "starting"@.len() == 8 && "running"@.len() == 7);
    assert("stopped"@.len() == 7 && "crashed"@.len() == 7 && "failed"@.len() == 6);
    assert("running"@[0] != "stopped"@[0] && "running"@[0] != "crashed"@[0]);
    assert("stopped"@[0] != "crashed"@[0]);
}

/// A runtime stored as text travels as a code and is shown as the same
/// text, or as its display name.
pub proof fn law_runtime_code_roundtrip(r: Runtime)
    ensures
        1 <= runtime_code(runtime_text(r)) <= 4,
        runtime_name_text(runtime_code(runtime_text(r))) == runtime_text(r),
        runtime_display_of_code(runtime_code(runtime_text(r))) == runtime_display_text(r),
{
    reveal_strlit("python");
    reveal_strlit("node");
    reveal_strlit("go");
    reveal_strlit("rust");
    assert("python"@.len() == 6 && "node"@.len() == 4 && "go"@.len() == 2 && "rust"@.len() == 4);
    assert("node"@[0] != "rust"@[0]);
}

} // verus!
