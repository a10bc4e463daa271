//! The decisions of the RPC handlers: request checks, paging, and the
//! conversion of stored rows into response messages.
use vstd::prelude::*;
use crate::client::format::{push_chars, push_str};
use crate::proto::{
    runtime_code, runtime_to_proto, status_code, status_to_proto, AppDetailResponse,
    AppListResponse, AppSummary, Event, LogEntry, PageRequest, PageResponse, Timestamp,
};
use crate::server::deploy::DeployEvent as ServerDeployEvent;
use crate::server::state::{AppRow, EnvVarRow, LogRow};
use crate::text::{chars_of, has_prefix, owned, string_from_chars};

verus! {

/// The kind of an RPC failure.
#[derive(Debug, Clone, Copy, PartialEq, Eq, Structural)]
pub enum RpcCode {
    InvalidArgument,
    NotFound,
    Unauthenticated,
    Internal,
}

/// An RPC failure and its message.
#[derive(Debug, Clone)]
pub struct RpcStatus {
    pub code: RpcCode,
    pub message: String,
}

/// The list entry for a stored app.
pub fn app_to_summary(app: &AppRow) -> (s: AppSummary)
    ensures
        s.app_id@ == app.app_id@,
        s.name@ == app.name@,
        s.runtime == runtime_code(app.runtime@),
        s.status == status_code(app.status@),
        s.created_at == Some(Timestamp { millis: app.created_at }),
        s.updated_at == Some(Timestamp { millis: app.updated_at }),
{
    AppSummary {
        app_id: app.app_id.clone(),
        name: app.name.clone(),
        runtime: runtime_to_proto(app.runtime.as_str()),
        status: status_to_proto(app.status.as_str()),
        created_at: Some(Timestamp { millis: app.created_at }),
        updated_at: Some(Timestamp { millis: app.updated_at }),
    }
}

/// The full detail of a stored app, with its environment variables (their
/// keys and values, in the order given).
pub fn app_to_detail(app: &AppRow, env: &Vec<EnvVarRow>) -> (d: AppDetailResponse)
    ensures
        d.app_id@ == app.app_id@,
        d.name@ == app.name@,
        d.runtime == runtime_code(app.runtime@),
        d.status == status_code(app.status@),
        d.build_command@ == app.build_command@,
        d.run_command@ == app.run_command@,
        d.env_vars@.len() == env@.len(),
        forall|i: int| 0 <= i < env@.len() ==> (#[trigger] d.env_vars@[i]).0@ == env@[i].key@
            && d.env_vars@[i].1@ == env@[i].value@,
        d.created_at == Some(Timestamp { millis: app.created_at }),
        d.updated_at == Some(Timestamp { millis: app.updated_at }),
        d.restart_count == app.restart_count as i32,
        d.pid == match app.pid {
            Some(p) => Some(p as i32),
            None => None::<i32>,
        },
{
    let mut env_vars: Vec<(String, String)> = Vec::new();
    let mut i: usize = 0;
    while i < env.len()
        invariant
            i <= env@.len(),
            env_vars@.len() == i,
            forall|k: int| 0 <= k < i ==> (#[trigger] env_vars@[k]).0@ == env@[k].key@
                && env_vars@[k].1@ == env@[k].value@,
        decreases env@.len() - i,
    {
        env_vars.push((env[i].key.clone(), env[i].value.clone()));
        i = i + 1;
    }
    AppDetailResponse {
        app_id: app.app_id.clone(),
        name: app.name.clone(),
        runtime: runtime_to_proto(app.runtime.as_str()),
        status: status_to_proto(app.status.as_str()),
        build_command: app.build_command.clone(),
        run_command: app.run_command.clone(),
        env_vars,
        created_at: Some(Timestamp { millis: app.created_at }),
        updated_at: Some(Timestamp { millis: app.updated_at }),
        restart_count: app.restart_count as i32,
        pid: match app.pid {
            Some(p) => Some(p as i32),
            None => None,
        },
    }
}

/// The `(limit, offset)` of an app list request: the page's values, or 50
/// apps from the start when no page is given.
pub fn page_params(page: Option<PageRequest>) -> (r: (i64, i64))
    ensures
        r == match page {
            Some(p) => (p.limit as i64, p.offset as i64),
            None => (50i64, 0i64),
        },
{
    match page {
        Some(p) => (p.limit as i64, p.offset as i64),
        None => (50, 0),
    }
}

/// The response to an app list request: the summaries of `apps` in order,
/// the number returned as the total, and the page asked for.
pub fn list_response(apps: &Vec<AppRow>, limit: i64, offset: i64) -> (r: AppListResponse)
    ensures
        r.apps@.len() == apps@.len(),
        forall|i: int| 0 <= i < apps@.len() ==> (#[trigger] r.apps@[i]).app_id@ == apps@[i].app_id@
            && r.apps@[i].status == status_code(apps@[i].status@),
        r.page == Some(PageResponse {
            total: apps@.len() as i32,
            limit: limit as i32,
            offset: offset as i32,
        }),
{
    let mut out: Vec<AppSummary> = Vec::new();
    let mut i: usize = 0;
    while i < apps.len()
        invariant
            i <= apps@.len(),
            out@.len() == i,
            forall|k: int| 0 <= k < i ==> (#[trigger] out@[k]).app_id@ == apps@[k].app_id@
                && out@[k].status == status_code(apps@[k].status@),
        decreases apps@.len() - i,
    {
        out.push(app_to_summary(&apps[i]));
        i = i + 1;
    }
    AppListResponse {
        apps: out,
        page: Some(PageResponse {
            total: apps.len() as i32,
            limit: limit as i32,
            offset: offset as i32,
        }),
    }
}

/// How many recent log lines to send: 100 when the request leaves it unset
/// (0), otherwise the request clamped to 1..=1000.
pub fn log_tail(tail_lines: i32) -> (n: i64)
    ensures
        n == (if tail_lines == 0 {
            100
        } else if tail_lines < 1 {
            1
        } else if tail_lines > 1000 {
            1000
        } else {
            tail_lines as int
        }),
{
    let t = if tail_lines == 0 {
        100
    } else if tail_lines < 1 {
        1
    } else if tail_lines > 1000 {
        1000
    } else {
        tail_lines
    };
    t as i64
}

/// The log entries sent for stored log rows, in the same order.
pub fn log_entries(rows: &Vec<LogRow>) -> (v: Vec<LogEntry>)
    ensures
        v@.len() == rows@.len(),
        forall|i: int| 0 <= i < rows@.len() ==> (#[trigger] v@[i]).timestamp == Some(
            Timestamp { millis: rows@[i].timestamp },
        ) && v@[i].line@ == rows@[i].line@ && v@[i].is_stderr == rows@[i].is_stderr,
{
    let mut out: Vec<LogEntry> = Vec::new();
    let mut i: usize = 0;
    while i < rows.len()
        invariant
            i <= rows@.len(),
            out@.len() == i,
            forall|k: int| 0 <= k < i ==> (#[trigger] out@[k]).timestamp == Some(
                Timestamp { millis: rows@[k].timestamp },
            ) && out@[k].line@ == rows@[k].line@ && out@[k].is_stderr == rows@[k].is_stderr,
        decreases rows@.len() - i,
    {
        out.push(
            LogEntry {
                timestamp: Some(Timestamp { millis: rows[i].timestamp }),
                line: rows[i].line.clone(),
                is_stderr: rows[i].is_stderr,
            },
        );
        i = i + 1;
    }
    out
}

/// The deploy event sent to the client for a server-side deploy event.
pub fn deploy_event_message(e: ServerDeployEvent) -> (m: crate::proto::DeployEvent)
    ensures
        match e {
            ServerDeployEvent::Log { line, is_stderr } => m.event matches Some(
                Event::Log { line: l, is_stderr: s },
            ) && l == line && s == is_stderr,
            ServerDeployEvent::Complete { app_id } => m.event matches Some(
                Event::Complete { app_id: a },
            ) && a == app_id,
            ServerDeployEvent::Error(msg) => m.event matches Some(Event::Error { message })
                && message == msg,
        },
{
    let event = match e {
        ServerDeployEvent::Log { line, is_stderr } => Event::Log { line, is_stderr },
        ServerDeployEvent::Complete { app_id } => Event::Complete { app_id },
        ServerDeployEvent::Error(msg) => Event::Error { message: msg },
    };
    crate::proto::DeployEvent { event: Some(event) }
}

/// `"app {app_id} not found"`.
pub fn app_not_found(app_id: &str) -> (s: RpcStatus)
    ensures
        s.code == RpcCode::NotFound,
        s.message@ == "app "@ + app_id@ + " not found"@,
{
    let mut out: Vec<char> = Vec::new();
    push_str(&mut out, "app ");
    let a = chars_of(app_id);
    push_chars(&mut out, a.as_slice());
    push_str(&mut out, " not found");
    RpcStatus { code: RpcCode::NotFound, message: string_from_chars(out.as_slice()) }
}

/// Whether starting an app with this stored status launches a process: an
/// app that is already `"running"` is returned as it is.
pub fn start_needs_spawn(status: &str) -> (b: bool)
    ensures
        b == (status@ != "running"@),
{
    let v = chars_of(status);
    !crate::text::is_literal(v.as_slice(), "running")
}

/// What the authorization check makes of a request's `authorization`
/// header.
#[derive(Debug, Clone)]
pub enum AuthCheck {
    /// No header: refused (the `Pair` call is exempted before the check).
    Missing,
    /// The header is not `Bearer <key>` visible text.
    Malformed,
    /// Check this API key.
    Verify(String),
}

/// The gRPC path of the one call that needs no API key.
pub open spec fn pair_method() -> Seq<char> {
    "/rover.v1.AuthService/Pair"@
}

/// Whether a call to this gRPC method path must carry a valid API key:
/// every call but `Pair`, which is how a client gets its key.
pub fn requires_api_key(method: &str) -> (b: bool)
    ensures
        b == (method@ != pair_method()),
{
    let v = chars_of(method);
    !crate::text::is_literal(v.as_slice(), "/rover.v1.AuthService/Pair")
}

/// The refusal of a request that carries no `authorization` header.
pub fn missing_authorization() -> (s: RpcStatus)
    ensures
        s.code == RpcCode::Unauthenticated,
        s.message@ == "missing authorization header"@,
{
    RpcStatus { code: RpcCode::Unauthenticated, message: owned("missing authorization header") }
}

/// Reads the `authorization` header of a request.
pub fn check_authorization(header: Option<Option<String>>) -> (c: AuthCheck)
    ensures
        match header {
            None => c is Missing,
            Some(None) => c is Malformed,
            Some(Some(t)) => if has_prefix(t@, "Bearer "@) {
                c matches AuthCheck::Verify(k) && k@ == t@.subrange(
                    "Bearer "@.len() as int,
                    t@.len() as int,
                )
            } else {
                c is Malformed
            },
        },
{
    match header {
        None => AuthCheck::Missing,
        Some(None) => AuthCheck::Malformed,
        Some(Some(t)) => {
            let v = chars_of(t.as_str());
            let p = chars_of("Bearer ");
            if crate::text::starts_with(v.as_slice(), p.as_slice()) {
                let k = crate::text::copy_range(v.as_slice(), p.len(), v.len());
                AuthCheck::Verify(string_from_chars(k.as_slice()))
            } else {
                AuthCheck::Malformed
            }
        },
    }
}

/// The answer to a request whose header asked for an API key check, given
/// the check's outcome: valid keys pass, invalid ones are refused, a store
/// failure is an internal error.
pub fn authorization_outcome(verified: Result<bool, String>) -> (r: Result<(), RpcStatus>)
    ensures
        verified matches Ok(true) ==> r is Ok,
        verified matches Ok(false) ==> (r matches Err(s) && s.code == RpcCode::Unauthenticated
            && s.message@ == "invalid api key"@),
        verified is Err ==> (r matches Err(s) && s.code == RpcCode::Internal && s.message@
            == "auth error"@),
{
    match verified {
        Ok(true) => Ok(()),
        Ok(false) => Err(RpcStatus { code: RpcCode::Unauthenticated, message: owned("invalid api key") }),
        Err(_) => Err(RpcStatus { code: RpcCode::Internal, message: owned("auth error") }),
    }
}

/// The refusal of a malformed `authorization` header.
pub fn malformed_authorization() -> (s: RpcStatus)
    ensures
        s.code == RpcCode::Unauthenticated,
        s.message@ == "invalid authorization format"@,
{
    RpcStatus { code: RpcCode::Unauthenticated, message: owned("invalid authorization format") }
}

/// The apps the health check marks `"crashed"`: those recorded as
/// `"running"` whose process is not alive (`alive[i]` for `apps[i]`).
pub fn crashed_apps(apps: &Vec<AppRow>, alive: &Vec<bool>) -> (ids: Vec<String>)
    requires
        alive@.len() == apps@.len(),
    ensures
        ids.deep_view() == crashed_ids(apps@, alive@),
{
    let mut out: Vec<String> = Vec::new();
    let mut i: usize = 0;
    while i < apps.len()
        invariant
            i <= apps@.len() == alive@.len(),
            out.deep_view() == crashed_ids(apps@.subrange(0, i as int), alive@.subrange(0, i as int)),
        decreases apps@.len() - i,
    {
        let running = crate::text::str_eq(apps[i].status.as_str(), "running");
        let ghost before = out.deep_view();
        if running && !alive[i] {
            out.push(apps[i].app_id.clone());
        }
        assert(apps@.subrange(0, i + 1).drop_last() =~= apps@.subrange(0, i as int));
        assert(alive@.subrange(0, i + 1).drop_last() =~= alive@.subrange(0, i as int));
        assert(out.deep_view() =~= crashed_ids(apps@.subrange(0, i + 1), alive@.subrange(0, i + 1)));
        i = i + 1;
    }
    assert(apps@.subrange(0, apps@.len() as int) =~= apps@);
    assert(alive@.subrange(0, alive@.len() as int) =~= alive@);
    out
}

/// The ids of the apps recorded as running whose process is dead, in order.
pub open spec fn crashed_ids(apps: Seq<AppRow>, alive: Seq<bool>) -> Seq<Seq<char>>
    decreases apps.len(),
{
    if apps.len() == 0 {
        seq![]
    } else {
        let rest = crashed_ids(apps.drop_last(), alive.drop_last());
        if apps.last().status@ == "running"@ && !alive[apps.len() - 1] {
            rest.push(apps.last().app_id@)
        } else {
            rest
        }
    }
}

/// App `i` is recorded as running but its process is dead.
pub open spec fn dead_running(apps: Seq<AppRow>, alive: Seq<bool>, i: int) -> bool {
    apps[i].status@ == "running"@ && !alive[i]
}

/// The health check marks crashed exactly the apps recorded as running
/// whose process is dead: every one of them, nothing else, each once, in
/// the apps' order. The returned indices say which app each id belongs to.
pub proof fn law_crashed_are_dead_running(apps: Seq<AppRow>, alive: Seq<bool>) -> (idx: Seq<int>)
    requires
        alive.len() == apps.len(),
    ensures
        idx.len() == crashed_ids(apps, alive).len(),
        forall|k: int|
            0 <= k < idx.len() ==> 0 <= #[trigger] idx[k] < apps.len() && dead_running(
                apps,
                alive,
                idx[k],
            ) && crashed_ids(apps, alive)[k] == apps[idx[k]].app_id@,
        forall|k: int, l: int| 0 <= k < l < idx.len() ==> idx[k] < idx[l],
        forall|i: int| 0 <= i < apps.len() && dead_running(apps, alive, i) ==> idx.contains(i),
    decreases apps.len(),
{
    if apps.len() == 0 {
        seq![]
    } else {
        let n = apps.len() - 1;
        let pa = apps.drop_last();
        let pl = alive.drop_last();
        let prev = law_crashed_are_dead_running(pa, pl);
        assert forall|i: int| 0 <= i < n implies dead_running(pa, pl, i) == dead_running(
            apps,
            alive,
            i,
        ) by {
            assert(pa[i] == apps[i] && pl[i] == alive[i]);
        }
        if dead_running(apps, alive, n) {
            let idx = prev.push(n);
            assert forall|i: int| 0 <= i < apps.len() && dead_running(apps, alive, i) implies idx.contains(
                i,
            ) by {
                if i < n {
                    assert(prev.contains(i));
                    let k = choose|k: int| 0 <= k < prev.len() && prev[k] == i;
                    assert(idx[k] == i);
                } else {
                    assert(idx[prev.len() as int] == i);
                }
            }
            assert forall|k: int| 0 <= k < idx.len() implies 0 <= #[trigger] idx[k] < apps.len()
                && dead_running(apps, alive, idx[k]) && crashed_ids(apps, alive)[k]
                == apps[idx[k]].app_id@ by {
                if k < prev.len() {
                    assert(idx[k] == prev[k]);
                    assert(pa[prev[k]] == apps[prev[k]]);
                }
            }
            idx
        } else {
            assert forall|i: int| 0 <= i < apps.len() && dead_running(apps, alive, i) implies prev.contains(
                i,
            ) by {
                assert(i < n);
            }
            assert forall|k: int| 0 <= k < prev.len() implies 0 <= #[trigger] prev[k] < apps.len()
                && dead_running(apps, alive, prev[k]) && crashed_ids(apps, alive)[k]
                == apps[prev[k]].app_id@ by {
                assert(pa[prev[k]] == apps[prev[k]]);
            }
            prev
        }
    }
}

} // verus!
