//! Deploy events streamed to the client, and the deploy pipeline's steps.
use vstd::prelude::*;
use crate::client::format::{push_chars, push_str};
use crate::error::RoverError;
use crate::manifest::AppManifest;
use crate::server::process::parse_shell_command;
use crate::status::{parse_runtime, Runtime};
use crate::text::{chars_of, owned, string_from_chars, words};

verus! {

/// One event of a running deploy.
#[derive(Debug, Clone)]
pub enum DeployEvent {
    Log { line: String, is_stderr: bool },
    Complete { app_id: String },
    Error(String),
}

impl DeployEvent {
    /// A line of deploy output on standard output.
    pub fn log(line: &str) -> (e: Self)
        ensures
            e matches DeployEvent::Log { line: l, is_stderr } && l@ == line@ && !is_stderr,
    {
        DeployEvent::Log { line: owned(line), is_stderr: false }
    }

    /// The deploy finished and the app runs under `app_id`.
    pub fn complete(app_id: &str) -> (e: Self)
        ensures
            e matches DeployEvent::Complete { app_id: a } && a@ == app_id@,
    {
        DeployEvent::Complete { app_id: owned(app_id) }
    }

    /// The deploy failed with `msg`.
    pub fn error(msg: &str) -> (e: Self)
        ensures
            e matches DeployEvent::Error(m) && m@ == msg@,
    {
        DeployEvent::Error(owned(msg))
    }
}

/// What a deploy needs once its manifest is accepted.
#[derive(Debug, Clone)]
pub struct DeployRequest {
    pub app_id: String,
    pub app_name: String,
    pub runtime: String,
    pub build_cmd: String,
    pub run_cmd: String,
    pub env_vars: Vec<(String, String)>,
}

/// Checks a manifest and assigns the new app a fresh id. A manifest that
/// fails validation, or names an unknown runtime, is refused with that error.
pub fn prepare_deploy(manifest: &AppManifest) -> (r: Result<DeployRequest, RoverError>)
    ensures
        manifest.check() is Err ==> (r matches Err(RoverError::ManifestValidation(m)) && m@
            == manifest.check()->Err_0),
        manifest.check() is Ok ==> (r matches Ok(req) && crate::ids::is_uuid_v4_text(
            req.app_id@,
        ) && req.app_name@ == manifest.app.name@ && req.runtime@ == manifest.app.runtime@
            && req.build_cmd@ == manifest.build.command@ && req.run_cmd@
            == manifest.run.command@ && req.env_vars@ == manifest.env@),
{
    match manifest.validate() {
        Ok(()) => {},
        Err(e) => {
            return Err(e);
        },
    }
    match manifest.runtime() {
        Ok(_) => {},
        Err(e) => {
            return Err(e);
        },
    }
    Ok(
        DeployRequest {
            app_id: crate::ids::new_uuid_v4(),
            app_name: manifest.app.name.clone(),
            runtime: manifest.app.runtime.clone(),
            build_cmd: manifest.build.command.clone(),
            run_cmd: manifest.run.command.clone(),
            env_vars: crate::text::clone_pairs(&manifest.env),
        },
    )
}

/// One thing the deploy pipeline asks its runner to do.
#[derive(Debug, Clone)]
pub enum DeployAction {
    /// Stream this event to the client.
    Send(DeployEvent),
    /// Record this status for the app.
    SetStatus(String),
    /// Ask the runtime handler whether its toolchain is installed.
    CheckInstalled,
    /// Create `{data_dir}/apps/{app_id}/source`.
    CreateDirs,
    /// Insert the app row: runtime, commands and manifest from the request,
    /// type `"service"`, status `"deploying"`.
    InsertApp,
    /// Unpack the source archive into the source directory.
    Extract,
    /// Run the build command in the source directory, streaming its output.
    Build,
    /// Write the manifest next to the source.
    WriteManifest,
    /// Store one environment variable (not secret).
    SetEnv(String, String),
    /// Start the app process.
    Spawn { program: String, args: Vec<String> },
}

/// Where the pipeline stands after a step.
#[derive(Debug, Clone)]
pub enum DeployNext {
    /// Run the actions, then report whether the toolchain is installed.
    AwaitInstalled,
    /// Run the actions, then report whether the build succeeded.
    AwaitBuild,
    /// Run the actions; the deploy is over.
    Finished,
    /// Run the actions; the deploy is over and ends in this error.
    Failed(String),
}

/// An action's shape, as mathematical values.
pub open spec fn is_send_error(a: DeployAction, msg: Seq<char>) -> bool {
    a matches DeployAction::Send(DeployEvent::Error(m)) && m@ == msg
}

pub open spec fn is_send_log(a: DeployAction, line: Seq<char>) -> bool {
    a matches DeployAction::Send(DeployEvent::Log { line: l, is_stderr }) && l@ == line && !is_stderr
}

pub open spec fn is_set_env(a: DeployAction, kv: (String, String)) -> bool {
    a matches DeployAction::SetEnv(k, v) && k@ == kv.0@ && v@ == kv.1@
}

pub open spec fn is_set_status(a: DeployAction, status: Seq<char>) -> bool {
    a matches DeployAction::SetStatus(s) && s@ == status
}

fn message2(a: &str, b: &[char]) -> (s: String)
    ensures
        s@ == a@ + b@,
{
    let mut out: Vec<char> = Vec::new();
    push_str(&mut out, a);
    push_chars(&mut out, b);
    string_from_chars(out.as_slice())
}

fn message3(a: &str, b: &[char], c: &str) -> (s: String)
    ensures
        s@ == a@ + b@ + c@,
{
    let mut out: Vec<char> = Vec::new();
    push_str(&mut out, a);
    push_chars(&mut out, b);
    push_str(&mut out, c);
    string_from_chars(out.as_slice())
}

/// The first step: the runtime text must name a known runtime, and a
/// handler must be available for it (`handler_available`).
pub fn deploy_start(req: &DeployRequest, handler_available: bool) -> (r: (Vec<DeployAction>, DeployNext))
    ensures
        parse_runtime(req.runtime@) is Err ==> r.1 is Finished && r.0@.len() == 2
            && is_send_error(r.0@[0], "invalid runtime: "@ + req.runtime@) && is_set_status(
            r.0@[1],
            "failed"@,
        ),
        parse_runtime(req.runtime@) is Ok && !handler_available ==> r.1 is Finished
            && r.0@.len() == 2 && is_send_error(r.0@[0], "runtime not available: "@ + req.runtime@)
            && is_set_status(r.0@[1], "failed"@),
        parse_runtime(req.runtime@) is Ok && handler_available ==> r.1 is AwaitInstalled && r.0@.len() == 1 && r.0@[0] is CheckInstalled,
{
    let rt = chars_of(req.runtime.as_str());
    let mut actions: Vec<DeployAction> = Vec::new();
    match Runtime::parse(req.runtime.as_str()) {
        Err(_) => {
            actions.push(DeployAction::Send(DeployEvent::Error(message2("invalid runtime: ", rt.as_slice()))));
            actions.push(DeployAction::SetStatus(owned("failed")));
            (actions, DeployNext::Finished)
        },
        Ok(_) => {
            if !handler_available {
                actions.push(DeployAction::Send(DeployEvent::Error(message2("runtime not available: ", rt.as_slice()))));
                actions.push(DeployAction::SetStatus(owned("failed")));
                (actions, DeployNext::Finished)
            } else {
                actions.push(DeployAction::CheckInstalled);
                (actions, DeployNext::AwaitInstalled)
            }
        },
    }
}

/// After the toolchain check: without the toolchain the deploy fails;
/// with it, the app is recorded, its source unpacked and the build started.
pub fn deploy_after_check(req: &DeployRequest, installed: bool) -> (r: (Vec<DeployAction>, DeployNext))
    ensures
        !installed ==> (r.1 matches DeployNext::Failed(e) && e@ == "runtime not installed"@)
            && r.0@.len() == 2 && is_send_error(r.0@[0], "Runtime "@ + req.runtime@ + " is not installed"@)
            && is_set_status(r.0@[1], "failed"@),
        installed ==> r.1 is AwaitBuild && r.0@.len() == 7 && r.0@[0] is CreateDirs
            && r.0@[1] is InsertApp && is_send_log(r.0@[2], "Extracting source..."@)
            && r.0@[3] is Extract && is_send_log(r.0@[4], "Building with "@ + req.runtime@ + "..."@)
            && is_send_log(r.0@[5], "> "@ + req.build_cmd@) && r.0@[6] is Build,
{
    let rt = chars_of(req.runtime.as_str());
    let mut actions: Vec<DeployAction> = Vec::new();
    if !installed {
        actions.push(DeployAction::Send(DeployEvent::Error(message3("Runtime ", rt.as_slice(), " is not installed"))));
        actions.push(DeployAction::SetStatus(owned("failed")));
        return (actions, DeployNext::Failed(owned("runtime not installed")));
    }
    let b = chars_of(req.build_cmd.as_str());
    actions.push(DeployAction::CreateDirs);
    actions.push(DeployAction::InsertApp);
    actions.push(DeployAction::Send(DeployEvent::log("Extracting source...")));
    actions.push(DeployAction::Extract);
    actions.push(DeployAction::Send(DeployEvent::Log { line: message3("Building with ", rt.as_slice(), "..."), is_stderr: false }));
    actions.push(DeployAction::Send(DeployEvent::Log { line: message2("> ", b.as_slice()), is_stderr: false }));
    actions.push(DeployAction::Build);
    (actions, DeployNext::AwaitBuild)
}

/// After the build: a failed build fails the deploy; a successful one is
/// followed by storing the manifest and environment, starting the app and
/// reporting completion.
pub fn deploy_after_build(req: &DeployRequest, success: bool) -> (r: (Vec<DeployAction>, DeployNext))
    ensures
        r.1 is Finished,
        !success ==> r.0@.len() == 2 && is_send_error(r.0@[0], "Build failed — check output above"@)
            && is_set_status(r.0@[1], "failed"@),
        success ==> ({
            let n: int = req.env_vars@.len() as int;
            &&& r.0@.len() == n + 6
            &&& r.0@[0] is WriteManifest
            &&& forall|j: int| 1 <= j <= n ==> is_set_env(#[trigger] r.0@[j], req.env_vars@[j - 1])
            &&& is_send_log(r.0@[n + 1], "Starting app..."@)
            &&& is_set_status(r.0@[n + 2], "starting"@)
            &&& (r.0@[n + 3] matches DeployAction::Spawn { program, args }
                && (words(req.run_cmd@).len() == 0 ==> program@.len() == 0 && args@.len() == 0)
                && (words(req.run_cmd@).len() > 0 ==> program@ == words(req.run_cmd@)[0]
                    && args.deep_view() == words(req.run_cmd@).drop_first()))
            &&& is_set_status(r.0@[n + 4], "running"@)
            &&& (r.0@[n + 5] matches DeployAction::Send(DeployEvent::Complete { app_id }) && app_id@ == req.app_id@)
        }),
{
    let mut actions: Vec<DeployAction> = Vec::new();
    if !success {
        actions.push(DeployAction::Send(DeployEvent::error("Build failed — check output above")));
        actions.push(DeployAction::SetStatus(owned("failed")));
        return (actions, DeployNext::Finished);
    }
    actions.push(DeployAction::WriteManifest);
    let n = req.env_vars.len();
    let mut i: usize = 0;
    while i < n
        invariant
            i <= n == req.env_vars@.len(),
            actions@.len() == 1 + i,
            actions@[0] is WriteManifest,
            forall|j: int| 1 <= j <= i ==> is_set_env(#[trigger] actions@[j], req.env_vars@[j - 1]),
        decreases n - i,
    {
        let (k, v) = &req.env_vars[i];
        actions.push(DeployAction::SetEnv(k.clone(), v.clone()));
        i = i + 1;
    }
    actions.push(DeployAction::Send(DeployEvent::log("Starting app...")));
    actions.push(DeployAction::SetStatus(owned("starting")));
    let (program, args) = parse_shell_command(req.run_cmd.as_str());
    actions.push(DeployAction::Spawn { program, args });
    actions.push(DeployAction::SetStatus(owned("running")));
    actions.push(DeployAction::Send(DeployEvent::complete(req.app_id.as_str())));
    (actions, DeployNext::Finished)
}

/// The event sent when a step of the deploy fails with `error`.
pub fn deploy_failed_event(error: &str) -> (e: DeployEvent)
    ensures
        e matches DeployEvent::Error(m) && m@ == "deploy failed: "@ + error@,
{
    let c = chars_of(error);
    DeployEvent::Error(message2("deploy failed: ", c.as_slice()))
}

} // verus!
