//! Language runtimes and app lifecycle states.
use vstd::prelude::*;
use crate::text::{
    ascii_lower, ascii_lower_char, ascii_upper, ascii_upper_char, chars_of, is_ascii_seq, is_literal,
    lowercase, string_from_chars, to_lowercase,
};

verus! {

/// Identifies the language runtime for a deployed app.
#[derive(Debug, Clone, Copy, PartialEq, Eq, Hash, Structural)]
pub enum Runtime {
    Python,
    Node,
    Go,
    Rust,
}

/// The lowercase name a runtime is written with (its `Display`).
pub open spec fn runtime_text(r: Runtime) -> Seq<char> {
    match r {
        Runtime::Python => "python"@,
        Runtime::Node => "node"@,
        Runtime::Go => "go"@,
        Runtime::Rust => "rust"@,
    }
}

/// The runtime named by an already lower-cased word, if any.
pub open spec fn runtime_of_word(w: Seq<char>) -> Option<Runtime> {
    if w == "python"@ || w == "python3"@ {
        Some(Runtime::Python)
    } else if w == "node"@ || w == "nodejs"@ || w == "node.js"@ {
        Some(Runtime::Node)
    } else if w == "go"@ || w == "golang"@ {
        Some(Runtime::Go)
    } else if w == "rust"@ || w == "cargo"@ {
        Some(Runtime::Rust)
    } else {
        None
    }
}

/// What parsing an ASCII string gives: the runtime named by its ASCII
/// lower case, or the error quoting that lower case.
pub open spec fn ascii_parse_runtime(s: Seq<char>) -> Result<Runtime, Seq<char>> {
    match runtime_of_word(ascii_lower(s)) {
        Some(r) => Ok(r),
        None => Err("unknown runtime: '"@ + ascii_lower(s) + "'"@),
    }
}

/// What `Runtime::from_str` gives for a string with characters `s`.
pub open spec fn parse_runtime(s: Seq<char>) -> Result<Runtime, Seq<char>> {
    match runtime_of_word(lowercase(s)) {
        Some(r) => Ok(r),
        None => Err("unknown runtime: '"@ + lowercase(s) + "'"@),
    }
}

fn push_literal(out: &mut Vec<char>, lit: &str)
    ensures
        final(out)@ == old(out)@ + lit@,
{
    let l = chars_of(lit);
    let mut i: usize = 0;
    let ghost start = out@;
    while i < l.len()
        invariant
            i <= l@.len(),
            l@ == lit@,
            out@ == start + l@.subrange(0, i as int),
        decreases l@.len() - i,
    {
        out.push(l[i]);
        assert(out@ =~= start + l@.subrange(0, i + 1));
        i = i + 1;
    }
    assert(l@.subrange(0, l@.len() as int) =~= l@);
}

/// `"{prefix}{middle}{suffix}"`.
pub fn quote_between(prefix: &str, middle: &[char], suffix: &str) -> (r: String)
    ensures
        r@ == prefix@ + middle@ + suffix@,
{
    let mut out: Vec<char> = Vec::new();
    push_literal(&mut out, prefix);
    let ghost p = out@;
    let mut i: usize = 0;
    while i < middle.len()
        invariant
            i <= middle@.len(),
            out@ == p + middle@.subrange(0, i as int),
        decreases middle@.len() - i,
    {
        out.push(middle[i]);
        assert(out@ =~= p + middle@.subrange(0, i + 1));
        i = i + 1;
    }
    assert(middle@.subrange(0, middle@.len() as int) =~= middle@);
    push_literal(&mut out, suffix);
    assert(out@ =~= prefix@ + middle@ + suffix@);
    string_from_chars(out.as_slice())
}

impl Runtime {
    /// All known runtimes.
    pub fn all() -> (v: Vec<Runtime>)
        ensures
            v@ == seq![Runtime::Python, Runtime::Node, Runtime::Go, Runtime::Rust],
    {
        let mut v = Vec::new();
        v.push(Runtime::Python);
        v.push(Runtime::Node);
        v.push(Runtime::Go);
        v.push(Runtime::Rust);
        v
    }

    /// Human-readable name for display.
    pub fn display_name(&self) -> (s: &'static str)
        ensures
            s@ == runtime_display_text(*self),
    {
        match self {
            Runtime::Python => "Python",
            Runtime::Node => "Node.js",
            Runtime::Go => "Go",
            Runtime::Rust => "Rust",
        }
    }

    /// Default build command for this runtime.
    pub fn default_build_command(&self) -> (s: &'static str)
        ensures
            s@ == runtime_build_text(*self),
    {
        match self {
            Runtime::Python => "pip install -r requirements.txt",
            Runtime::Node => "npm install",
            Runtime::Go => "go build -o app .",
            Runtime::Rust => "cargo build --release",
        }
    }

    /// Default run command for this runtime.
    pub fn default_run_command(&self) -> (s: &'static str)
        ensures
            s@ == runtime_run_text(*self),
    {
        match self {
            Runtime::Python => "python3 main.py",
            Runtime::Node => "node index.js",
            Runtime::Go => "./app",
            Runtime::Rust => "./target/release/app",
        }
    }

    /// The lowercase name of the runtime, as it is displayed and stored.
    pub fn as_str(&self) -> (s: &'static str)
        ensures
            s@ == runtime_text(*self),
    {
        match self {
            Runtime::Python => "python",
            Runtime::Node => "node",
            Runtime::Go => "go",
            Runtime::Rust => "rust",
        }
    }

    /// The runtime's display text, as a `String`.
    pub fn to_string(&self) -> (s: String)
        ensures
            s@ == runtime_text(*self),
    {
        crate::text::owned(self.as_str())
    }

    /// Parses a runtime name, ignoring case and accepting common aliases.
    pub fn parse(s: &str) -> (r: Result<Runtime, String>)
        ensures
            match parse_runtime(s@) {
                Ok(rt) => r == Ok::<Runtime, String>(rt),
                Err(msg) => r is Err && r->Err_0@ == msg,
            },
            is_ascii_seq(s@) ==> lowercase(s@) == ascii_lower(s@),
            is_ascii_seq(s@) ==> parse_runtime(s@) == ascii_parse_runtime(s@),
    {
        let lower = to_lowercase(s);
        let w = chars_of(lower.as_str());
        let ws = w.as_slice();
        if is_literal(ws, "python") || is_literal(ws, "python3") {
            Ok(Runtime::Python)
        } else if is_literal(ws, "node") || is_literal(ws, "nodejs") || is_literal(ws, "node.js") {
            Ok(Runtime::Node)
        } else if is_literal(ws, "go") || is_literal(ws, "golang") {
            Ok(Runtime::Go)
        } else if is_literal(ws, "rust") || is_literal(ws, "cargo") {
            Ok(Runtime::Rust)
        } else {
            Err(quote_between("unknown runtime: '", ws, "'"))
        }
    }
}

pub open spec fn runtime_display_text(r: Runtime) -> Seq<char> {
    match r {
        Runtime::Python => "Python"@,
        Runtime::Node => "Node.js"@,
        Runtime::Go => "Go"@,
        Runtime::Rust => "Rust"@,
    }
}

pub open spec fn runtime_build_text(r: Runtime) -> Seq<char> {
    match r {
        Runtime::Python => "pip install -r requirements.txt"@,
        Runtime::Node => "npm install"@,
        Runtime::Go => "go build -o app ."@,
        Runtime::Rust => "cargo build --release"@,
    }
}

pub open spec fn runtime_run_text(r: Runtime) -> Seq<char> {
    match r {
        Runtime::Python => "python3 main.py"@,
        Runtime::Node => "node index.js"@,
        Runtime::Go => "./app"@,
        Runtime::Rust => "./target/release/app"@,
    }
}

impl std::str::FromStr for Runtime {
    type Err = String;

    /// Same as [`Runtime::parse`].
    fn from_str(s: &str) -> (r: Result<Self, Self::Err>)
        ensures
            match parse_runtime(s@) {
                Ok(rt) => r == Ok::<Runtime, String>(rt),
                Err(msg) => r is Err && r->Err_0@ == msg,
            },
            is_ascii_seq(s@) ==> lowercase(s@) == ascii_lower(s@),
            is_ascii_seq(s@) ==> parse_runtime(s@) == ascii_parse_runtime(s@),
    {
        Runtime::parse(s)
    }
}

/// Represents the current state of a deployed app.
#[derive(Debug, Clone, Copy, PartialEq, Eq, Hash, Structural)]
pub enum AppStatus {
    /// Build is in progress.
    Deploying,
    /// Process is starting up.
    Starting,
    /// Process is running and healthy.
    Running,
    /// Explicitly stopped by user.
    Stopped,
    /// Process exited unexpectedly.
    Crashed,
    /// Build or start failed.
    Failed,
}

/// The lowercase name of a status, as it is displayed and stored.
pub open spec fn status_text(s: AppStatus) -> Seq<char> {
    match s {
        AppStatus::Deploying => "deploying"@,
        AppStatus::Starting => "starting"@,
        AppStatus::Running => "running"@,
        AppStatus::Stopped => "stopped"@,
        AppStatus::Crashed => "crashed"@,
        AppStatus::Failed => "failed"@,
    }
}

/// The status named by an already lower-cased word, if any.
pub open spec fn status_of_word(w: Seq<char>) -> Option<AppStatus> {
    if w == "deploying"@ {
        Some(AppStatus::Deploying)
    } else if w == "starting"@ {
        Some(AppStatus::Starting)
    } else if w == "running"@ {
        Some(AppStatus::Running)
    } else if w == "stopped"@ {
        Some(AppStatus::Stopped)
    } else if w == "crashed"@ {
        Some(AppStatus::Crashed)
    } else if w == "failed"@ {
        Some(AppStatus::Failed)
    } else {
        None
    }
}

/// What `AppStatus::from_str` gives for a string with characters `s`.
pub open spec fn parse_status(s: Seq<char>) -> Result<AppStatus, Seq<char>> {
    match status_of_word(lowercase(s)) {
        Some(st) => Ok(st),
        None => Err("unknown app status: '"@ + lowercase(s) + "'"@),
    }
}

pub open spec fn status_color_text(s: AppStatus) -> Seq<char> {
    match s {
        AppStatus::Deploying | AppStatus::Starting => "#f0ad4e"@,
        AppStatus::Running => "#5cb85c"@,
        AppStatus::Stopped => "#777777"@,
        AppStatus::Crashed | AppStatus::Failed => "#d9534f"@,
    }
}

impl AppStatus {
    /// Whether the app is in a terminal/non-transitional state.
    pub fn is_terminal(&self) -> (b: bool)
        ensures
            b == !(*self == AppStatus::Deploying || *self == AppStatus::Starting),
    {
        match self {
            AppStatus::Running | AppStatus::Stopped | AppStatus::Crashed | AppStatus::Failed => true,
            _ => false,
        }
    }

    /// Display color hint for UIs.
    pub fn color(&self) -> (c: &'static str)
        ensures
            c@ == status_color_text(*self),
    {
        match self {
            AppStatus::Deploying | AppStatus::Starting => "#f0ad4e",
            AppStatus::Running => "#5cb85c",
            AppStatus::Stopped => "#777777",
            AppStatus::Crashed | AppStatus::Failed => "#d9534f",
        }
    }

    /// The lowercase name of the status, as it is displayed and stored.
    pub fn as_str(&self) -> (s: &'static str)
        ensures
            s@ == status_text(*self),
    {
        match self {
            AppStatus::Deploying => "deploying",
            AppStatus::Starting => "starting",
            AppStatus::Running => "running",
            AppStatus::Stopped => "stopped",
            AppStatus::Crashed => "crashed",
            AppStatus::Failed => "failed",
        }
    }

    /// The status's display text, as a `String`.
    pub fn to_string(&self) -> (s: String)
        ensures
            s@ == status_text(*self),
    {
        crate::text::owned(self.as_str())
    }

    /// Parses a status name, ignoring case.
    pub fn parse(s: &str) -> (r: Result<AppStatus, String>)
        ensures
            match parse_status(s@) {
                Ok(st) => r == Ok::<AppStatus, String>(st),
                Err(msg) => r is Err && r->Err_0@ == msg,
            },
            is_ascii_seq(s@) ==> lowercase(s@) == ascii_lower(s@),
    {
        let lower = to_lowercase(s);
        let w = chars_of(lower.as_str());
        let ws = w.as_slice();
        if is_literal(ws, "deploying") {
            Ok(AppStatus::Deploying)
        } else if is_literal(ws, "starting") {
            Ok(AppStatus::Starting)
        } else if is_literal(ws, "running") {
            Ok(AppStatus::Running)
        } else if is_literal(ws, "stopped") {
            Ok(AppStatus::Stopped)
        } else if is_literal(ws, "crashed") {
            Ok(AppStatus::Crashed)
        } else if is_literal(ws, "failed") {
            Ok(AppStatus::Failed)
        } else {
            Err(quote_between("unknown app status: '", ws, "'"))
        }
    }
}

impl std::str::FromStr for AppStatus {
    type Err = String;

    /// Same as [`AppStatus::parse`].
    fn from_str(s: &str) -> (r: Result<Self, Self::Err>)
        ensures
            match parse_status(s@) {
                Ok(st) => r == Ok::<AppStatus, String>(st),
                Err(msg) => r is Err && r->Err_0@ == msg,
            },
            is_ascii_seq(s@) ==> lowercase(s@) == ascii_lower(s@),
    {
        AppStatus::parse(s)
    }
}

/// A runtime's display text is ASCII, is its own lower case, and names that
/// same runtime: parsing what `to_string` prints gives the runtime back.
pub proof fn law_runtime_text_parses_back(r: Runtime)
    ensures
        is_ascii_seq(runtime_text(r)),
        ascii_lower(runtime_text(r)) == runtime_text(r),
        runtime_of_word(runtime_text(r)) == Some(r),
{
    reveal_strlit("python");
    reveal_strlit("python3");
    reveal_strlit("node");
    reveal_strlit("nodejs");
    reveal_strlit("node.js");
    reveal_strlit("go");
    reveal_strlit("golang");
    reveal_strlit("rust");
    reveal_strlit("cargo");
    assert(ascii_lower(runtime_text(r)) =~= runtime_text(r));
    assert("node"@[0] != "rust"@[0]);
    assert("python"@.len() == 6 && "python3"@.len() == 7 && "node"@.len() == 4);
    assert("nodejs"@.len() == 6 && "node.js"@.len() == 7 && "go"@.len() == 2);
    assert("golang"@.len() == 6 && "rust"@.len() == 4 && "cargo"@.len() == 5);
}

/// Parsing ignores ASCII case: every ASCII string whose ASCII lower case is
/// a runtime's name (such as its `to_string` text, upper-cased) parses to
/// that runtime, and so do the aliases `python3`, `nodejs`, `node.js`,
/// `golang` and `cargo`; any other ASCII string is refused with
/// `unknown runtime: '<lower case>'`.
pub proof fn law_runtime_parse_ignores_ascii_case(r: Runtime, s: Seq<char>)
    requires
        is_ascii_seq(s),
    ensures
        ascii_lower(s) == runtime_text(r) ==> ascii_parse_runtime(s) == Ok::<Runtime, Seq<char>>(r),
        ascii_lower(ascii_upper(runtime_text(r))) == runtime_text(r),
        is_ascii_seq(ascii_upper(runtime_text(r))),
        ascii_lower(s) == "python3"@ ==> ascii_parse_runtime(s) == Ok::<Runtime, Seq<char>>(
            Runtime::Python,
        ),
        (ascii_lower(s) == "nodejs"@ || ascii_lower(s) == "node.js"@) ==> ascii_parse_runtime(s)
            == Ok::<Runtime, Seq<char>>(Runtime::Node),
        ascii_lower(s) == "golang"@ ==> ascii_parse_runtime(s) == Ok::<Runtime, Seq<char>>(
            Runtime::Go,
        ),
        ascii_lower(s) == "cargo"@ ==> ascii_parse_runtime(s) == Ok::<Runtime, Seq<char>>(
            Runtime::Rust,
        ),
        runtime_of_word(ascii_lower(s)) is None ==> ascii_parse_runtime(s) == Err::<Runtime, Seq<
            char,
        >>("unknown runtime: '"@ + ascii_lower(s) + "'"@),
{
    law_runtime_text_parses_back(r);
    reveal_strlit("python");
    reveal_strlit("python3");
    reveal_strlit("node");
    reveal_strlit("nodejs");
    reveal_strlit("node.js");
    reveal_strlit("go");
    reveal_strlit("golang");
    reveal_strlit("rust");
    reveal_strlit("cargo");
    assert("python"@.len() == 6 && "python3"@.len() == 7 && "node"@.len() == 4);
    assert("nodejs"@.len() == 6 && "node.js"@.len() == 7 && "go"@.len() == 2);
    assert("golang"@.len() == 6 && "rust"@.len() == 4 && "cargo"@.len() == 5);
    assert("nodejs"@[0] != "python"@[0] && "golang"@[0] != "python"@[0]);
    assert("node.js"@[0] != "python3"@[0]);
    let t = runtime_text(r);
    assert(ascii_lower(ascii_upper(t)) =~= t) by {
        assert forall|i: int| 0 <= i < t.len() implies ascii_lower_char(ascii_upper_char(t[i]))
            == t[i] by {
            assert(ascii_lower(t)[i] == t[i]);
        }
    }
    assert forall|i: int| 0 <= i < ascii_upper(t).len() implies (#[trigger] ascii_upper(t)[i]
        as int) < 128 by {
        assert((t[i] as int) < 128);
    }
}

/// A status's display text is ASCII, is its own lower case, and names that
/// same status: parsing what `to_string` prints gives the status back.
pub proof fn law_status_text_parses_back(s: AppStatus)
    ensures
        is_ascii_seq(status_text(s)),
        ascii_lower(status_text(s)) == status_text(s),
        status_of_word(status_text(s)) == Some(s),
{
    reveal_strlit("deploying");
    reveal_strlit("starting");
    reveal_strlit("running");
    reveal_strlit("stopped");
    reveal_strlit("crashed");
    reveal_strlit("failed");
    assert(ascii_lower(status_text(s)) =~= status_text(s));
    assert("deploying"@.len() == 9 && "starting"@.len() == 8 && "running"@.len() == 7);
    assert("stopped"@.len() == 7 && "crashed"@.len() == 7 && "failed"@.len() == 6);
    assert("running"@[0] != "stopped"@[0] && "running"@[0] != "crashed"@[0]);
    assert("stopped"@[0] != "crashed"@[0]);
}

} // verus!
