//! Language runtime handlers and their registry.
use vstd::prelude::*;
use crate::status::Runtime;
use crate::text::owned;

verus! {

/// The Python toolchain.
pub struct PythonRuntime;

/// The Go toolchain.
pub struct GoRuntime;

/// How a handler runs an app's command: through `sh -c` so that shell
/// features (pipes, redirects) work.
pub open spec fn shell_invocation(command: Seq<char>) -> (Seq<char>, Seq<Seq<char>>) {
    ("sh"@, seq!["-c"@, command])
}

fn sh_c(command: &str) -> (r: (String, Vec<String>))
    ensures
        r.0@ == shell_invocation(command@).0,
        r.1.deep_view() == shell_invocation(command@).1,
{
    let mut args: Vec<String> = Vec::new();
    args.push(owned("-c"));
    args.push(owned(command));
    assert(args.deep_view() =~= seq!["-c"@, command@]);
    (owned("sh"), args)
}

/// Implemented by each language runtime: which runtime it serves, and the
/// command that runs an app. Checking the toolchain and running the build
/// are process work, done by the server around the library.
pub trait RuntimeHandler {
    /// The runtime this handler serves.
    spec fn handled(&self) -> Runtime;

    /// The runtime identifier.
    fn runtime(&self) -> (r: Runtime)
        ensures
            r == self.handled(),
    ;

    /// The program and arguments that run the app's command.
    fn run_command(&self, command: &str) -> (r: (String, Vec<String>));
}

impl PythonRuntime {
    pub fn new() -> (r: Self) {
        PythonRuntime
    }
}

impl RuntimeHandler for PythonRuntime {
    open spec fn handled(&self) -> Runtime {
        Runtime::Python
    }

    fn runtime(&self) -> (r: Runtime) {
        Runtime::Python
    }

    fn run_command(&self, command: &str) -> (r: (String, Vec<String>))
        ensures
            r.0@ == shell_invocation(command@).0,
            r.1.deep_view() == shell_invocation(command@).1,
    {
        sh_c(command)
    }
}

impl GoRuntime {
    pub fn new() -> (r: Self) {
        GoRuntime
    }
}

impl RuntimeHandler for GoRuntime {
    open spec fn handled(&self) -> Runtime {
        Runtime::Go
    }

    fn runtime(&self) -> (r: Runtime) {
        Runtime::Go
    }

    fn run_command(&self, command: &str) -> (r: (String, Vec<String>))
        ensures
            r.0@ == shell_invocation(command@).0,
            r.1.deep_view() == shell_invocation(command@).1,
    {
        sh_c(command)
    }
}

/// Registry of available runtime handlers, one per runtime.
pub struct RuntimeRegistry {
    handlers: Vec<Runtime>,
}

impl RuntimeRegistry {
    /// The registered runtimes.
    pub closed spec fn runtimes(&self) -> Set<Runtime> {
        self.handlers@.to_set()
    }

    /// Each runtime is registered at most once.
    pub closed spec fn wf(&self) -> bool {
        self.handlers@.no_duplicates()
    }

    pub fn new() -> (r: Self)
        ensures
            r.wf(),
            r.runtimes() == Set::<Runtime>::empty(),
    {
        let r = RuntimeRegistry { handlers: Vec::new() };
        assert(r.handlers@.to_set() =~= Set::<Runtime>::empty());
        r
    }

    /// Register a runtime handler, replacing an earlier one for the same
    /// runtime.
    pub fn register<H: RuntimeHandler>(&mut self, handler: H)
        requires
            old(self).wf(),
        ensures
            final(self).wf(),
            final(self).runtimes() == old(self).runtimes().insert(handler.handled()),
    {
        let runtime = handler.runtime();
        let mut i: usize = 0;
        while i < self.handlers.len()
            invariant
                i <= self.handlers@.len(),
                self.handlers@ == old(self).handlers@,
                self.handlers@.no_duplicates(),
                forall|k: int| 0 <= k < i ==> self.handlers@[k] != runtime,
                runtime == handler.handled(),
            decreases self.handlers@.len() - i,
        {
            if self.handlers[i] == runtime {
                assert(self.handlers@.to_set() =~= self.handlers@.to_set().insert(runtime)) by {
                    assert(self.handlers@.contains(runtime));
                }
                return;
            }
            i = i + 1;
        }
        let ghost before = self.handlers@;
        assert(!before.contains(runtime));
        self.handlers.push(runtime);
        assert(self.handlers@.to_set() =~= before.to_set().insert(runtime)) by {
            assert forall|x: Runtime| self.handlers@.contains(x) <==> before.to_set().insert(
                runtime,
            ).contains(x) by {
                if before.contains(x) {
                    let k = choose|k: int| 0 <= k < before.len() && before[k] == x;
                    assert(self.handlers@[k] == x);
                }
                if x == runtime {
                    assert(self.handlers@[before.len() as int] == x);
                }
            }
        }
    }

    /// Get a handler by runtime: the registered handler's runtime, or `None`
    /// if no handler is registered for it.
    pub fn get_handler(&self, runtime: Runtime) -> (r: Option<Runtime>)
        ensures
            self.runtimes().contains(runtime) ==> r == Some(runtime),
            !self.runtimes().contains(runtime) ==> r is None,
    {
        let mut i: usize = 0;
        while i < self.handlers.len()
            invariant
                i <= self.handlers@.len(),
                forall|k: int| 0 <= k < i ==> self.handlers@[k] != runtime,
            decreases self.handlers@.len() - i,
        {
            if self.handlers[i] == runtime {
                assert(self.handlers@.contains(runtime));
                return Some(runtime);
            }
            i = i + 1;
        }
        assert(!self.handlers@.contains(runtime));
        None
    }

    /// List runtimes that are currently registered, each once.
    pub fn registered(&self) -> (v: Vec<Runtime>)
        requires
            self.wf(),
        ensures
            v@.to_set() == self.runtimes(),
            v@.no_duplicates(),
    {
        self.handlers.clone()
    }
}

} // verus!
