//! The library's error type.
use vstd::prelude::*;

verus! {

#[verifier::external_type_specification]
#[verifier::external_body]
pub struct ExIoError(std::io::Error);

/// Errors of the Rover core operations.
#[derive(Debug)]
pub enum RoverError {
    Io(std::io::Error),
    ManifestParse(String),
    ManifestValidation(String),
    AppNotFound(String),
    RuntimeNotAvailable(String),
    BuildFailed(String),
    Process(String),
    StateStore(String),
    Auth(String),
    Transport(String),
    NotImplemented(String),
    Other(String),
}

/// The display text of an I/O error (`ToString` through its `Display`).
/// The text comes from the operating system's description of the error,
/// so the contract states nothing of it.
#[verifier::external_body]
fn io_error_text(e: &std::io::Error) -> (s: String) {
    e.to_string()
}

impl RoverError {
    /// The error's display text (what `Display` gives in other code).
    pub fn message(&self) -> (s: String)
        ensures
            !(self is Io) ==> s@ == rover_error_text(self),
            self is Io ==> s@.len() >= 10 && s@.subrange(0, 10) == "IO error: "@,
    {
        let mut out: Vec<char> = Vec::new();
        match self {
            RoverError::Io(e) => {
                let text = io_error_text(e);
                prefixed(&mut out, "IO error: ", &text);
                proof {
                    reveal_strlit("IO error: ");
                    assert(out@.subrange(0, 10) =~= "IO error: "@);
                }
            },
            RoverError::ManifestParse(m) => {
                prefixed(&mut out, "Manifest parse error: ", m);
            },
            RoverError::ManifestValidation(m) => {
                prefixed(&mut out, "Manifest validation error: ", m);
            },
            RoverError::AppNotFound(m) => {
                prefixed(&mut out, "App not found: ", m);
            },
            RoverError::RuntimeNotAvailable(m) => {
                prefixed(&mut out, "Runtime not available: ", m);
            },
            RoverError::BuildFailed(m) => {
                prefixed(&mut out, "Build failed: ", m);
            },
            RoverError::Process(m) => {
                prefixed(&mut out, "Process error: ", m);
            },
            RoverError::StateStore(m) => {
                prefixed(&mut out, "State store error: ", m);
            },
            RoverError::Auth(m) => {
                prefixed(&mut out, "Auth error: ", m);
            },
            RoverError::Transport(m) => {
                prefixed(&mut out, "Transport error: ", m);
            },
            RoverError::NotImplemented(m) => {
                prefixed(&mut out, "Not implemented: ", m);
            },
            RoverError::Other(m) => {
                prefixed(&mut out, "", m);
            },
        }
        crate::text::string_from_chars(out.as_slice())
    }
}

fn prefixed(out: &mut Vec<char>, p: &str, m: &String)
    ensures
        final(out)@ == old(out)@ + p@ + m@,
{
    crate::client::format::push_str(out, p);
    let c = crate::text::chars_of(m.as_str());
    crate::client::format::push_chars(out, c.as_slice());
}

/// The display text of an error; for `Io`, only its fixed beginning (the
/// operating system's description follows it).
pub open spec fn rover_error_text(e: &RoverError) -> Seq<char> {
    match e {
        RoverError::Io(_) => "IO error: "@,
        RoverError::ManifestParse(m) => "Manifest parse error: "@ + m@,
        RoverError::ManifestValidation(m) => "Manifest validation error: "@ + m@,
        RoverError::AppNotFound(m) => "App not found: "@ + m@,
        RoverError::RuntimeNotAvailable(m) => "Runtime not available: "@ + m@,
        RoverError::BuildFailed(m) => "Build failed: "@ + m@,
        RoverError::Process(m) => "Process error: "@ + m@,
        RoverError::StateStore(m) => "State store error: "@ + m@,
        RoverError::Auth(m) => "Auth error: "@ + m@,
        RoverError::Transport(m) => "Transport error: "@ + m@,
        RoverError::NotImplemented(m) => "Not implemented: "@ + m@,
        RoverError::Other(m) => ""@ + m@,
    }
}

} // verus!
