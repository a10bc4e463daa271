//! The deployment manifest (`rover.toml`): its sections and validation.
use vstd::prelude::*;
use crate::error::RoverError;
use crate::status::{parse_runtime, Runtime};
use crate::text::{
    all_ws, ascii_lower, chars_of, contains_whitespace, has_ws, is_ascii_seq, is_blank, lowercase,
    owned,
};

verus! {

/// The deployment manifest that defines how to build and run an app.
#[derive(Debug, Clone)]
pub struct AppManifest {
    pub app: AppSection,
    pub build: BuildSection,
    pub run: RunSection,
    /// Environment variables for the app, in manifest order.
    pub env: Vec<(String, String)>,
}

#[derive(Debug, Clone)]
pub struct AppSection {
    /// Unique name for the app.
    pub name: String,
    /// The runtime language.
    pub runtime: String,
    /// Optional informational version.
    pub version: Option<String>,
}

#[derive(Debug, Clone)]
pub struct BuildSection {
    /// Shell command to build/install dependencies.
    pub command: String,
}

#[derive(Debug, Clone)]
pub struct RunSection {
    /// Shell command to start the app.
    pub command: String,
}

/// The outcome of validating a manifest with these field values: the first
/// rule broken gives its message.
pub open spec fn manifest_check(
    name: Seq<char>,
    runtime: Seq<char>,
    build: Seq<char>,
    run: Seq<char>,
) -> Result<(), Seq<char>> {
    if all_ws(name) {
        Err("app.name is required"@)
    } else if has_ws(name) {
        Err("app.name must not contain whitespace"@)
    } else if parse_runtime(runtime) is Err {
        Err(parse_runtime(runtime)->Err_0)
    } else if all_ws(build) {
        Err("build.command is required"@)
    } else if all_ws(run) {
        Err("run.command is required"@)
    } else {
        Ok(())
    }
}

impl AppManifest {
    /// The validation outcome of this manifest.
    pub open spec fn check(&self) -> Result<(), Seq<char>> {
        manifest_check(self.app.name@, self.app.runtime@, self.build.command@, self.run.command@)
    }

    /// Validate the manifest fields: a non-blank name without white space,
    /// a known runtime, and non-blank build and run commands.
    pub fn validate(&self) -> (r: Result<(), RoverError>)
        ensures
            self.check() is Ok ==> r is Ok,
            self.check() is Err ==> (r matches Err(RoverError::ManifestValidation(m)) && m@
                == self.check()->Err_0),
            is_ascii_seq(self.app.runtime@) ==> lowercase(self.app.runtime@) == ascii_lower(
                self.app.runtime@,
            ),
    {
        let parsed = Runtime::parse(self.app.runtime.as_str());
        let name = chars_of(self.app.name.as_str());
        if is_blank(name.as_slice()) {
            return Err(RoverError::ManifestValidation(owned("app.name is required")));
        }
        if contains_whitespace(name.as_slice()) {
            return Err(RoverError::ManifestValidation(owned("app.name must not contain whitespace")));
        }
        match parsed {
            Ok(_) => {},
            Err(e) => {
                return Err(RoverError::ManifestValidation(e));
            },
        }
        let build = chars_of(self.build.command.as_str());
        if is_blank(build.as_slice()) {
            return Err(RoverError::ManifestValidation(owned("build.command is required")));
        }
        let run = chars_of(self.run.command.as_str());
        if is_blank(run.as_slice()) {
            return Err(RoverError::ManifestValidation(owned("run.command is required")));
        }
        Ok(())
    }

    /// The parsed Runtime enum value.
    pub fn runtime(&self) -> (r: Result<Runtime, RoverError>)
        ensures
            parse_runtime(self.app.runtime@) matches Ok(rt) ==> (r matches Ok(x) && x == rt),
            parse_runtime(self.app.runtime@) matches Err(m) ==> (r matches Err(
                RoverError::ManifestValidation(e),
            ) && e@ == m),
            is_ascii_seq(self.app.runtime@) ==> lowercase(self.app.runtime@) == ascii_lower(
                self.app.runtime@,
            ),
    {
        match Runtime::parse(self.app.runtime.as_str()) {
            Ok(rt) => Ok(rt),
            Err(e) => Err(RoverError::ManifestValidation(e)),
        }
    }
}

} // verus!
