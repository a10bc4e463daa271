//! The rows the server's state store holds.
use vstd::prelude::*;

verus! {

/// A row from the `apps` table.
#[derive(Debug, Clone)]
pub struct AppRow {
    pub app_id: String,
    pub name: String,
    pub runtime: String,
    pub app_type: String,
    pub status: String,
    pub build_command: String,
    pub run_command: String,
    pub source_dir: String,
    pub manifest_toml: String,
    pub created_at: i64,
    pub updated_at: i64,
    pub restart_count: i64,
    pub pid: Option<i64>,
}

/// A row from the `env_vars` table.
#[derive(Debug, Clone)]
pub struct EnvVarRow {
    pub key: String,
    pub value: String,
    pub is_secret: bool,
}

/// A row from the `logs` table.
#[derive(Debug, Clone)]
pub struct LogRow {
    pub timestamp: i64,
    pub line: String,
    pub is_stderr: bool,
}

} // verus!
