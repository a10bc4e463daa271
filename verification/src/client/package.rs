//! Turning a deploy order into what is sent to the server: the runtime's
//! wire code, the manifest text, and the compressed source archive.
use vstd::prelude::*;
use crate::client::model::pairs_view;
use crate::client::update::DeployOrder;
use crate::proto::runtime_code;
use crate::text::{concat, owned};
use std::io::Write;

verus! {

/// One entry of a source archive.
pub struct ArchiveEntry {
    /// Path inside the archive; a directory's ends with `/`.
    pub path: String,
    pub is_dir: bool,
    /// Unix permission bits.
    pub mode: u32,
    /// File contents; empty for a directory.
    pub data: Vec<u8>,
}

/// An archive entry as mathematical values.
pub struct EntryView {
    pub path: Seq<char>,
    pub is_dir: bool,
    pub mode: u32,
    pub data: Seq<u8>,
}

impl View for ArchiveEntry {
    type V = EntryView;

    open spec fn view(&self) -> EntryView {
        EntryView { path: self.path@, is_dir: self.is_dir, mode: self.mode, data: self.data@ }
    }
}

pub open spec fn entries_view(v: Seq<ArchiveEntry>) -> Seq<EntryView> {
    v.map_values(|e: ArchiveEntry| e@)
}

impl ArchiveEntry {
    /// A directory entry for a relative path: the path with a `/` added,
    /// mode 755, no data.
    pub fn directory(relative: &str) -> (e: Self)
        ensures
            e@ == (EntryView {
                path: relative@ + "/"@,
                is_dir: true,
                mode: 0o755,
                data: seq![],
            }),
    {
        let e = ArchiveEntry {
            path: concat(relative, "/"),
            is_dir: true,
            mode: 0o755,
            data: Vec::new(),
        };
        assert(e@.data =~= Seq::<u8>::empty());
        e
    }

    /// A file entry for a relative path: mode 644 and the file's data.
    pub fn file(relative: &str, data: Vec<u8>) -> (e: Self)
        ensures
            e@ == (EntryView { path: relative@, is_dir: false, mode: 0o644, data: data@ }),
    {
        ArchiveEntry { path: owned(relative), is_dir: false, mode: 0o644, data }
    }
}

/// What `tar::Builder` writes for these entries (GNU headers, in order): the
/// archive, or the position of the entry it failed on (the number of
/// entries when finishing failed) and the error's text.
pub uninterp spec fn tar_image(entries: Seq<EntryView>) -> Result<Seq<u8>, (nat, Seq<char>)>;

/// Builds a tar archive with `tar::Builder`: one GNU header per entry with
/// its size and mode (and the directory type for a directory), appended
/// with `append_data`, then `into_inner`. The result is named `tar_image`;
/// the position in an error is at most the number of entries.
#[verifier::external_body]
fn tar_archive(entries: &Vec<ArchiveEntry>) -> (r: Result<Vec<u8>, (usize, String)>)
    ensures
        match r {
            Ok(b) => tar_image(entries_view(entries@)) == Ok::<Seq<u8>, (nat, Seq<char>)>(b@),
            Err((i, m)) => i <= entries@.len() && tar_image(entries_view(entries@)) == Err::<
                Seq<u8>,
                (nat, Seq<char>),
            >((i as nat, m@)),
        },
{
    let mut builder = tar::Builder::new(Vec::new());
    for (i, e) in entries.iter().enumerate() {
        let mut header = tar::Header::new_gnu();
        if e.is_dir {
            header.set_entry_type(tar::EntryType::Directory);
        }
        header.set_size(e.data.len() as u64);
        header.set_mode(e.mode);
        builder.append_data(&mut header, &e.path, e.data.as_slice()).map_err(|x| (i, x.to_string()))?;
    }
    builder.into_inner().map_err(|x| (entries.len(), x.to_string()))
}

/// What `flate2`'s gzip encoder at the default level writes for these
/// bytes, or the error's text, with whether it came from `finish` rather
/// than `write_all`.
pub uninterp spec fn gzip_image(data: Seq<u8>) -> Result<Seq<u8>, (bool, Seq<char>)>;

/// Compresses bytes with `flate2::write::GzEncoder` at the default level:
/// `write_all`, then `finish`. The result is named `gzip_image`.
#[verifier::external_body]
fn gzip(data: &[u8]) -> (r: Result<Vec<u8>, (bool, String)>)
    ensures
        match r {
            Ok(b) => gzip_image(data@) == Ok::<Seq<u8>, (bool, Seq<char>)>(b@),
            Err((at_finish, m)) => gzip_image(data@) == Err::<Seq<u8>, (bool, Seq<char>)>(
                (at_finish, m@),
            ),
        },
{
    let mut encoder = flate2::write::GzEncoder::new(Vec::new(), flate2::Compression::default());
    encoder.write_all(data).map_err(|e| (false, e.to_string()))?;
    encoder.finish().map_err(|e| (true, e.to_string()))
}

/// The error text of a failed archive step.
pub open spec fn tar_error_text(entries: Seq<EntryView>, i: nat, m: Seq<char>) -> Seq<char> {
    if i < entries.len() {
        if entries[i as int].is_dir {
            "tar append dir error: "@ + m
        } else {
            "tar append file error: "@ + m
        }
    } else {
        "tar finalize error: "@ + m
    }
}

/// The compressed archive of the entries, or the error text of the step
/// that failed.
pub open spec fn package_result(entries: Seq<EntryView>) -> Result<Seq<u8>, Seq<char>> {
    match tar_image(entries) {
        Err((i, m)) => Err(tar_error_text(entries, i, m)),
        Ok(t) => match gzip_image(t) {
            Ok(g) => Ok(g),
            Err((at_finish, m)) => Err(
                if at_finish {
                    "gzip finish error: "@ + m
                } else {
                    "gzip write error: "@ + m
                },
            ),
        },
    }
}

/// Archives the entries with tar and compresses the archive with gzip.
pub fn package_entries(entries: &Vec<ArchiveEntry>) -> (r: Result<Vec<u8>, String>)
    ensures
        match r {
            Ok(b) => package_result(entries_view(entries@)) == Ok::<Seq<u8>, Seq<char>>(b@),
            Err(m) => package_result(entries_view(entries@)) == Err::<Seq<u8>, Seq<char>>(m@),
        },
{
    let tar_bytes = match tar_archive(entries) {
        Ok(b) => b,
        Err((i, m)) => {
            return Err(tar_error_message(entries, i, m.as_str()));
        },
    };
    match gzip(tar_bytes.as_slice()) {
        Ok(g) => Ok(g),
        Err((at_finish, m)) => Err(gzip_error_message(at_finish, m.as_str())),
    }
}

/// The error text when archiving failed at entry `i` (at the end when `i`
/// is the number of entries).
pub fn tar_error_message(entries: &Vec<ArchiveEntry>, i: usize, m: &str) -> (s: String)
    ensures
        s@ == tar_error_text(entries_view(entries@), i as nat, m@),
{
    if i < entries.len() {
        if entries[i].is_dir {
            concat("tar append dir error: ", m)
        } else {
            concat("tar append file error: ", m)
        }
    } else {
        concat("tar finalize error: ", m)
    }
}

/// The error text when compressing failed, in `finish` or before.
pub fn gzip_error_message(at_finish: bool, m: &str) -> (s: String)
    ensures
        s@ == (if at_finish {
            "gzip finish error: "@ + m@
        } else {
            "gzip write error: "@ + m@
        }),
{
    if at_finish {
        concat("gzip finish error: ", m)
    } else {
        concat("gzip write error: ", m)
    }
}

/// What `toml::to_string_pretty` writes for a table of tables of strings
/// (keys in `toml`'s table order), or its error's text.
pub uninterp spec fn toml_pretty(sections: Seq<(Seq<char>, Seq<(Seq<char>, Seq<char>)>)>) -> Result<
    Seq<char>,
    Seq<char>,
>;

pub open spec fn sections_view(v: Seq<(String, Vec<(String, String)>)>) -> Seq<
    (Seq<char>, Seq<(Seq<char>, Seq<char>)>),
> {
    v.map_values(|s: (String, Vec<(String, String)>)| (s.0@, pairs_view(s.1@)))
}

/// Writes a table of tables of strings with `toml::to_string_pretty`. The
/// result is named `toml_pretty`.
#[verifier::external_body]
fn toml_text(sections: &Vec<(String, Vec<(String, String)>)>) -> (r: Result<String, String>)
    ensures
        match r {
            Ok(t) => toml_pretty(sections_view(sections@)) == Ok::<Seq<char>, Seq<char>>(t@),
            Err(m) => toml_pretty(sections_view(sections@)) == Err::<Seq<char>, Seq<char>>(m@),
        },
{
    let table: toml::Table = sections.iter().map(|(name, values)| {
        let inner: toml::Table = values.iter().map(|(k, v)| (k.clone(), toml::Value::String(v.clone()))).collect();
        (name.clone(), toml::Value::Table(inner))
    }).collect();
    toml::to_string_pretty(&toml::Value::Table(table)).map_err(|e| e.to_string())
}

/// The manifest of a deploy: `[app]` with name and runtime, `[build]` and
/// `[run]` with their commands, and `[env]` when there are variables.
pub open spec fn manifest_sections(o: crate::client::update::OrderView) -> Seq<
    (Seq<char>, Seq<(Seq<char>, Seq<char>)>),
> {
    seq![
        ("app"@, seq![("name"@, o.name), ("runtime"@, o.runtime)]),
        ("build"@, seq![("command"@, o.build_command)]),
        ("run"@, seq![("command"@, o.run_command)]),
    ] + if o.env_vars.len() > 0 {
        seq![("env"@, o.env_vars)]
    } else {
        seq![]
    }
}

fn pair(k: &str, v: &String) -> (p: (String, String))
    ensures
        p.0@ == k@,
        p.1@ == v@,
{
    (owned(k), v.clone())
}

fn one_pair(k: &str, v: &String) -> (r: Vec<(String, String)>)
    ensures
        pairs_view(r@) == seq![(k@, v@)],
{
    let mut r: Vec<(String, String)> = Vec::new();
    r.push(pair(k, v));
    assert(pairs_view(r@) =~= seq![(k@, v@)]);
    r
}

/// What is sent with a deploy besides its name and source.
pub struct PreparedDeploy {
    pub runtime_code: i32,
    pub manifest_toml: String,
}

/// The runtime's wire code and the manifest text of a deploy order: an
/// unknown runtime is refused, and a manifest that cannot be written is
/// reported.
pub open spec fn prepare_result(o: crate::client::update::OrderView) -> Result<(i32, Seq<char>), Seq<char>> {
    if runtime_code(o.runtime) == 0 {
        Err("Unknown runtime: "@ + o.runtime)
    } else {
        match toml_pretty(manifest_sections(o)) {
            Ok(t) => Ok((runtime_code(o.runtime), t)),
            Err(m) => Err("TOML serialization error: "@ + m),
        }
    }
}

/// Checks the runtime of a deploy order and writes its manifest.
pub fn prepare_deploy(order: &DeployOrder) -> (r: Result<PreparedDeploy, String>)
    ensures
        match r {
            Ok(p) => prepare_result(order@) == Ok::<(i32, Seq<char>), Seq<char>>(
                (p.runtime_code, p.manifest_toml@),
            ),
            Err(m) => prepare_result(order@) == Err::<(i32, Seq<char>), Seq<char>>(m@),
        },
{
    let code = crate::proto::runtime_to_proto(order.runtime.as_str());
    if code == 0 {
        return Err(concat("Unknown runtime: ", order.runtime.as_str()));
    }
    let mut app: Vec<(String, String)> = Vec::new();
    app.push(pair("name", &order.name));
    app.push(pair("runtime", &order.runtime));
    assert(pairs_view(app@) =~= seq![("name"@, order.name@), ("runtime"@, order.runtime@)]);
    let mut sections: Vec<(String, Vec<(String, String)>)> = Vec::new();
    sections.push((owned("app"), app));
    sections.push((owned("build"), one_pair("command", &order.build_command)));
    sections.push((owned("run"), one_pair("command", &order.run_command)));
    let ghost base = seq![
        ("app"@, seq![("name"@, order.name@), ("runtime"@, order.runtime@)]),
        ("build"@, seq![("command"@, order.build_command@)]),
        ("run"@, seq![("command"@, order.run_command@)]),
    ];
    assert(sections_view(sections@) =~= base);
    if order.env_vars.len() > 0 {
        let env = crate::text::clone_pairs(&order.env_vars);
        let ghost before = sections@;
        sections.push((owned("env"), env));
        assert(sections_view(sections@) =~= sections_view(before).push(
            ("env"@, pairs_view(order.env_vars@)),
        ));
    }
    assert(sections_view(sections@) =~= manifest_sections(order@));
    manifest_outcome(code, toml_text(&sections))
}

/// The prepared deploy for a known runtime code and the outcome of writing
/// its manifest.
pub fn manifest_outcome(code: i32, written: Result<String, String>) -> (r: Result<
    PreparedDeploy,
    String,
>)
    ensures
        match written {
            Ok(t) => r matches Ok(p) && p.runtime_code == code && p.manifest_toml@ == t@,
            Err(m) => r matches Err(e) && e@ == "TOML serialization error: "@ + m@,
        },
{
    match written {
        Ok(t) => Ok(PreparedDeploy { runtime_code: code, manifest_toml: t }),
        Err(m) => Err(concat("TOML serialization error: ", m.as_str())),
    }
}

} // verus!
