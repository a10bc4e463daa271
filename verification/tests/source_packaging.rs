use rover::client::package::{
    gzip_error_message, manifest_outcome, package_entries, prepare_deploy, tar_error_message,
    ArchiveEntry,
};
use rover::client::source::{
    append_shell_output, log_line, parse_env_file, parse_gitignore, parse_gitignore_plain,
    should_skip, GitignorePattern, GitignoreRules,
};
use rover::client::update::DeployOrder;
use rover::proto::{LogEntry, Timestamp};
use std::io::Read;

#[test]
fn empty_rules_ignore_nothing() {
    let rules = GitignoreRules::empty();
    assert!(!rules.matches("target", true));
    assert!(rules.patterns.is_empty());
}

#[test]
fn gitignore_patterns_are_parsed_by_kind() {
    let rules = parse_gitignore("# comment\n\n*.log\nbuild/\n/dist\n!keep.log\r\nnotes.txt\n");
    assert_eq!(rules.patterns.len(), 5);
    assert!(matches!(&rules.patterns[0], GitignorePattern::Suffix(s, false) if s == ".log"));
    assert!(matches!(&rules.patterns[1], GitignorePattern::Prefix(s, false) if s == "build/"));
    assert!(matches!(&rules.patterns[2], GitignorePattern::Exact(s, false) if s == "dist"));
    assert!(matches!(&rules.patterns[3], GitignorePattern::Exact(s, true) if s == "keep.log"));
    assert!(rules.matches("debug.log", false));
    assert!(!rules.matches("keep.log", false));
    assert!(rules.matches("build", true));
    assert!(rules.matches("build-cache", true) == false);
    assert!(!rules.matches("build", false));
    assert!(rules.matches("dist", false));
    assert!(rules.matches("notes.txt", false));
    assert!(!rules.matches("main.py", false));
}

#[test]
fn later_patterns_decide() {
    let rules = parse_gitignore("!a.txt\na.txt\n");
    assert!(rules.matches("a.txt", false));
    let rules = parse_gitignore("a.txt\n! a.txt\n");
    assert!(!rules.matches("a.txt", false));
}

#[test]
fn plain_reading_skips_negations() {
    let rules = parse_gitignore_plain("*.tmp\n!keep.tmp\n/abs\n");
    assert_eq!(rules.patterns.len(), 2);
    assert!(rules.matches("keep.tmp", false));
    assert!(matches!(&rules.patterns[1], GitignorePattern::Exact(s, false) if s == "/abs"));
}

#[test]
fn skipped_entries() {
    let local = parse_gitignore("secret.txt\n");
    let parent = parse_gitignore("*.bak\n");
    assert!(should_skip("node_modules", true, &local, &parent, false));
    assert!(should_skip(".cache", true, &local, &parent, false));
    assert!(!should_skip(".cache", false, &local, &parent, false));
    assert!(should_skip("app.sqlite3", false, &local, &parent, false));
    assert!(!should_skip("app.sqlite3", false, &local, &parent, true));
    assert!(should_skip(".env", false, &local, &parent, false));
    assert!(should_skip("secret.txt", false, &local, &parent, false));
    assert!(should_skip("old.bak", false, &local, &parent, true));
    assert!(!should_skip("main.py", false, &local, &parent, false));
}

#[test]
fn env_files_give_trimmed_pairs() {
    let vars = parse_env_file("# db\nDATABASE_URL = sqlite:///x.db \n\nnoequals\nTOKEN=a=b\n  PORT=8080\r\n");
    assert_eq!(
        vars,
        vec![
            ("DATABASE_URL".to_string(), "sqlite:///x.db".to_string()),
            ("TOKEN".to_string(), "a=b".to_string()),
            ("PORT".to_string(), "8080".to_string()),
        ]
    );
    assert!(parse_env_file("").is_empty());
}

#[test]
fn shell_output_keeps_the_last_lines() {
    let mut buf: Vec<String> = vec!["old".into()];
    append_shell_output(&mut buf, "a\nb\r\n");
    assert_eq!(buf, vec!["old", "a", "b"]);
    let big: String = (0..600).map(|i| format!("line {i}\n")).collect();
    append_shell_output(&mut buf, &big);
    assert_eq!(buf.len(), 500);
    assert_eq!(buf[0], "line 100");
    assert_eq!(buf[499], "line 599");
}

#[test]
fn log_lines_show_time_of_day() {
    let e = LogEntry { timestamp: Some(Timestamp { millis: 3_723_000 }), line: "hi".into(), is_stderr: false };
    assert_eq!(log_line(&e), "01:02:03 hi");
    let e = LogEntry { timestamp: None, line: "x".into(), is_stderr: true };
    assert_eq!(log_line(&e), "--:--:-- x");
}

#[test]
fn archive_entries_round_trip() {
    let entries = vec![
        ArchiveEntry::directory("src"),
        ArchiveEntry::file("src/main.py", b"print('hi')".to_vec()),
    ];
    assert_eq!(entries[0].path, "src/");
    assert_eq!(entries[0].mode, 0o755);
    assert_eq!(entries[1].mode, 0o644);
    let gz = package_entries(&entries).unwrap();
    let mut tar_bytes = Vec::new();
    flate2::read::GzDecoder::new(gz.as_slice()).read_to_end(&mut tar_bytes).unwrap();
    let mut archive = tar::Archive::new(tar_bytes.as_slice());
    let mut seen = Vec::new();
    for entry in archive.entries().unwrap() {
        let mut entry = entry.unwrap();
        let path = entry.path().unwrap().to_string_lossy().to_string();
        let mut data = String::new();
        entry.read_to_string(&mut data).unwrap();
        seen.push((path, entry.header().mode().unwrap(), data));
    }
    assert_eq!(seen[0].0, "src/");
    assert_eq!(seen[0].1, 0o755);
    assert_eq!(seen[1], ("src/main.py".to_string(), 0o644, "print('hi')".to_string()));
}

#[test]
fn archive_error_texts() {
    let entries = vec![ArchiveEntry::directory("d"), ArchiveEntry::file("f", Vec::new())];
    assert_eq!(tar_error_message(&entries, 0, "x"), "tar append dir error: x");
    assert_eq!(tar_error_message(&entries, 1, "x"), "tar append file error: x");
    assert_eq!(tar_error_message(&entries, 2, "x"), "tar finalize error: x");
    assert_eq!(gzip_error_message(true, "y"), "gzip finish error: y");
    assert_eq!(gzip_error_message(false, "y"), "gzip write error: y");
    let bad = vec![ArchiveEntry::file("../escape", Vec::new())];
    let err = package_entries(&bad).unwrap_err();
    assert!(err.starts_with("tar append file error: "));
}

fn order(runtime: &str, env: Vec<(String, String)>) -> DeployOrder {
    DeployOrder {
        deploy_id: 1,
        server_index: 0,
        name: "web".into(),
        runtime: runtime.into(),
        build_command: "pip install -r requirements.txt".into(),
        run_command: "python main.py".into(),
        source_path: "/src".into(),
        env_vars: env,
        github_url: None,
        github_token: None,
    }
}

#[test]
fn prepared_deploy_has_code_and_manifest() {
    let p = prepare_deploy(&order("python", vec![("PORT".into(), "8080".into())])).unwrap();
    assert_eq!(p.runtime_code, 1);
    let t: toml::Table = toml::from_str(&p.manifest_toml).unwrap();
    assert_eq!(t["app"]["name"].as_str(), Some("web"));
    assert_eq!(t["app"]["runtime"].as_str(), Some("python"));
    assert_eq!(t["build"]["command"].as_str(), Some("pip install -r requirements.txt"));
    assert_eq!(t["run"]["command"].as_str(), Some("python main.py"));
    assert_eq!(t["env"]["PORT"].as_str(), Some("8080"));
    let p = prepare_deploy(&order("rust", Vec::new())).unwrap();
    assert_eq!(p.runtime_code, 4);
    let t: toml::Table = toml::from_str(&p.manifest_toml).unwrap();
    assert!(t.get("env").is_none());
}

#[test]
fn unknown_runtime_is_refused() {
    let e = prepare_deploy(&order("cobol", Vec::new())).err().unwrap();
    assert_eq!(e, "Unknown runtime: cobol");
    let e = manifest_outcome(2, Err("bad".into())).err().unwrap();
    assert_eq!(e, "TOML serialization error: bad");
    let ok = manifest_outcome(3, Ok("x".into())).ok().unwrap();
    assert_eq!(ok.runtime_code, 3);
    assert_eq!(ok.manifest_toml, "x");
}

#[test]
fn subfolders_inherit_gitignore_rules() {
    let root = parse_gitignore("*.log\n");
    let sub = parse_gitignore("cache/\n");
    let rules = root.inherited_by(&sub);
    assert_eq!(rules.patterns.len(), 2);
    assert!(rules.matches("debug.log", false));
    assert!(rules.matches("cache", true));
    assert!(!rules.matches("main.py", false));
    let empty = GitignoreRules::empty();
    assert!(should_skip("debug.log", false, &empty, &rules, false));
}
