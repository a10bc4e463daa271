use rover::server::metrics::{parse_df_output, parse_kb_value, parse_meminfo, ram_usage_from};
use rover::server::process::{on_exit, parse_shell_command, ExitAction};

#[test]
fn test_parse_meminfo_line() {
    assert_eq!(parse_kb_value(" 8162348 kB").unwrap(), 8162348);
    assert_eq!(parse_kb_value("8162348 kB").unwrap(), 8162348);
    assert_eq!(parse_kb_value("1024").unwrap(), 1024);
}

#[test]
fn test_parse_shell_command() {
    let (p, a) = parse_shell_command("python main.py --flag");
    assert_eq!(p, "python");
    assert_eq!(a, vec!["main.py", "--flag"]);
}

#[test]
fn test_parse_empty() {
    let (p, a) = parse_shell_command("");
    assert_eq!(p, "");
    assert!(a.is_empty());
}

#[test]
fn parse_kb_value_errors_match_std_messages() {
    assert_eq!(parse_kb_value("   ").unwrap_err(), "empty value");
    let e = parse_kb_value("12x kB").unwrap_err();
    let std_err = "12x".parse::<u64>().unwrap_err();
    assert_eq!(e, format!("parse meminfo value '12x': {std_err}"));
    let e = parse_kb_value("99999999999999999999 kB").unwrap_err();
    let std_err = "99999999999999999999".parse::<u64>().unwrap_err();
    assert_eq!(e, format!("parse meminfo value '99999999999999999999': {std_err}"));
    assert_eq!(parse_kb_value("+17").unwrap(), 17);
    assert!(parse_kb_value("+").is_err());
    assert!(parse_kb_value("-1").is_err());
}

#[test]
fn meminfo_prefers_available_and_falls_back_to_free() {
    let c = "MemTotal:       16000 kB\nMemFree:         1000 kB\nMemAvailable:    4000 kB\n";
    assert_eq!(parse_meminfo(c).unwrap(), (16000, 4000));
    let c = "MemTotal:       16000 kB\r\nMemFree:         1000 kB\r\n";
    assert_eq!(parse_meminfo(c).unwrap(), (16000, 1000));
    assert_eq!(
        parse_meminfo("MemFree: 5 kB\n").unwrap_err(),
        "MemTotal not found in /proc/meminfo"
    );
    assert_eq!(
        parse_meminfo("MemTotal: 5 kB\n").unwrap_err(),
        "MemAvailable/MemFree not found in /proc/meminfo"
    );
    assert_eq!(parse_meminfo("MemTotal: x kB\n").unwrap_err().starts_with("parse meminfo value 'x'"), true);
}

#[test]
fn ram_usage_is_used_and_total_in_bytes() {
    let c = "MemTotal: 16 kB\nMemAvailable: 4 kB\n";
    assert_eq!(ram_usage_from(c), (12 * 1024, 16 * 1024));
    let c = "MemTotal: 4 kB\nMemAvailable: 16 kB\n";
    assert_eq!(ram_usage_from(c), (0, 4 * 1024));
    assert_eq!(ram_usage_from("garbage"), (0, 0));
}

#[test]
fn df_output_second_line_fields() {
    let out = "Filesystem 1K-blocks Used Available Use% Mounted on\n/dev/sda1 1000 250 750 25% /\n";
    assert_eq!(parse_df_output(out), Some((250 * 1024, 1000 * 1024)));
    assert_eq!(parse_df_output("only one line\n"), None);
    assert_eq!(parse_df_output("h\na b c\n"), None);
    assert_eq!(parse_df_output("h\na x y z\n"), Some((0, 0)));
}

#[test]
fn restart_policy_backs_off_and_gives_up() {
    assert_eq!(on_exit(true, true, false, 0), ExitAction::Restart { delay_secs: 1, restart_count: 1 });
    assert_eq!(on_exit(true, true, false, 1), ExitAction::Restart { delay_secs: 2, restart_count: 2 });
    assert_eq!(on_exit(true, true, false, 2), ExitAction::Restart { delay_secs: 4, restart_count: 3 });
    assert_eq!(on_exit(true, true, false, 4), ExitAction::Restart { delay_secs: 16, restart_count: 5 });
    assert_eq!(on_exit(true, true, false, 5), ExitAction::GiveUp);
    assert_eq!(on_exit(true, false, true, 0), ExitAction::MarkJob { succeeded: true });
    assert_eq!(on_exit(true, true, true, 3), ExitAction::Leave);
    assert_eq!(on_exit(false, true, false, 0), ExitAction::Ignore);
}
