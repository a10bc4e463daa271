use rover::client::ansi::parse_ansi_line;
use rover::client::format::{format_bytes, format_timestamp, format_uptime, truncate_path};

#[test]
fn uptime_units() {
    assert_eq!(format_uptime(0), "0s");
    assert_eq!(format_uptime(59), "59s");
    assert_eq!(format_uptime(61), "1m 1s");
    assert_eq!(format_uptime(3600), "1h 0m");
    assert_eq!(format_uptime(90061), "1d 1h 1m");
}

fn float_format(bytes: u64) -> String {
    if bytes >= 1_073_741_824 {
        format!("{:.1} GB", bytes as f64 / 1_073_741_824.0)
    } else if bytes >= 1_048_576 {
        format!("{:.1} MB", bytes as f64 / 1_048_576.0)
    } else if bytes >= 1024 {
        format!("{:.1} KB", bytes as f64 / 1024.0)
    } else {
        format!("{bytes} B")
    }
}

#[test]
fn bytes_match_float_formatting() {
    let samples: Vec<u64> = vec![
        0, 1, 1023, 1024, 1075, 1126, 1280, 1536, 1_048_575, 1_048_576, 1_572_864,
        1_073_741_823, 1_073_741_824, 1_181_116_006, 3_000_000_000, 123_456_789_012,
        (1u64 << 53) - 1, 1u64 << 53, (1u64 << 53) + 1, (1u64 << 53) + 3, u64::MAX,
        u64::MAX - 1024, 9_007_199_254_740_993, 18_000_000_000_000_000_000,
    ];
    for b in samples {
        assert_eq!(format_bytes(b), float_format(b), "bytes = {b}");
    }
    let mut x: u64 = 7;
    for _ in 0..2000 {
        x = x.wrapping_mul(6364136223846793005).wrapping_add(1442695040888963407);
        let b = x >> (x % 64);
        assert_eq!(format_bytes(b), float_format(b), "bytes = {b}");
    }
    assert_eq!(format_bytes(1536), "1.5 KB");
    assert_eq!(format_bytes(512), "512 B");
}

#[test]
fn timestamp_is_time_of_day() {
    assert_eq!(format_timestamp(0), "00:00:00");
    assert_eq!(format_timestamp(3_723_000), "01:02:03");
    assert_eq!(format_timestamp(86_399_999), "23:59:59");
    assert_eq!(format_timestamp(-1000), "23:59:59");
    assert_eq!(format_timestamp(-1), "23:59:59");
    for ms in [-1i64, -1000, -3_723_000, i64::MIN, i64::MAX, 90_000_000, -86_400_000] {
        let t = ms.div_euclid(1000).rem_euclid(86400);
        let h = t / 3600;
        let m = (t % 3600) / 60;
        let s = t % 60;
        assert_eq!(format_timestamp(ms), format!("{h:02}:{m:02}:{s:02}"), "ms = {ms}");
    }
}

#[test]
fn truncation_keeps_both_ends() {
    assert_eq!(truncate_path("short", 10), "short");
    assert_eq!(truncate_path("/home/user/projects/app", 11), "/hom.../app");
    assert_eq!(truncate_path("abcdef", 2), "..");
    assert_eq!(truncate_path("abcdef", 0), "");
    assert_eq!(truncate_path("abcdef", 3), "...");
    for max in 0..8 {
        assert!(truncate_path("abcdefgh-long", max).chars().count() <= max);
    }
}

#[test]
fn ansi_colors_and_reset() {
    let spans = parse_ansi_line("\x1b[1;31mred\x1b[0m plain");
    assert_eq!(spans.len(), 2);
    assert_eq!(spans[0].text, "red");
    assert_eq!(spans[0].fg, Some(1));
    assert!(spans[0].bold);
    assert_eq!(spans[1].text, " plain");
    assert_eq!(spans[1].fg, None);
    assert!(!spans[1].bold);
    let spans = parse_ansi_line("a\x1b[92;104mb");
    assert_eq!(spans[0].text, "a");
    assert_eq!(spans[1].fg, Some(10));
    assert_eq!(spans[1].bg, Some(12));
    assert!(parse_ansi_line("").is_empty());
    let spans = parse_ansi_line("x\x1b[31");
    assert_eq!(spans.len(), 1);
    assert_eq!(spans[0].text, "x");
    let spans = parse_ansi_line("é");
    assert_eq!(spans.len(), 1);
    assert_eq!(spans[0].text, "é");
    assert_eq!(spans[0].fg, None);
    assert_eq!(spans[0].bg, None);
    assert!(!spans[0].bold);
    let spans = parse_ansi_line("\x1b[32m✓ déjà\x1b[0m");
    assert_eq!(spans.len(), 1);
    assert_eq!(spans[0].text, "✓ déjà");
    assert_eq!(spans[0].fg, Some(2));
}

#[test]
fn ansi_spans_rebuild_the_visible_text() {
    let line = "\x1b[1;31mré\x1b[0m \x1b[97;104mok\x1b[39m!\x1b[";
    let spans = parse_ansi_line(line);
    let joined: String = spans.iter().map(|s| s.text.as_str()).collect();
    assert_eq!(joined, "ré ok!");
    for s in &spans {
        assert!(!s.text.is_empty());
        assert!(s.fg.map_or(true, |v| v <= 15));
        assert!(s.bg.map_or(true, |v| v <= 15));
    }
}
