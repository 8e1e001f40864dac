use hazelnut_service::text::{text_contains, trim_text};
use hazelnut_service::uptime::{format_uptime, read_process_uptime};

fn stat_line(start_ticks: &str) -> String {
    let mut fields: Vec<String> = vec![
        "1234".to_string(),
        "(hazelnutd)".to_string(),
        "S".to_string(),
    ];
    for i in 3..21 {
        fields.push(i.to_string());
    }
    fields.push(start_ticks.to_string());
    fields.push("999".to_string());
    fields.join(" ")
}

#[test]
fn uptime_with_hours() {
    assert_eq!(format_uptime(3661), "1h 1m 1s");
}

#[test]
fn uptime_with_minutes() {
    assert_eq!(format_uptime(65), "1m 5s");
}

#[test]
fn uptime_with_seconds_only() {
    assert_eq!(format_uptime(5), "5s");
}

#[test]
fn uptime_edges() {
    assert_eq!(format_uptime(0), "0s");
    assert_eq!(format_uptime(59), "59s");
    assert_eq!(format_uptime(60), "1m 0s");
    assert_eq!(format_uptime(3600), "1h 0m 0s");
    assert_eq!(format_uptime(3599), "59m 59s");
    assert_eq!(format_uptime(360000), "100h 0m 0s");
    assert_eq!(format_uptime(u64::MAX), "5124095576030431h 0m 15s");
}

#[test]
fn process_uptime_subtracts_start() {
    let stat = stat_line("50000");
    assert_eq!(read_process_uptime(&stat, 4161, 100), Some("1h 1m 1s".to_string()));
    assert_eq!(read_process_uptime(&stat, 500, 100), Some("0s".to_string()));
    assert_eq!(read_process_uptime(&stat, 505, 100), Some("5s".to_string()));
}

#[test]
fn process_uptime_rounds_start_down() {
    let stat = stat_line("199");
    assert_eq!(read_process_uptime(&stat, 10, 100), Some("9s".to_string()));
}

#[test]
fn process_uptime_short_line_is_unavailable() {
    assert_eq!(read_process_uptime("1 (x) S 4 5", 100, 100), None);
    assert_eq!(read_process_uptime("", 100, 100), None);
    let mut fields: Vec<String> = Vec::new();
    for i in 0..21 {
        fields.push(i.to_string());
    }
    assert_eq!(read_process_uptime(&fields.join(" "), 100, 100), None);
}

#[test]
fn process_uptime_bad_field_is_unavailable() {
    assert_eq!(read_process_uptime(&stat_line("abc"), 100, 100), None);
    assert_eq!(read_process_uptime(&stat_line("-5"), 100, 100), None);
    assert_eq!(read_process_uptime(&stat_line("18446744073709551616"), 100, 100), None);
}

#[test]
fn process_uptime_never_lies() {
    assert_eq!(read_process_uptime(&stat_line("50000"), 499, 100), None);
    assert_eq!(read_process_uptime(&stat_line("50000"), 1000, 0), None);
}

#[test]
fn process_uptime_takes_any_white_space() {
    let stat = stat_line("300").replace(' ', " \t ");
    let padded = format!("  {}\n", stat);
    assert_eq!(read_process_uptime(&padded, 10, 100), Some("7s".to_string()));
}

#[test]
fn trim_removes_white_space_at_both_ends() {
    assert_eq!(trim_text("  /usr/bin/hazelnutd\n"), "/usr/bin/hazelnutd");
    assert_eq!(trim_text("a b"), "a b");
    assert_eq!(trim_text(" \t\n"), "");
    assert_eq!(trim_text(""), "");
    assert_eq!(trim_text("\u{3000}x\u{a0}"), "x");
}

#[test]
fn contains_finds_text_anywhere() {
    assert!(text_contains("/opt/homebrew/Cellar/x", "/Cellar/"));
    assert!(text_contains("abc", ""));
    assert!(text_contains("abc", "c"));
    assert!(text_contains("abc", "abc"));
    assert!(!text_contains("abc", "abcd"));
    assert!(!text_contains("/Cellar", "/Cellar/"));
    assert!(text_contains("", ""));
}
