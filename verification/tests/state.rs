use nemoclaw_engine::error::EngineError;
use nemoclaw_engine::protocol::{generate_run_id, progress_line, run_id_from, run_id_line};
use nemoclaw_engine::clock::DateTimeFields;
use nemoclaw_engine::state::{newest_first, run_dir, run_dir_in, state_dir, state_dir_in};

#[test]
fn run_dir_path() {
    let dir = run_dir("nc-test-123");
    assert!(dir.contains("nc-test-123"));
}

#[test]
fn run_id_format() {
    let id = generate_run_id().unwrap();
    assert!(id.starts_with("nc-"));
    assert_eq!(id.len(), 27); // nc-YYYYMMDD-HHMMSS-8hex
}

#[test]
fn run_id_parts() {
    let id = generate_run_id().unwrap();
    let bytes = id.as_bytes();
    assert_eq!(bytes[11], b'-');
    assert_eq!(bytes[18], b'-');
    assert!(id[3..11].chars().all(|c| c.is_ascii_digit()));
    assert!(id[12..18].chars().all(|c| c.is_ascii_digit()));
    assert!(id[19..].chars().all(|c| c.is_ascii_digit() || ('a'..='f').contains(&c)));
}

#[test]
fn run_ids_differ() {
    assert_ne!(generate_run_id().unwrap(), generate_run_id().unwrap());
}

fn fields(year: i32, month: u32, day: u32, hour: u32, minute: u32, second: u32) -> DateTimeFields {
    DateTimeFields { year, month, day, hour, minute, second }
}

#[test]
fn run_id_from_fields() {
    let f = fields(2026, 3, 7, 9, 5, 1);
    assert_eq!(
        run_id_from(&f, "0a1b2c3d-0000-4000-8000-000000000000"),
        "nc-20260307-090501-0a1b2c3d"
    );
}

#[test]
fn run_id_years_outside_four_digits() {
    assert_eq!(run_id_from(&fields(12345, 12, 31, 23, 59, 59), "ffffffff"), "nc-+123451231-235959-ffffffff");
    assert_eq!(run_id_from(&fields(-5, 1, 1, 0, 0, 0), "00000000"), "nc--00050101-000000-00000000");
    assert_eq!(run_id_from(&fields(7, 1, 1, 0, 0, 0), "00000000"), "nc-00070101-000000-00000000");
}

#[test]
fn protocol_lines() {
    assert_eq!(progress_line(20, "Creating OpenClaw sandbox"), "PROGRESS:20:Creating OpenClaw sandbox");
    assert_eq!(progress_line(0, ""), "PROGRESS:0:");
    assert_eq!(progress_line(255, "x"), "PROGRESS:255:x");
    assert_eq!(run_id_line("nc-1"), "RUN_ID:nc-1");
}

#[test]
fn state_dir_layout() {
    assert_eq!(state_dir_in(Some("/home/alice")), "/home/alice/.nemoclaw/state/runs");
    assert_eq!(state_dir_in(Some("/home/alice/")), "/home/alice/.nemoclaw/state/runs");
    assert_eq!(state_dir_in(None), "./.nemoclaw/state/runs");
    assert!(state_dir().ends_with("/.nemoclaw/state/runs"));
}

#[test]
fn run_dir_layout() {
    assert_eq!(run_dir_in(Some("/root"), "nc-1"), "/root/.nemoclaw/state/runs/nc-1");
    assert_eq!(run_dir_in(Some("/root"), "/abs"), "/abs");
    assert_eq!(run_dir_in(Some("/root"), ""), "/root/.nemoclaw/state/runs/");
}

#[test]
fn newest_run_comes_first() {
    let names = vec![
        "nc-20260101-000000-aaaaaaaa".to_string(),
        "nc-20260301-000000-bbbbbbbb".to_string(),
        "nc-20260201-000000-cccccccc".to_string(),
    ];
    assert_eq!(
        newest_first(names),
        vec![
            "nc-20260301-000000-bbbbbbbb".to_string(),
            "nc-20260201-000000-cccccccc".to_string(),
            "nc-20260101-000000-aaaaaaaa".to_string(),
        ]
    );
}

#[test]
fn newest_first_orders_as_strings_do() {
    let names: Vec<String> = ["b", "ab", "a", "", "b", "Z", "é"].iter().map(|s| s.to_string()).collect();
    let mut expected = names.clone();
    expected.sort();
    expected.reverse();
    assert_eq!(newest_first(names), expected);
    assert!(newest_first(Vec::new()).is_empty());
}

#[test]
fn run_ids_order_by_creation_second() {
    let earlier = run_id_from(&fields(2026, 12, 31, 23, 59, 59), "ffffffff");
    let later = run_id_from(&fields(2027, 1, 1, 0, 0, 0), "00000000");
    assert!(earlier < later);
    let a = run_id_from(&fields(2026, 3, 7, 9, 5, 1), "zzzzzzzz");
    let b = run_id_from(&fields(2026, 3, 7, 9, 5, 2), "00000000");
    assert!(a < b);
    assert_eq!(newest_first(vec![a.clone(), b.clone(), earlier.clone(), later.clone()]), vec![later, earlier, b, a]);
}

#[test]
fn clock_fields_match_timestamp() {
    let now = nemoclaw_engine::clock::utc_now().unwrap();
    let of_day = now.timestamp.secs.rem_euclid(86_400) as u32;
    assert!(now.timestamp.secs > 1_700_000_000);
    assert!(now.timestamp.nanos < 1_000_000_000);
    assert_eq!(now.fields.hour, of_day / 3600);
    assert_eq!(now.fields.minute, (of_day / 60) % 60);
    assert_eq!(now.fields.second, of_day % 60);
    assert!((1..=12).contains(&now.fields.month));
    assert!(now.fields.year >= 2023);
}

#[test]
fn clock_and_random_error_messages() {
    assert_eq!(EngineError::ClockUnavailable.message(), "system time before Unix epoch or out of range");
    assert_eq!(EngineError::RandomUnavailable.message(), "could not retrieve random bytes for uuid");
}
