use quickpane::store::entry_expired;
use quickpane::store::interpret_recovery_read;
use quickpane::store::recovery_read_path;
use quickpane::store::save_recovery_plan;
use quickpane::store::select_expired;
use quickpane::store::ReadOutcome;
use quickpane::store::RecoveryFileStat;
use quickpane::store::MAX_RECOVERY_DATA_BYTES;
use quickpane::store::SWEEP_MAX_AGE_SECONDS;
use quickpane::errors::RecoveryError;
use quickpane::store::plan_recovery_write;

fn sample_doc() -> serde_json::Value {
    let mut inner = serde_json::Map::new();
    inner.insert("title".to_string(), serde_json::Value::String("draft".to_string()));
    inner.insert("words".to_string(), serde_json::Value::from(123));
    inner.insert(
        "tags".to_string(),
        serde_json::Value::Array(vec![
            serde_json::Value::String("a".to_string()),
            serde_json::Value::Bool(true),
            serde_json::Value::Null,
        ]),
    );
    serde_json::Value::Object(inner)
}

#[test]
fn save_plan_lays_out_the_atomic_write() {
    let doc = sample_doc();
    let plan = save_recovery_plan("notes", &doc).unwrap();
    assert_eq!(plan.final_path, "recovery/notes.json");
    assert_eq!(plan.temp_path, "recovery/notes.tmp");
    assert_ne!(plan.temp_path, plan.final_path);
    assert_eq!(plan.content, serde_json::to_string_pretty(&doc).unwrap());
}

#[test]
fn save_then_load_round_trips_a_document() {
    let doc = sample_doc();
    let plan = save_recovery_plan("draft-1", &doc).unwrap();
    let loaded = interpret_recovery_read(ReadOutcome::Content { text: plan.content }).unwrap();
    assert_eq!(loaded, doc);
}

#[test]
fn traversal_key_is_rejected() {
    let r = save_recovery_plan("../etc/passwd", &sample_doc());
    assert!(matches!(r, Err(RecoveryError::ValidationError { .. })));
}

#[test]
fn oversized_payload_is_rejected_with_the_cap() {
    let big = serde_json::Value::String("a".repeat(MAX_RECOVERY_DATA_BYTES + 1));
    let r = save_recovery_plan("big", &big);
    assert_eq!(r.unwrap_err(), RecoveryError::DataTooLarge { max_bytes: 10485760 });
}

#[test]
fn payload_at_the_cap_is_accepted() {
    // The compact rendering of a string payload adds the two quotes.
    let fitting = serde_json::Value::String("a".repeat(MAX_RECOVERY_DATA_BYTES - 2));
    assert!(save_recovery_plan("big", &fitting).is_ok());
}

#[test]
fn read_path_validates_the_key() {
    assert_eq!(recovery_read_path("nope").unwrap(), "recovery/nope.json");
    assert!(matches!(
        recovery_read_path("../nope"),
        Err(RecoveryError::ValidationError { .. })
    ));
}

#[test]
fn missing_record_is_file_not_found() {
    let r = interpret_recovery_read(ReadOutcome::Missing);
    assert_eq!(r.unwrap_err(), RecoveryError::FileNotFound);
}

#[test]
fn unreadable_record_is_an_io_error() {
    let r = interpret_recovery_read(ReadOutcome::Unreadable { message: "locked".to_string() });
    assert_eq!(r.unwrap_err(), RecoveryError::IoError { message: "locked".to_string() });
}

#[test]
fn corrupt_record_is_a_parse_error() {
    let r = interpret_recovery_read(ReadOutcome::Content { text: "{not json".to_string() });
    assert!(matches!(r, Err(RecoveryError::ParseError { .. })));
}

#[test]
fn content_is_parsed_not_echoed() {
    let r = interpret_recovery_read(ReadOutcome::Content { text: "[1, 2, 3]".to_string() });
    let expected = serde_json::Value::Array(vec![
        serde_json::Value::from(1),
        serde_json::Value::from(2),
        serde_json::Value::from(3),
    ]);
    assert_eq!(r.unwrap(), expected);
}

fn stat(path: &str, is_json: bool, modified_secs: u64) -> RecoveryFileStat {
    RecoveryFileStat { path: path.to_string(), is_json, modified_secs }
}

#[test]
fn expiry_is_strictly_older_than_the_window() {
    let now = 2_000_000_000;
    assert!(!entry_expired(now, &stat("a.json", true, now)));
    assert!(!entry_expired(now, &stat("a.json", true, now - SWEEP_MAX_AGE_SECONDS)));
    assert!(entry_expired(now, &stat("a.json", true, now - SWEEP_MAX_AGE_SECONDS - 1)));
    assert!(!entry_expired(now, &stat("a.tmp", false, 0)));
    // A clock earlier than the window expires nothing.
    assert!(!entry_expired(SWEEP_MAX_AGE_SECONDS, &stat("a.json", true, 0)));
}

#[test]
fn sweep_selects_exactly_the_expired_records() {
    let now = 2_000_000_000;
    let files = vec![
        stat("recovery/fresh.json", true, now - 60),
        stat("recovery/old.json", true, now - SWEEP_MAX_AGE_SECONDS - 5),
        stat("recovery/orphan.tmp", false, 0),
        stat("recovery/older.json", true, 0),
        stat("recovery/edge.json", true, now - SWEEP_MAX_AGE_SECONDS),
    ];
    let picks = select_expired(now, &files);
    assert_eq!(picks, vec![1, 3]);
}

#[test]
fn sweep_of_only_fresh_records_removes_nothing() {
    let now = 2_000_000_000;
    let files = vec![
        stat("recovery/a.json", true, now),
        stat("recovery/b.json", true, now - 1),
    ];
    assert!(select_expired(now, &files).is_empty());
}

#[test]
fn write_plan_sits_exactly_on_the_cap() {
    let at_cap = "a".repeat(MAX_RECOVERY_DATA_BYTES);
    let over = "a".repeat(MAX_RECOVERY_DATA_BYTES + 1);
    let plan = plan_recovery_write("k", &at_cap, "pretty".to_string()).unwrap();
    assert_eq!(plan.content, "pretty");
    assert_eq!(plan.final_path, "recovery/k.json");
    assert_eq!(plan.temp_path, "recovery/k.tmp");
    assert_eq!(
        plan_recovery_write("k", &over, "pretty".to_string()).unwrap_err(),
        RecoveryError::DataTooLarge { max_bytes: 10485760 }
    );
    assert!(matches!(
        plan_recovery_write("bad key", &at_cap, "pretty".to_string()),
        Err(RecoveryError::ValidationError { .. })
    ));
}
