use quickpane::prefs::parse_preferences_doc;
use quickpane::prefs::save_preferences_plan;
use quickpane::prefs::interpret_preferences_read;
use quickpane::prefs::AppPreferences;
use quickpane::store::ReadOutcome;
use quickpane::errors::RecoveryError;

fn prefs(theme: &str) -> AppPreferences {
    AppPreferences { theme: theme.to_string() }
}

#[test]
fn save_then_load_round_trips_each_theme() {
    for theme in ["light", "dark", "system"] {
        let plan = save_preferences_plan(&prefs(theme)).unwrap();
        let loaded = interpret_preferences_read(ReadOutcome::Content { text: plan.content })
            .unwrap();
        assert_eq!(loaded.theme, theme);
    }
}

#[test]
fn save_lays_out_the_atomic_write() {
    let plan = save_preferences_plan(&prefs("dark")).unwrap();
    assert_eq!(plan.final_path, "preferences.json");
    assert_eq!(plan.temp_path, "preferences.tmp");
    assert_ne!(plan.temp_path, plan.final_path);
    assert_eq!(plan.content, "{\n  \"theme\": \"dark\"\n}");
}

#[test]
fn rendered_document_matches_the_reference_pretty_form() {
    // The canonical document is byte-for-byte what serde_json's pretty
    // printer produces for the same object.
    let plan = save_preferences_plan(&prefs("light")).unwrap();
    let mut map = serde_json::Map::new();
    map.insert(
        "theme".to_string(),
        serde_json::Value::String("light".to_string()),
    );
    let reference = serde_json::to_string_pretty(&serde_json::Value::Object(map)).unwrap();
    assert_eq!(plan.content, reference);
}

#[test]
fn invalid_theme_is_rejected_before_any_write() {
    let r = save_preferences_plan(&prefs("purple"));
    match r {
        Err(RecoveryError::ValidationError { message }) => {
            assert_eq!(message, "Invalid theme: must be 'light', 'dark', or 'system'");
        }
        other => panic!("expected a validation error, got {other:?}"),
    }
}

#[test]
fn missing_file_yields_the_default_record() {
    let loaded = interpret_preferences_read(ReadOutcome::Missing).unwrap();
    assert_eq!(loaded.theme, "system");
    assert_eq!(loaded, AppPreferences::default());
}

#[test]
fn unreadable_file_surfaces_an_io_error() {
    let r = interpret_preferences_read(ReadOutcome::Unreadable {
        message: "permission denied".to_string(),
    });
    assert_eq!(
        r.unwrap_err(),
        RecoveryError::IoError { message: "permission denied".to_string() }
    );
}

#[test]
fn corrupt_content_surfaces_a_parse_error() {
    let r = interpret_preferences_read(ReadOutcome::Content {
        text: "{\"theme\": 3}".to_string(),
    });
    assert!(matches!(r, Err(RecoveryError::ParseError { .. })));
}

#[test]
fn parser_tolerates_whitespace() {
    let doc = "  {\n\t\"theme\"  :   \"dark\" \r\n }  ";
    assert_eq!(parse_preferences_doc(doc).unwrap(), "dark");
}

#[test]
fn parser_accepts_the_compact_form() {
    assert_eq!(parse_preferences_doc("{\"theme\":\"light\"}").unwrap(), "light");
}

#[test]
fn parser_rejects_malformed_documents() {
    assert!(parse_preferences_doc("").is_none());
    assert!(parse_preferences_doc("{}").is_none());
    assert!(parse_preferences_doc("{\"theme\": \"dark\"").is_none());
    assert!(parse_preferences_doc("{\"theme\": \"dark\"} extra").is_none());
    assert!(parse_preferences_doc("{\"theme\": \"da\\\"rk\"}").is_none());
    assert!(parse_preferences_doc("[\"theme\"]").is_none());
    assert!(parse_preferences_doc("{\"Theme\": \"dark\"}").is_none());
}
