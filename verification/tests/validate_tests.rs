use quickpane::validate_filename;
use quickpane::validate_string_input;
use quickpane::validate_theme;
use quickpane::errors::u64_to_decimal;
use quickpane::errors::RecoveryError;

#[test]
fn theme_accepts_the_three_values() {
    assert!(validate_theme("light").is_ok());
    assert!(validate_theme("dark").is_ok());
    assert!(validate_theme("system").is_ok());
}

#[test]
fn theme_rejects_everything_else() {
    assert!(validate_theme("").is_err());
    assert!(validate_theme("Light").is_err());
    assert!(validate_theme("purple").is_err());
    assert!(validate_theme("light ").is_err());
    assert_eq!(
        validate_theme("blue").unwrap_err(),
        "Invalid theme: must be 'light', 'dark', or 'system'"
    );
}

#[test]
fn filename_accepts_plain_names() {
    assert!(validate_filename("notes").is_ok());
    assert!(validate_filename("a").is_ok());
    assert!(validate_filename("My_Draft-2").is_ok());
    assert!(validate_filename("backup.txt").is_ok());
    assert!(validate_filename("UPPER.JSON").is_ok());
    assert!(validate_filename("x-y_z.md0").is_ok());
}

#[test]
fn filename_accepts_exactly_one_hundred_characters() {
    let name = "a".repeat(100);
    assert!(validate_filename(&name).is_ok());
    let long = "a".repeat(101);
    assert_eq!(
        validate_filename(&long).unwrap_err(),
        "Filename too long (max 100 characters)"
    );
}

#[test]
fn filename_rejects_empty() {
    assert_eq!(
        validate_filename("").unwrap_err(),
        "Filename cannot be empty"
    );
}

#[test]
fn filename_rejects_traversal_and_separators() {
    assert!(validate_filename("../etc/passwd").is_err());
    assert!(validate_filename("..").is_err());
    assert!(validate_filename("a/b").is_err());
    assert!(validate_filename("a\\b").is_err());
    assert!(validate_filename("~root").is_err());
}

#[test]
fn filename_rejects_malformed_extensions() {
    assert!(validate_filename(".txt").is_err());
    assert!(validate_filename("name.").is_err());
    assert!(validate_filename("a.tar.gz").is_err());
    assert!(validate_filename("a.t_x").is_err());
    assert!(validate_filename("a..b").is_err());
    assert!(validate_filename("sp ace").is_err());
}

#[test]
fn string_input_caps_byte_length() {
    assert!(validate_string_input("hello", 100, "Name").is_ok());
    assert!(validate_string_input("", 0, "Name").is_ok());
    let long = "x".repeat(101);
    assert_eq!(
        validate_string_input(&long, 100, "Name").unwrap_err(),
        "Name too long (max 100 characters)"
    );
}

#[test]
fn decimal_rendering_is_exact() {
    assert_eq!(u64_to_decimal(0), "0");
    assert_eq!(u64_to_decimal(7), "7");
    assert_eq!(u64_to_decimal(10), "10");
    assert_eq!(u64_to_decimal(604800), "604800");
    assert_eq!(u64_to_decimal(10485760), "10485760");
    assert_eq!(u64_to_decimal(u64::MAX), "18446744073709551615");
}

#[test]
fn error_descriptions_are_exact() {
    assert_eq!(RecoveryError::FileNotFound.describe(), "File not found");
    assert_eq!(
        RecoveryError::ValidationError { message: "bad".to_string() }.describe(),
        "Validation error: bad"
    );
    assert_eq!(
        RecoveryError::DataTooLarge { max_bytes: 10485760 }.describe(),
        "Data too large (max 10485760 bytes)"
    );
    assert_eq!(
        RecoveryError::IoError { message: "disk full".to_string() }.describe(),
        "IO error: disk full"
    );
    assert_eq!(
        RecoveryError::ParseError { message: "eof".to_string() }.describe(),
        "Parse error: eof"
    );
}

#[test]
fn errors_compare_by_contents() {
    assert_eq!(RecoveryError::FileNotFound, RecoveryError::FileNotFound);
    assert_eq!(
        RecoveryError::IoError { message: "m".to_string() },
        RecoveryError::IoError { message: "m".to_string() }
    );
    assert_ne!(
        RecoveryError::IoError { message: "m".to_string() },
        RecoveryError::ParseError { message: "m".to_string() }
    );
    assert_ne!(
        RecoveryError::DataTooLarge { max_bytes: 1 },
        RecoveryError::DataTooLarge { max_bytes: 2 }
    );
}

#[test]
fn greet_echoes_the_name() {
    assert_eq!(
        quickpane::greet::greet("Ada"),
        "Hello, Ada! You've been greeted from Rust!"
    );
}

#[test]
fn greet_rejects_an_overlong_name() {
    let name = "x".repeat(101);
    assert_eq!(
        quickpane::greet::greet(&name),
        "Error: Name too long (max 100 characters)"
    );
}
