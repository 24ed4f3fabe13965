//! Durable preference and recovery-record storage, plus the visibility
//! state machine of a single auxiliary overlay surface.
//!
//! The storage half validates keys and payloads, builds atomic
//! write-temp-then-rename plans, and interprets what came back from disk.
//! The overlay half decides, from the current visibility and the foreground
//! process, which surface commands to issue and which process to reactivate
//! on dismissal. All filesystem and windowing effects are carried out by the
//! embedding application; this crate holds the decisions and their proofs.

pub mod errors;
pub mod greet;
pub mod jsonio;
pub mod overlay;
pub mod prefs;
pub mod store;
pub mod validate;

pub use errors::RecoveryError;

pub use validate::validate_theme;
pub use validate::validate_string_input;
pub use validate::validate_filename;
