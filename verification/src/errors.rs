//! The error taxonomy the storage layer surfaces to its callers.
//!
//! `FileNotFound` is an expected outcome callers branch on; the remaining
//! variants carry enough context for user-facing correction or retry.

use vstd::prelude::*;

verus! {

/// Error raised by the storage operations (typed so callers can match).
#[derive(Debug, Clone)]
pub enum RecoveryError {
    /// File does not exist (expected case, not a failure).
    FileNotFound,
    /// Filename or field validation failed.
    ValidationError { message: String },
    /// Data exceeds the size limit.
    DataTooLarge { max_bytes: u32 },
    /// File system read/write error.
    IoError { message: String },
    /// Serialization or deserialization error.
    ParseError { message: String },
}

impl PartialEq for RecoveryError {
    fn eq(&self, other: &Self) -> (r: bool) {
        match (self, other) {
            (RecoveryError::FileNotFound, RecoveryError::FileNotFound) => true,
            (
                RecoveryError::ValidationError { message: a },
                RecoveryError::ValidationError { message: b },
            ) => *a == *b,
            (
                RecoveryError::DataTooLarge { max_bytes: a },
                RecoveryError::DataTooLarge { max_bytes: b },
            ) => *a == *b,
            (RecoveryError::IoError { message: a }, RecoveryError::IoError { message: b }) => {
                *a == *b
            },
            (RecoveryError::ParseError { message: a }, RecoveryError::ParseError { message: b }) => {
                *a == *b
            },
            _ => false,
        }
    }
}

impl vstd::std_specs::cmp::PartialEqSpecImpl for RecoveryError {
    open spec fn obeys_eq_spec() -> bool {
        true
    }

    open spec fn eq_spec(&self, other: &Self) -> bool {
        match (self, other) {
            (RecoveryError::FileNotFound, RecoveryError::FileNotFound) => true,
            (
                RecoveryError::ValidationError { message: a },
                RecoveryError::ValidationError { message: b },
            ) => a@ == b@,
            (
                RecoveryError::DataTooLarge { max_bytes: a },
                RecoveryError::DataTooLarge { max_bytes: b },
            ) => a == b,
            (RecoveryError::IoError { message: a }, RecoveryError::IoError { message: b }) => {
                a@ == b@
            },
            (RecoveryError::ParseError { message: a }, RecoveryError::ParseError { message: b }) => {
                a@ == b@
            },
            _ => false,
        }
    }
}

/// The decimal digits of `n`, most significant first.
pub open spec fn decimal_digits(n: nat) -> Seq<char>
    decreases n,
{
    if n < 10 {
        seq![digit_char(n)]
    } else {
        decimal_digits(n / 10).push(digit_char(n % 10))
    }
}

/// The character for one decimal digit value.
pub open spec fn digit_char(d: nat) -> char {
    if d == 0 {
        '0'
    } else if d == 1 {
        '1'
    } else if d == 2 {
        '2'
    } else if d == 3 {
        '3'
    } else if d == 4 {
        '4'
    } else if d == 5 {
        '5'
    } else if d == 6 {
        '6'
    } else if d == 7 {
        '7'
    } else if d == 8 {
        '8'
    } else {
        '9'
    }
}

/// Renders `n` in decimal, most significant digit first.
pub fn u64_to_decimal(n: u64) -> (r: String)
    ensures
        r@ == decimal_digits(n as nat),
{
    let mut rest: u64 = n;
    let mut tail = String::new();
    // Collect digits least significant first, then put the leading part in front.
    while rest >= 10
        invariant
            decimal_digits(n as nat) == decimal_digits(rest as nat) + tail@,
        decreases rest,
    {
        let d: u64 = rest % 10;
        let mut next = digit_string(d);
        next.append(tail.as_str());
        tail = next;
        rest = rest / 10;
    }
    let mut out = digit_string(rest);
    out.append(tail.as_str());
    out
}

/// A one-character string for a digit value below ten.
fn digit_string(d: u64) -> (r: String)
    requires
        d < 10,
    ensures
        r@ == seq![digit_char(d as nat)],
{
    let s: &str = if d == 0 {
        "0"
    } else if d == 1 {
        "1"
    } else if d == 2 {
        "2"
    } else if d == 3 {
        "3"
    } else if d == 4 {
        "4"
    } else if d == 5 {
        "5"
    } else if d == 6 {
        "6"
    } else if d == 7 {
        "7"
    } else if d == 8 {
        "8"
    } else {
        "9"
    };
    proof {
        reveal_strlit("0");
        reveal_strlit("1");
        reveal_strlit("2");
        reveal_strlit("3");
        reveal_strlit("4");
        reveal_strlit("5");
        reveal_strlit("6");
        reveal_strlit("7");
        reveal_strlit("8");
        reveal_strlit("9");
    }
    s.to_owned()
}

impl RecoveryError {
    /// The user-facing description of this error.
    pub fn describe(&self) -> (r: String)
        ensures
            r@ == self.spec_describe(),
    {
        match self {
            RecoveryError::FileNotFound => String::from_str("File not found"),
            RecoveryError::ValidationError { message } => {
                let mut s = String::from_str("Validation error: ");
                s.append(message.as_str());
                s
            },
            RecoveryError::DataTooLarge { max_bytes } => {
                let mut s = String::from_str("Data too large (max ");
                let digits = u64_to_decimal(*max_bytes as u64);
                s.append(digits.as_str());
                s.append(" bytes)");
                s
            },
            RecoveryError::IoError { message } => {
                let mut s = String::from_str("IO error: ");
                s.append(message.as_str());
                s
            },
            RecoveryError::ParseError { message } => {
                let mut s = String::from_str("Parse error: ");
                s.append(message.as_str());
                s
            },
        }
    }

    /// What `describe` returns, variant by variant.
    pub open spec fn spec_describe(&self) -> Seq<char> {
        match self {
            RecoveryError::FileNotFound => "File not found"@,
            RecoveryError::ValidationError { message } => "Validation error: "@ + message@,
            RecoveryError::DataTooLarge { max_bytes } => {
                "Data too large (max "@ + decimal_digits(*max_bytes as nat) + " bytes)"@
            },
            RecoveryError::IoError { message } => "IO error: "@ + message@,
            RecoveryError::ParseError { message } => "Parse error: "@ + message@,
        }
    }
}

} // verus!
