//! The greeting command: a length-capped echo of the caller's name.

use vstd::prelude::*;
use vstd::string::StringSliceAdditionalSpecFns;
use crate::errors::decimal_digits;
use crate::validate::validate_string_input;

verus! {

/// Greets by name; a name over 100 bytes is answered with the validation
/// message instead.
pub fn greet(name: &str) -> (r: String)
    ensures
        name.spec_bytes().len() as usize <= 100 ==> r@ == "Hello, "@ + name@
            + "! You've been greeted from Rust!"@,
        name.spec_bytes().len() as usize > 100 ==> r@ == "Error: "@ + "Name"@ + " too long (max "@
            + decimal_digits(100) + " characters)"@,
{
    match validate_string_input(name, 100, "Name") {
        Ok(()) => {
            let mut s = String::from_str("Hello, ");
            s.append(name);
            s.append("! You've been greeted from Rust!");
            s
        },
        Err(message) => {
            let mut s = String::from_str("Error: ");
            s.append(message.as_str());
            s
        },
    }
}

} // verus!
