//! Input validation for the storage layer: theme values, generic length
//! caps, and the filename allow-list that keeps recovery keys free of path
//! separators and traversal sequences by construction.

use vstd::prelude::*;
use vstd::string::StringSliceAdditionalSpecFns;
use crate::errors::decimal_digits;
use crate::errors::u64_to_decimal;

verus! {

/// A theme value the preference record accepts: exactly one of the three
/// literal strings.
pub open spec fn is_valid_theme(s: Seq<char>) -> bool {
    s == "light"@ || s == "dark"@ || s == "system"@
}

/// Character-for-character equality of two string slices.
pub fn str_eq(a: &str, b: &str) -> (r: bool)
    ensures
        r == (a@ == b@),
{
    let an = a.unicode_len();
    let bn = b.unicode_len();
    if an != bn {
        return false;
    }
    let mut i: usize = 0;
    while i < an
        invariant
            an == a@.len(),
            bn == b@.len(),
            an == bn,
            i <= an,
            forall|j: int| 0 <= j < i ==> a@[j] == b@[j],
        decreases an - i,
    {
        if a.get_char(i) != b.get_char(i) {
            return false;
        }
        i += 1;
    }
    proof {
        assert(a@ =~= b@);
    }
    true
}

/// Accepts exactly the strings `light`, `dark` and `system`; everything
/// else is a validation failure carrying a caller-facing message.
pub fn validate_theme(theme: &str) -> (r: Result<(), String>)
    ensures
        r is Ok <==> is_valid_theme(theme@),
        r matches Err(m) ==> m@ == "Invalid theme: must be 'light', 'dark', or 'system'"@,
{
    if str_eq(theme, "light") || str_eq(theme, "dark") || str_eq(theme, "system") {
        Ok(())
    } else {
        Err(String::from_str("Invalid theme: must be 'light', 'dark', or 'system'"))
    }
}

/// A character allowed in the stem of a recovery filename.
pub open spec fn is_word_char(c: char) -> bool {
    ('a' <= c && c <= 'z') || ('A' <= c && c <= 'Z') || ('0' <= c && c <= '9') || c == '_'
        || c == '-'
}

/// A character allowed in the extension of a recovery filename.
pub open spec fn is_ext_char(c: char) -> bool {
    ('a' <= c && c <= 'z') || ('A' <= c && c <= 'Z') || ('0' <= c && c <= '9')
}

/// The filename allow-list: one or more stem characters, optionally
/// followed by a single dot and one or more alphanumeric extension
/// characters. Path separators and traversal sequences cannot match.
pub open spec fn matches_filename_pattern(s: Seq<char>) -> bool {
    ||| (s.len() >= 1 && (forall|i: int| 0 <= i < s.len() ==> is_word_char(#[trigger] s[i])))
    ||| (exists|k: int|
        1 <= k && k + 1 < s.len() && #[trigger] s[k] == '.' && (forall|i: int|
            0 <= i < k ==> is_word_char(#[trigger] s[i])) && (forall|i: int|
            k < i < s.len() ==> is_ext_char(#[trigger] s[i])))
}

/// A valid recovery key: nonempty, at most 100 characters, and matching
/// the allow-list pattern.
pub open spec fn is_valid_filename(s: Seq<char>) -> bool {
    1 <= s.len() <= 100 && matches_filename_pattern(s)
}

fn word_char(c: char) -> (r: bool)
    ensures
        r == is_word_char(c),
{
    ('a' <= c && c <= 'z') || ('A' <= c && c <= 'Z') || ('0' <= c && c <= '9') || c == '_'
        || c == '-'
}

fn ext_char(c: char) -> (r: bool)
    ensures
        r == is_ext_char(c),
{
    ('a' <= c && c <= 'z') || ('A' <= c && c <= 'Z') || ('0' <= c && c <= '9')
}

/// Rejects the empty string, names over 100 characters, and anything
/// outside the allow-list pattern; those three are the only failures.
pub fn validate_filename(filename: &str) -> (r: Result<(), String>)
    ensures
        r is Ok <==> is_valid_filename(filename@),
        r matches Err(m) ==> m@ == (if filename@.len() == 0 {
            "Filename cannot be empty"@
        } else if filename@.len() > 100 {
            "Filename too long (max 100 characters)"@
        } else {
            "Invalid filename: only alphanumeric characters, dashes, underscores, and dots allowed"@
        }),
{
    let n = filename.unicode_len();
    if n == 0 {
        return Err(String::from_str("Filename cannot be empty"));
    }
    if n > 100 {
        return Err(String::from_str("Filename too long (max 100 characters)"));
    }

    // Scan the stem, stopping at the first dot.
    let mut i: usize = 0;
    loop
        invariant
            n == filename@.len(),
            1 <= n <= 100,
            i <= n,
            forall|j: int| 0 <= j < i ==> is_word_char(#[trigger] filename@[j]),
        ensures
            i < n,
            filename@[i as int] == '.',
            forall|j: int| 0 <= j < i ==> is_word_char(#[trigger] filename@[j]),
        decreases n - i,
    {
        if i == n {
            // No dot: every character is a stem character.
            return Ok(());
        }
        let c = filename.get_char(i);
        if c == '.' {
            break;
        }
        if !word_char(c) {
            proof {
                lemma_bad_char_refutes(filename@, i as int);
            }
            return Err(invalid_filename_message());
        }
        i += 1;
    }

    // filename@[i] is the first dot; the stem before it must be nonempty
    // and the extension after it nonempty and alphanumeric.
    let dot = i;
    if dot == 0 || dot + 1 >= n {
        proof {
            lemma_dot_needs_room(filename@, dot as int);
        }
        return Err(invalid_filename_message());
    }
    let mut j: usize = dot + 1;
    while j < n
        invariant
            n == filename@.len(),
            1 <= n <= 100,
            1 <= dot,
            dot + 1 < n,
            j <= n,
            dot < j,
            filename@[dot as int] == '.',
            forall|m: int| 0 <= m < dot ==> is_word_char(#[trigger] filename@[m]),
            forall|m: int| dot < m < j ==> is_ext_char(#[trigger] filename@[m]),
        decreases n - j,
    {
        let c = filename.get_char(j);
        if !ext_char(c) {
            proof {
                lemma_bad_ext_refutes(filename@, dot as int, j as int);
            }
            return Err(invalid_filename_message());
        }
        j += 1;
    }
    proof {
        let k = dot as int;
        assert(1 <= k && k + 1 < filename@.len() && filename@[k] == '.' && (forall|i: int|
            0 <= i < k ==> is_word_char(#[trigger] filename@[i])) && (forall|i: int|
            k < i < filename@.len() ==> is_ext_char(#[trigger] filename@[i])));
    }
    Ok(())
}

fn invalid_filename_message() -> (r: String)
    ensures
        r@ == "Invalid filename: only alphanumeric characters, dashes, underscores, and dots allowed"@,
{
    String::from_str(
        "Invalid filename: only alphanumeric characters, dashes, underscores, and dots allowed",
    )
}

/// A character that is neither a stem character nor a dot rules the
/// pattern out when everything before it is a stem character.
proof fn lemma_bad_char_refutes(s: Seq<char>, i: int)
    requires
        0 <= i < s.len(),
        !is_word_char(s[i]),
        s[i] != '.',
        forall|j: int| 0 <= j < i ==> is_word_char(#[trigger] s[j]),
    ensures
        !matches_filename_pattern(s),
{
    if matches_filename_pattern(s) {
        if s.len() >= 1 && (forall|j: int| 0 <= j < s.len() ==> is_word_char(#[trigger] s[j])) {
            assert(is_word_char(s[i]));
        } else {
            let k = choose|k: int|
                1 <= k && k + 1 < s.len() && #[trigger] s[k] == '.' && (forall|j: int|
                    0 <= j < k ==> is_word_char(#[trigger] s[j])) && (forall|j: int|
                    k < j < s.len() ==> is_ext_char(#[trigger] s[j]));
            if k < i {
                assert(is_word_char(s[k]));
            } else if k == i {
                assert(s[i] == '.');
            } else {
                assert(is_word_char(s[i]));
            }
        }
    }
}

/// A dot in the first position, or in the last, rules the pattern out
/// when everything before the dot is a stem character.
proof fn lemma_dot_needs_room(s: Seq<char>, d: int)
    requires
        0 <= d < s.len(),
        s[d] == '.',
        d == 0 || d + 1 == s.len(),
        forall|j: int| 0 <= j < d ==> is_word_char(#[trigger] s[j]),
    ensures
        !matches_filename_pattern(s),
{
    if matches_filename_pattern(s) {
        if s.len() >= 1 && (forall|j: int| 0 <= j < s.len() ==> is_word_char(#[trigger] s[j])) {
            assert(is_word_char(s[d]));
        } else {
            let k = choose|k: int|
                1 <= k && k + 1 < s.len() && #[trigger] s[k] == '.' && (forall|j: int|
                    0 <= j < k ==> is_word_char(#[trigger] s[j])) && (forall|j: int|
                    k < j < s.len() ==> is_ext_char(#[trigger] s[j]));
            if k < d {
                assert(is_word_char(s[k]));
            } else if k > d {
                assert(is_word_char(s[d]));
            }
        }
    }
}

/// A non-alphanumeric character after the first dot rules the pattern out.
proof fn lemma_bad_ext_refutes(s: Seq<char>, d: int, j: int)
    requires
        1 <= d < j < s.len(),
        s[d] == '.',
        !is_ext_char(s[j]),
        forall|m: int| 0 <= m < d ==> is_word_char(#[trigger] s[m]),
    ensures
        !matches_filename_pattern(s),
{
    if matches_filename_pattern(s) {
        if s.len() >= 1 && (forall|m: int| 0 <= m < s.len() ==> is_word_char(#[trigger] s[m])) {
            assert(is_word_char(s[d]));
        } else {
            let k = choose|k: int|
                1 <= k && k + 1 < s.len() && #[trigger] s[k] == '.' && (forall|m: int|
                    0 <= m < k ==> is_word_char(#[trigger] s[m])) && (forall|m: int|
                    k < m < s.len() ==> is_ext_char(#[trigger] s[m]));
            if k < d {
                assert(is_word_char(s[k]));
            } else if k > d {
                assert(is_word_char(s[d]));
            } else {
                assert(is_ext_char(s[j]));
            }
        }
    }
}

/// Rejects an input whose byte length exceeds `max_len`; accepts
/// everything else.
pub fn validate_string_input(input: &str, max_len: usize, field_name: &str) -> (r: Result<
    (),
    String,
>)
    ensures
        r is Ok <==> input.spec_bytes().len() as usize <= max_len,
        r matches Err(m) ==> m@ == field_name@ + " too long (max "@ + decimal_digits(
            max_len as nat,
        ) + " characters)"@,
{
    if input.len() > max_len {
        let mut s = String::from_str(field_name);
        s.append(" too long (max ");
        let digits = u64_to_decimal(max_len as u64);
        s.append(digits.as_str());
        s.append(" characters)");
        Err(s)
    } else {
        Ok(())
    }
}

} // verus!
