//! The preference record and its on-disk document.
//!
//! Preferences are a process-wide singleton, overwritten wholesale on every
//! save. The document is rendered and parsed here, character for character,
//! so the save/load round trip is a theorem rather than a convention: a
//! well-formed preferences document is an object with a single string field
//! named `theme`, with any JSON whitespace around the tokens and no escape
//! sequences in the value.

use vstd::prelude::*;
use crate::errors::RecoveryError;
use crate::store::ReadOutcome;
use crate::store::SavePlan;
use crate::validate::is_valid_theme;
use crate::validate::validate_theme;

verus! {

/// The persisted preferences: only settings that belong on disk.
#[derive(Debug, Clone)]
pub struct AppPreferences {
    /// The theme; a save accepts exactly `light`, `dark` and `system`.
    pub theme: String,
}

impl Default for AppPreferences {
    /// The record used when no file exists yet: the system theme.
    fn default() -> (r: Self)
        ensures
            r.theme@ == "system"@,
    {
        AppPreferences { theme: String::from_str("system") }
    }
}

impl PartialEq for AppPreferences {
    fn eq(&self, other: &Self) -> (r: bool) {
        self.theme == other.theme
    }
}

impl vstd::std_specs::cmp::PartialEqSpecImpl for AppPreferences {
    open spec fn obeys_eq_spec() -> bool {
        true
    }

    open spec fn eq_spec(&self, other: &Self) -> bool {
        self.theme@ == other.theme@
    }
}

/// The canonical preferences document for a theme.
pub open spec fn render_preferences(theme: Seq<char>) -> Seq<char> {
    "{\n  \"theme\": \""@ + theme + "\"\n}"@
}

/// Renders the canonical preferences document.
pub fn render_preferences_doc(theme: &str) -> (r: String)
    ensures
        r@ == render_preferences(theme@),
{
    let mut s = String::from_str("{\n  \"theme\": \"");
    s.append(theme);
    s.append("\"\n}");
    s
}

/// JSON whitespace.
pub open spec fn is_json_ws(c: char) -> bool {
    c == ' ' || c == '\t' || c == '\n' || c == '\r'
}

/// The first position at or after `i` holding no whitespace.
pub open spec fn skip_ws(s: Seq<char>, i: int) -> int
    decreases s.len() - i,
    when 0 <= i <= s.len()
{
    if i < s.len() && is_json_ws(s[i]) {
        skip_ws(s, i + 1)
    } else {
        i
    }
}

/// Whether `pat` occurs in `s` starting at `i`.
pub open spec fn matches_at(s: Seq<char>, i: int, pat: Seq<char>) -> bool {
    0 <= i && i + pat.len() <= s.len() && s.subrange(i, i + pat.len()) == pat
}

/// The position of the closing quote of a string value that starts at
/// `i`: the first quote at or after `i`, unless an escape or the end of
/// the text comes first.
pub open spec fn find_string_end(s: Seq<char>, i: int) -> Option<int>
    decreases s.len() - i,
    when 0 <= i <= s.len()
{
    if i >= s.len() {
        None
    } else if s[i] == '"' {
        Some(i)
    } else if s[i] == '\\' {
        None
    } else {
        find_string_end(s, i + 1)
    }
}

/// What the preferences parser makes of a text: the theme of a
/// well-formed preferences document, or nothing.
pub open spec fn spec_parse_preferences(s: Seq<char>) -> Option<Seq<char>> {
    let i0 = skip_ws(s, 0);
    if !(i0 < s.len() && s[i0] == '{') {
        None
    } else {
        let i1 = skip_ws(s, i0 + 1);
        if !matches_at(s, i1, "\"theme\""@) {
            None
        } else {
            let i2 = skip_ws(s, i1 + 7);
            if !(i2 < s.len() && s[i2] == ':') {
                None
            } else {
                let i3 = skip_ws(s, i2 + 1);
                if !(i3 < s.len() && s[i3] == '"') {
                    None
                } else {
                    match find_string_end(s, i3 + 1) {
                        Some(q) => {
                            let i4 = skip_ws(s, q + 1);
                            if i4 < s.len() && s[i4] == '}' && skip_ws(s, i4 + 1) == s.len() {
                                Some(s.subrange(i3 + 1, q))
                            } else {
                                None
                            }
                        },
                        None => None,
                    }
                }
            }
        }
    }
}

fn skip_ws_exec(s: &str, from: usize, n: usize) -> (r: usize)
    requires
        n == s@.len(),
        from <= n,
    ensures
        from <= r <= n,
        r as int == skip_ws(s@, from as int),
    decreases n - from,
{
    let mut i = from;
    loop
        invariant
            n == s@.len(),
            from <= i <= n,
            skip_ws(s@, from as int) == skip_ws(s@, i as int),
        decreases n - i,
    {
        if i == n {
            return i;
        }
        let c = s.get_char(i);
        if !(c == ' ' || c == '\t' || c == '\n' || c == '\r') {
            return i;
        }
        i += 1;
    }
}

fn matches_theme_key(s: &str, i: usize, n: usize) -> (r: bool)
    requires
        n == s@.len(),
        i <= n,
    ensures
        r == matches_at(s@, i as int, "\"theme\""@),
        r ==> i + 7 <= n,
{
    proof {
        reveal_strlit("\"theme\"");
    }
    if n - i < 7 {
        return false;
    }
    let r = s.get_char(i) == '"' && s.get_char(i + 1) == 't' && s.get_char(i + 2) == 'h'
        && s.get_char(i + 3) == 'e' && s.get_char(i + 4) == 'm' && s.get_char(i + 5) == 'e'
        && s.get_char(i + 6) == '"';
    proof {
        let sub = s@.subrange(i as int, i as int + 7);
        if r {
            assert(sub =~= "\"theme\""@);
        } else if sub == "\"theme\""@ {
            assert(sub[0] == s@[i as int]);
            assert(sub[1] == s@[i as int + 1]);
            assert(sub[2] == s@[i as int + 2]);
            assert(sub[3] == s@[i as int + 3]);
            assert(sub[4] == s@[i as int + 4]);
            assert(sub[5] == s@[i as int + 5]);
            assert(sub[6] == s@[i as int + 6]);
            assert(r);
        }
    }
    r
}

fn find_string_end_exec(s: &str, from: usize, n: usize) -> (r: Option<usize>)
    requires
        n == s@.len(),
        from <= n,
    ensures
        match find_string_end(s@, from as int) {
            Some(q) => r matches Some(u) && u as int == q && from <= u && u < n,
            None => r is None,
        },
{
    let mut i = from;
    loop
        invariant
            n == s@.len(),
            from <= i <= n,
            find_string_end(s@, from as int) == find_string_end(s@, i as int),
        decreases n - i,
    {
        if i == n {
            return None;
        }
        let c = s.get_char(i);
        if c == '"' {
            return Some(i);
        }
        if c == '\\' {
            return None;
        }
        i += 1;
    }
}

/// Parses a preferences document, returning its theme; anything but a
/// well-formed document is rejected whole.
pub fn parse_preferences_doc(text: &str) -> (r: Option<String>)
    ensures
        match spec_parse_preferences(text@) {
            Some(t) => r matches Some(v) && v@ == t,
            None => r is None,
        },
{
    let n = text.unicode_len();
    let i0 = skip_ws_exec(text, 0, n);
    if i0 == n || text.get_char(i0) != '{' {
        return None;
    }
    let i1 = skip_ws_exec(text, i0 + 1, n);
    if !matches_theme_key(text, i1, n) {
        return None;
    }
    let i2 = skip_ws_exec(text, i1 + 7, n);
    if i2 == n || text.get_char(i2) != ':' {
        return None;
    }
    let i3 = skip_ws_exec(text, i2 + 1, n);
    if i3 == n || text.get_char(i3) != '"' {
        return None;
    }
    let q = match find_string_end_exec(text, i3 + 1, n) {
        Some(q) => q,
        None => {
            return None;
        },
    };
    let i4 = skip_ws_exec(text, q + 1, n);
    if i4 == n || text.get_char(i4) != '}' {
        return None;
    }
    let i5 = skip_ws_exec(text, i4 + 1, n);
    if i5 != n {
        return None;
    }
    let value = text.substring_char(i3 + 1, q);
    Some(value.to_owned())
}

/// Plans the save of the preferences: the theme is validated, the
/// document rendered, and the atomic write laid out; an invalid theme is
/// rejected before anything would touch the disk.
pub fn save_preferences_plan(prefs: &AppPreferences) -> (r: Result<SavePlan, RecoveryError>)
    ensures
        r is Ok <==> is_valid_theme(prefs.theme@),
        r matches Ok(plan) ==> {
            &&& plan.final_path@ == "preferences.json"@
            &&& plan.temp_path@ == "preferences.tmp"@
            &&& plan.content@ == render_preferences(prefs.theme@)
        },
        r matches Err(e) ==> e is ValidationError,
{
    match validate_theme(prefs.theme.as_str()) {
        Ok(()) => {
            let content = render_preferences_doc(prefs.theme.as_str());
            Ok(
                SavePlan {
                    final_path: String::from_str("preferences.json"),
                    temp_path: String::from_str("preferences.tmp"),
                    content,
                },
            )
        },
        Err(message) => Err(RecoveryError::ValidationError { message }),
    }
}

/// The preferences temporary path never collides with the final path.
pub proof fn lemma_preferences_paths_distinct()
    ensures
        "preferences.json"@ != "preferences.tmp"@,
{
    reveal_strlit("preferences.json");
    reveal_strlit("preferences.tmp");
    assert("preferences.json"@.len() == 16);
    assert("preferences.tmp"@.len() == 15);
}

/// Interprets what came back from reading the preferences file: absence
/// is the first run and yields the default record, a platform failure is
/// an `IoError`, and content must be a well-formed preferences document.
pub fn interpret_preferences_read(outcome: ReadOutcome) -> (r: Result<
    AppPreferences,
    RecoveryError,
>)
    ensures
        outcome is Missing ==> (r matches Ok(p) && p.theme@ == "system"@),
        outcome matches ReadOutcome::Unreadable { message } ==> (r matches Err(e) && e
            == (RecoveryError::IoError { message })),
        outcome matches ReadOutcome::Content { text } ==> (match spec_parse_preferences(text@) {
            Some(t) => r matches Ok(p) && p.theme@ == t,
            None => r matches Err(e) && e is ParseError,
        }),
{
    match outcome {
        ReadOutcome::Missing => Ok(AppPreferences::default()),
        ReadOutcome::Unreadable { message } => Err(RecoveryError::IoError { message }),
        ReadOutcome::Content { text } => {
            match parse_preferences_doc(text.as_str()) {
                Some(theme) => Ok(AppPreferences { theme }),
                None => Err(
                    RecoveryError::ParseError {
                        message: String::from_str("Failed to parse preferences"),
                    },
                ),
            }
        },
    }
}

proof fn lemma_find_string_end_at(s: Seq<char>, i: int, end: int)
    requires
        0 <= i <= end < s.len(),
        s[end] == '"',
        forall|k: int| i <= k < end ==> s[k] != '"' && s[k] != '\\',
    ensures
        find_string_end(s, i) == Some(end),
    decreases end - i,
{
    if i < end {
        lemma_find_string_end_at(s, i + 1, end);
    }
}

/// Rendering any escape-free theme and parsing the document back yields
/// that very theme.
pub proof fn lemma_render_parse_round_trip(theme: Seq<char>)
    requires
        forall|i: int| 0 <= i < theme.len() ==> theme[i] != '"' && theme[i] != '\\',
    ensures
        spec_parse_preferences(render_preferences(theme)) == Some(theme),
{
    reveal_strlit("{\n  \"theme\": \"");
    reveal_strlit("\"\n}");
    reveal_strlit("\"theme\"");
    let pre = "{\n  \"theme\": \""@;
    let suf = "\"\n}"@;
    let s = render_preferences(theme);
    let len = theme.len() as int;
    assert(pre.len() == 14);
    assert(suf.len() == 3);
    assert(s.len() == len + 17);
    assert forall|k: int| 0 <= k < 14 implies s[k] == pre[k] by {}
    assert forall|j: int| 0 <= j < len implies s[14 + j] == theme[j] by {}
    assert forall|m: int| 0 <= m < 3 implies s[14 + len + m] == suf[m] by {}

    assert(skip_ws(s, 0) == 0);
    assert(s[0] == '{');
    assert(skip_ws(s, 4) == 4);
    assert(skip_ws(s, 3) == 4);
    assert(skip_ws(s, 2) == 4);
    assert(skip_ws(s, 1) == 4);
    assert(s.subrange(4, 11) =~= "\"theme\""@);
    assert(matches_at(s, 4, "\"theme\""@));
    assert(skip_ws(s, 11) == 11);
    assert(s[11] == ':');
    assert(skip_ws(s, 13) == 13);
    assert(skip_ws(s, 12) == 13);
    assert(s[13] == '"');
    assert(s[14 + len] == '"');
    lemma_find_string_end_at(s, 14, 14 + len);
    assert(skip_ws(s, 16 + len) == 16 + len);
    assert(skip_ws(s, 15 + len) == 16 + len);
    assert(s[16 + len] == '}');
    assert(skip_ws(s, 17 + len) == 17 + len);
    assert(s.subrange(14, 14 + len) =~= theme);
}

/// The preference round trip: for every valid theme, saving it and
/// loading the document the save wrote yields the same theme again.
pub proof fn lemma_preferences_round_trip(theme: Seq<char>)
    requires
        is_valid_theme(theme),
    ensures
        spec_parse_preferences(render_preferences(theme)) == Some(theme),
{
    reveal_strlit("light");
    reveal_strlit("dark");
    reveal_strlit("system");
    assert forall|i: int| 0 <= i < theme.len() implies theme[i] != '"' && theme[i] != '\\' by {
        if theme == "light"@ {
            assert(theme.len() == 5);
        } else if theme == "dark"@ {
            assert(theme.len() == 4);
        } else {
            assert(theme.len() == 6);
        }
    }
    lemma_render_parse_round_trip(theme);
}

} // verus!
