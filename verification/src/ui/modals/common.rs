//! Shared helper types and utilities for TUI modals.

use vstd::prelude::*;
use vstd::utf8::encode_utf8;
use vstd::utf8::is_ascii_chars;
use crate::text::{
    decimal, u64_to_decimal,
    ascii_lower_chars, ascii_lower_seq, chars_contains, chars_of, chars_starts_with,
    extend_chars, lowercase, lowercase_chars, seq_contains, slice_chars,
    starts_with, str_to_lowercase, str_trim, string_from_chars, trim,
};

pub use crate::ui::layout_utils::compute_scroll_offset;

verus! {

/// One undo checkpoint as listed by the undo modal.
#[derive(Debug, Clone)]
pub struct TurnCheckpointInfo {
    pub turn_id: usize,
    pub prompt: String,
    pub timestamp: String,
    pub time_ago: String,
    pub files: Vec<String>,
    pub is_latest: bool,
}

/// `path` with a leading `home` directory replaced by `~`.
pub open spec fn abbreviate_home_spec(path: Seq<char>, home: Option<Seq<char>>) -> Seq<char> {
    match home {
        Some(h) => if starts_with(path, h) {
            seq!['~'] + path.skip(h.len() as int)
        } else {
            path
        },
        None => path,
    }
}

/// Shows a path relative to the home directory (`/home/u/x` becomes `~/x`).
pub fn abbreviate_home(path: &str, home: Option<&str>) -> (r: String)
    ensures
        r@ == abbreviate_home_spec(
            path@,
            match home {
                Some(h) => Some(h@),
                None => None,
            },
        ),
{
    match home {
        Some(h) => {
            let p = chars_of(path);
            let hv = chars_of(h);
            if chars_starts_with(&p, &hv) {
                let mut r: Vec<char> = Vec::new();
                r.push('~');
                let rest = slice_chars(&p, hv.len(), p.len());
                extend_chars(&mut r, &rest);
                assert(r@ =~= seq!['~'] + path@.skip(h@.len() as int));
                string_from_chars(&r)
            } else {
                path.to_owned()
            }
        },
        None => path.to_owned(),
    }
}

/// Case-insensitive containment of an already lower-cased needle: ASCII text is compared
/// byte-wise after ASCII lower-casing, other text after Unicode lower-casing of the haystack.
/// A haystack with fewer UTF-8 bytes than the needle never matches.
pub open spec fn contains_ci_spec(haystack: Seq<char>, needle_lower: Seq<char>) -> bool {
    if needle_lower.len() == 0 {
        true
    } else if (encode_utf8(haystack).len() as usize) < (encode_utf8(needle_lower).len() as usize) {
        false
    } else if is_ascii_chars(haystack) && is_ascii_chars(needle_lower) {
        seq_contains(ascii_lower_seq(haystack), needle_lower)
    } else {
        seq_contains(lowercase(haystack), needle_lower)
    }
}

/// Case-insensitive substring search of `needle_lower` (already lower-cased) in `haystack`.
pub fn contains_ci(haystack: &str, needle_lower: &str) -> (b: bool)
    ensures
        b == contains_ci_spec(haystack@, needle_lower@),
{
    if needle_lower.is_empty() {
        return true;
    }
    if haystack.len() < needle_lower.len() {
        return false;
    }
    let n = chars_of(needle_lower);
    if haystack.is_ascii() && needle_lower.is_ascii() {
        let h = ascii_lower_chars(&chars_of(haystack));
        chars_contains(&h, &n)
    } else {
        let h = lowercase_chars(&chars_of(haystack));
        chars_contains(&h, &n)
    }
}

/// The filter text as the list filters compare it: trimmed and lower-cased.
pub open spec fn normalized_filter(filter: Seq<char>) -> Seq<char> {
    lowercase(trim(filter))
}

/// Trims and lower-cases a filter text.
pub fn normalize_filter(filter: &str) -> (r: String)
    ensures
        r@ == normalized_filter(filter@),
{
    let t = str_trim(filter);
    str_to_lowercase(t.as_str())
}

/// The selection index clamped to a list of length `len` (0 for an empty list), as the
/// modals do after refiltering: an index past the end moves to the last entry.
pub open spec fn clamp_selection(i: nat, len: nat) -> nat {
    if i >= len {
        if len > 0 {
            (len - 1) as nat
        } else {
            0
        }
    } else {
        i
    }
}

/// Clamps a selection index after refiltering.
pub fn clamp_selection_exec(i: usize, len: usize) -> (r: usize)
    ensures
        r == clamp_selection(i as nat, len as nat),
{
    if i >= len {
        if len > 0 {
            len - 1
        } else {
            0
        }
    } else {
        i
    }
}

/// `DateTime::parse_from_rfc3339` accepts the text.
pub uninterp spec fn rfc3339_valid(ts: Seq<char>) -> bool;

/// Whole seconds elapsed since an RFC 3339 timestamp: `chrono::DateTime::parse_from_rfc3339`,
/// then `Utc::now().signed_duration_since(..).num_seconds()`. `None` exactly when the text
/// does not parse (the name `rfc3339_valid`); the number of seconds depends on the clock
/// and nothing is stated of it.
#[verifier::external_body]
fn seconds_since(ts: &str) -> (r: Option<i64>)
    ensures
        r is Some <==> rfc3339_valid(ts@),
{
    match chrono::DateTime::parse_from_rfc3339(ts) {
        Ok(t) => Some(
            chrono::Utc::now().signed_duration_since(t.with_timezone(&chrono::Utc)).num_seconds(),
        ),
        Err(_) => None,
    }
}

/// Human-readable age of something `secs` seconds old (`5s ago`, `3m ago`, `2h ago`,
/// `4d ago`); ages under a second count as one second.
pub open spec fn time_ago_spec(secs: int) -> Seq<char> {
    if secs < 60 {
        decimal((if secs > 1 { secs } else { 1 }) as nat) + "s ago"@
    } else if secs < 3600 {
        decimal((secs / 60) as nat) + "m ago"@
    } else if secs < 86400 {
        decimal((secs / 3600) as nat) + "h ago"@
    } else {
        decimal((secs / 86400) as nat) + "d ago"@
    }
}

/// Formats an age in seconds.
pub fn time_ago_text(secs: i64) -> (r: String)
    ensures
        r@ == time_ago_spec(secs as int),
{
    let (n, unit): (u64, &str) = if secs < 60 {
        (if secs > 1 { secs as u64 } else { 1 }, "s ago")
    } else if secs < 3600 {
        ((secs / 60) as u64, "m ago")
    } else if secs < 86400 {
        ((secs / 3600) as u64, "h ago")
    } else {
        ((secs / 86400) as u64, "d ago")
    };
    let mut v = u64_to_decimal(n);
    extend_chars(&mut v, &chars_of(unit));
    string_from_chars(&v)
}

/// Relative age of an RFC 3339 timestamp, or `recently` when it does not parse.
pub fn format_time_ago(rfc3339_ts: &str) -> (r: String)
    ensures
        !rfc3339_valid(rfc3339_ts@) ==> r@ == "recently"@,
        rfc3339_valid(rfc3339_ts@) ==> exists|secs: i64| r@ == time_ago_spec(secs as int),
{
    match seconds_since(rfc3339_ts) {
        Some(secs) => time_ago_text(secs),
        None => "recently".to_owned(),
    }
}

} // verus!
