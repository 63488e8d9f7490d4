//! The few points where the shell touches the world outside its own state:
//! the clock, the account name, the pictures directory, the formatted local
//! time, and single-character edits of a `String`.

use std::fmt::Write;
use vstd::prelude::*;

verus! {

/// Relies on std::time::SystemTime::now together with
/// SystemTime::duration_since(UNIX_EPOCH): the milliseconds elapsed since the
/// Unix epoch, read from the system clock. Nothing is promised of the value;
/// every caller takes it as an argument and is verified for every value.
#[verifier::external_body]
pub(crate) fn now_millis() -> u64 {
    std::time::SystemTime::now()
        .duration_since(std::time::SystemTime::UNIX_EPOCH)
        .map(|d| d.as_millis() as u64)
        .unwrap_or(0)
}

/// Relies on whoami::username: the name of the account the process runs
/// under, if the system reports one. The value depends on the environment,
/// so nothing is promised of it.
#[verifier::external_body]
pub(crate) fn fetch_username() -> Option<String> {
    whoami::username().ok()
}

/// Relies on dirs::picture_dir: the platform pictures directory, if the
/// system reports one. The value depends on the environment, so nothing is
/// promised of it.
#[verifier::external_body]
pub(crate) fn picture_directory() -> Option<String> {
    dirs::picture_dir().and_then(|p| p.into_os_string().into_string().ok())
}

/// Relies on chrono::DateTime::from_timestamp_millis, DateTime::with_timezone
/// and DateTime::format: the current local time rendered through the given
/// strftime-style pattern. Returns `None` when the system clock reads before
/// the Unix epoch or past chrono's date range (both checked, never panicking)
/// or when the pattern is invalid (DelayedFormat reports that as an error,
/// not a panic). The value depends on the clock and the time zone, so nothing
/// is promised of it.
#[verifier::external_body]
pub(crate) fn format_local_now(pattern: &str) -> Option<String> {
    let millis = std::time::SystemTime::now()
        .duration_since(std::time::SystemTime::UNIX_EPOCH)
        .ok()?
        .as_millis();
    let utc = chrono::DateTime::from_timestamp_millis(i64::try_from(millis).ok()?)?;
    let mut out = String::new();
    match write!(out, "{}", utc.with_timezone(&chrono::Local).format(pattern)) {
        Ok(()) => Some(out),
        Err(_) => None,
    }
}

/// Relies on String::push: appends exactly the given character.
#[verifier::external_body]
pub(crate) fn string_push(s: &mut String, c: char)
    ensures
        final(s)@ == old(s)@.push(c),
{
    s.push(c)
}

/// Relies on String::pop: removes and returns the last character, or returns
/// `None` when the string is empty.
#[verifier::external_body]
pub(crate) fn string_pop(s: &mut String) -> (r: Option<char>)
    ensures
        old(s)@.len() == 0 ==> r is None && final(s)@ == old(s)@,
        old(s)@.len() > 0 ==> r == Some(old(s)@.last())
            && final(s)@ == old(s)@.drop_last(),
{
    s.pop()
}

} // verus!
