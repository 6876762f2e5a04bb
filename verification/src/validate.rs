use vstd::prelude::*;

use crate::errors::ErrorKind;
use crate::errors::TweakError;
use crate::text::chars_of;
use crate::text::contains_char;
use crate::text::contains_pair;
use crate::text::has_pair;
use crate::text::has_prefix;
use crate::text::is_prefix;
use crate::text::is_unicode_alphanumeric;
use crate::text::string_from_chars;
use crate::text::trim_chars;
use crate::text::trim_spec;

verus! {

/// Refuses process ids that must never be touched: 0 is not a real
/// process, and ids up to 4 belong to reserved system processes.
pub fn validate_process_id(pid: u32) -> (r: Result<u32, TweakError>)
    ensures
        pid == 0 ==> (r matches Err(e) && e.kind == ErrorKind::InvalidInput),
        0 < pid <= 4 ==> (r matches Err(e) && e.kind == ErrorKind::SecurityViolation),
        pid > 4 ==> r == Ok::<u32, TweakError>(pid),
{
    if pid == 0 {
        Err(TweakError::new(
            ErrorKind::InvalidInput,
            String::from_str("Invalid process id: 0 is not a process"),
        ))
    } else if pid <= 4 {
        Err(TweakError::new(
            ErrorKind::SecurityViolation,
            String::from_str("Refusing to touch a reserved system process"),
        ))
    } else {
        Ok(pid)
    }
}

/// A character a Windows service name may hold: a Unicode letter or
/// number, a dash, an underscore, or a space.
pub open spec fn service_name_char(c: char) -> bool {
    is_unicode_alphanumeric(c) || c == '-' || c == '_' || c == ' '
}

/// Accepts a service name made only of letters, digits, dashes,
/// underscores and spaces, 1 to 256 characters after trimming, and
/// returns it trimmed.
pub fn validate_service_name(name: &str) -> (r: Result<String, TweakError>)
    ensures
        ({
            let t = trim_spec(name@);
            &&& (r is Ok <==> ((forall|i: int| 0 <= i < t.len() ==> service_name_char(#[trigger] t[i]))
                && 1 <= t.len() <= 256))
            &&& (r matches Ok(out) ==> out@ == t)
            &&& (r matches Err(e) ==> e.kind == ErrorKind::InvalidInput)
        }),
{
    let raw = chars_of(name);
    let t = trim_chars(&raw);
    let mut i: usize = 0;
    while i < t.len()
        invariant
            i <= t@.len(),
            t@ == trim_spec(name@),
            forall|j: int| 0 <= j < i ==> service_name_char(#[trigger] t@[j]),
        decreases t@.len() - i,
    {
        let c = t[i];
        if !(c.is_alphanumeric() || c == '-' || c == '_' || c == ' ') {
            return Err(TweakError::new(
                ErrorKind::InvalidInput,
                String::from_str(
                    "Invalid service name: only letters, digits, dash, underscore and space are allowed",
                ),
            ));
        }
        i = i + 1;
    }
    if t.len() == 0 || t.len() > 256 {
        return Err(TweakError::new(
            ErrorKind::InvalidInput,
            String::from_str("A service name must be 1 to 256 characters long"),
        ));
    }
    Ok(string_from_chars(&t))
}

/// An ASCII letter, as a drive designator needs one.
pub open spec fn ascii_alpha(c: char) -> bool {
    ('a' <= c && c <= 'z') || ('A' <= c && c <= 'Z')
}

/// An absolute path under Windows rules: a drive letter with a root
/// separator, or a UNC path opening with two backslashes.
pub open spec fn is_windows_absolute(s: Seq<char>) -> bool {
    ||| (s.len() >= 3 && ascii_alpha(s[0]) && s[1] == ':' && (s[2] == '\\' || s[2] == '/'))
    ||| (s.len() >= 2 && s[0] == '\\' && s[1] == '\\')
}

/// An absolute path is only accepted under one of these roots.
pub open spec fn allowed_path_root(s: Seq<char>) -> bool {
    ||| is_prefix(s, "C:\\Users"@)
    ||| is_prefix(s, "C:\\ProgramData"@)
    ||| is_prefix(s, "C:\\Windows\\Temp"@)
}

/// Refuses a file path holding a traversal sequence (`..` or `//`), and an
/// absolute path outside the allowed roots (user profiles, ProgramData,
/// the Windows temp directory). An accepted path is returned unchanged.
pub fn validate_file_path(path: &str) -> (r: Result<String, TweakError>)
    ensures
        ({
            let s = path@;
            &&& (r is Ok <==> (!has_pair(s, '.', '.') && !has_pair(s, '/', '/') && (
            is_windows_absolute(s) ==> allowed_path_root(s))))
            &&& (r matches Ok(out) ==> out@ == s)
            &&& (r matches Err(e) ==> e.kind == ErrorKind::SecurityViolation)
        }),
{
    let v = chars_of(path);
    if contains_pair(&v, '.', '.') || contains_pair(&v, '/', '/') {
        return Err(TweakError::new(
            ErrorKind::SecurityViolation,
            String::from_str("Path traversal sequence detected"),
        ));
    }
    let absolute = if v.len() >= 3 {
        let c0 = v[0];
        let c1 = v[1];
        let c2 = v[2];
        (((c0 >= 'a' && c0 <= 'z') || (c0 >= 'A' && c0 <= 'Z')) && c1 == ':' && (c2 == '\\' || c2
            == '/')) || (c0 == '\\' && c1 == '\\')
    } else if v.len() >= 2 {
        v[0] == '\\' && v[1] == '\\'
    } else {
        false
    };
    if absolute {
        let allowed = has_prefix(&v, "C:\\Users") || has_prefix(&v, "C:\\ProgramData")
            || has_prefix(&v, "C:\\Windows\\Temp");
        if !allowed {
            return Err(TweakError::new(
                ErrorKind::SecurityViolation,
                String::from_str("Absolute path outside the allowed directories"),
            ));
        }
    }
    Ok(string_from_chars(&v))
}

/// Accepts a Discord token of 50 to 200 characters after trimming, free
/// of line breaks and NUL characters, and returns it trimmed. A token of
/// the wrong length is invalid input; one holding a control character is
/// a security violation.
pub fn validate_discord_token(token: &str) -> (r: Result<String, TweakError>)
    ensures
        ({
            let t = trim_spec(token@);
            &&& (r is Ok <==> (50 <= t.len() <= 200 && !t.contains('\n') && !t.contains('\r')
                && !t.contains('\0')))
            &&& (r matches Ok(out) ==> out@ == t)
            &&& (r matches Err(e) ==> e.kind == (if t.len() < 50 || t.len() > 200 {
                ErrorKind::InvalidInput
            } else {
                ErrorKind::SecurityViolation
            }))
        }),
{
    let raw = chars_of(token);
    let t = trim_chars(&raw);
    if t.len() == 0 {
        return Err(TweakError::new(
            ErrorKind::InvalidInput,
            String::from_str("A token must not be empty"),
        ));
    }
    if t.len() < 50 || t.len() > 200 {
        return Err(TweakError::new(
            ErrorKind::InvalidInput,
            String::from_str("Malformed token: unexpected length"),
        ));
    }
    if contains_char(&t, '\n') || contains_char(&t, '\r') || contains_char(&t, '\0') {
        return Err(TweakError::new(
            ErrorKind::SecurityViolation,
            String::from_str("A token must not hold control characters"),
        ));
    }
    Ok(string_from_chars(&t))
}

/// An ASCII digit.
pub open spec fn ascii_digit(c: char) -> bool {
    '0' <= c && c <= '9'
}

/// Accepts a Discord snowflake id: 1 to 20 ASCII digits after trimming,
/// returned trimmed.
pub fn validate_discord_id(id: &str) -> (r: Result<String, TweakError>)
    ensures
        ({
            let t = trim_spec(id@);
            &&& (r is Ok <==> ((forall|i: int| 0 <= i < t.len() ==> ascii_digit(#[trigger] t[i]))
                && 1 <= t.len() <= 20))
            &&& (r matches Ok(out) ==> out@ == t)
            &&& (r matches Err(e) ==> e.kind == ErrorKind::InvalidInput)
        }),
{
    let raw = chars_of(id);
    let t = trim_chars(&raw);
    let mut i: usize = 0;
    while i < t.len()
        invariant
            i <= t@.len(),
            t@ == trim_spec(id@),
            forall|j: int| 0 <= j < i ==> ascii_digit(#[trigger] t@[j]),
        decreases t@.len() - i,
    {
        let c = t[i];
        if !(c >= '0' && c <= '9') {
            return Err(TweakError::new(
                ErrorKind::InvalidInput,
                String::from_str("Malformed id: only digits are allowed"),
            ));
        }
        i = i + 1;
    }
    if t.len() == 0 || t.len() > 20 {
        return Err(TweakError::new(
            ErrorKind::InvalidInput,
            String::from_str("An id must be 1 to 20 digits long"),
        ));
    }
    Ok(string_from_chars(&t))
}

/// A registry path must open with one of the five hive designators.
pub open spec fn registry_hive_prefix(s: Seq<char>) -> bool {
    ||| is_prefix(s, "HKLM:"@)
    ||| is_prefix(s, "HKCU:"@)
    ||| is_prefix(s, "HKCR:"@)
    ||| is_prefix(s, "HKU:"@)
    ||| is_prefix(s, "HKCC:"@)
}

/// Refuses a registry path holding a traversal sequence (`..` or `//`) as
/// a security violation, and one that does not open with a known hive
/// designator (`HKLM:`, `HKCU:`, `HKCR:`, `HKU:`, `HKCC:`) as invalid
/// input. An accepted path is returned trimmed.
pub fn validate_registry_path(path: &str) -> (r: Result<String, TweakError>)
    ensures
        ({
            let t = trim_spec(path@);
            &&& (r is Ok <==> (!has_pair(t, '.', '.') && !has_pair(t, '/', '/')
                && registry_hive_prefix(t)))
            &&& (r matches Ok(out) ==> out@ == t)
            &&& (r matches Err(e) ==> e.kind == (if has_pair(t, '.', '.') || has_pair(t, '/', '/') {
                ErrorKind::SecurityViolation
            } else {
                ErrorKind::InvalidInput
            }))
        }),
{
    let raw = chars_of(path);
    let t = trim_chars(&raw);
    if contains_pair(&t, '.', '.') || contains_pair(&t, '/', '/') {
        return Err(TweakError::new(
            ErrorKind::SecurityViolation,
            String::from_str("Path traversal sequence detected"),
        ));
    }
    if !(has_prefix(&t, "HKLM:") || has_prefix(&t, "HKCU:") || has_prefix(&t, "HKCR:")
        || has_prefix(&t, "HKU:") || has_prefix(&t, "HKCC:")) {
        return Err(TweakError::new(
            ErrorKind::InvalidInput,
            String::from_str(
                "A registry path must open with HKLM:, HKCU:, HKCR:, HKU: or HKCC:",
            ),
        ));
    }
    Ok(string_from_chars(&t))
}

} // verus!
