use vstd::prelude::*;
use vstd::string::StringExecFns;

use crate::errors::ErrorKind;
use crate::errors::TweakError;
use crate::text::chars_of;
use crate::text::string_from_chars;
use crate::text::trim_spec;
use crate::validate::registry_hive_prefix;
use crate::validate::service_name_char;
use crate::validate::validate_process_id;
use crate::validate::validate_registry_path;
use crate::validate::validate_service_name;
use crate::text::contains_sub;
use crate::text::equals_str;
use crate::text::has_pair;
use crate::text::has_substring;

verus! {

// Every host operation is one fixed PowerShell template with validated
// parameters spliced in. The builders here own that splicing: no call
// site assembles command text ad hoc, and nothing reaches a template
// without passing its validator first.

/// The digit characters of `n` in decimal.
pub open spec fn dec_spec(n: nat) -> Seq<char>
    decreases n,
{
    if n < 10 {
        seq!["0123456789"@[n as int]]
    } else {
        dec_spec(n / 10).push("0123456789"@[(n % 10) as int])
    }
}

fn digit_char(d: u32) -> (c: char)
    requires
        d < 10,
    ensures
        c == "0123456789"@[d as int],
{
    let digits = chars_of("0123456789");
    proof {
        reveal_strlit("0123456789");
    }
    digits[d as usize]
}

/// The decimal rendering of `n`.
pub fn u32_to_decimal(n: u32) -> (s: Vec<char>)
    ensures
        s@ == dec_spec(n as nat),
    decreases n,
{
    if n < 10 {
        let mut s: Vec<char> = Vec::new();
        s.push(digit_char(n));
        s
    } else {
        let mut s = u32_to_decimal(n / 10);
        s.push(digit_char(n % 10));
        s
    }
}

fn append_str(out: &mut Vec<char>, p: &str)
    ensures
        final(out)@ == old(out)@ + p@,
{
    let pc = chars_of(p);
    let ghost base = out@;
    let mut i: usize = 0;
    while i < pc.len()
        invariant
            i <= pc@.len(),
            pc@ == p@,
            out@ == base + pc@.subrange(0, i as int),
        decreases pc@.len() - i,
    {
        out.push(pc[i]);
        proof {
            assert(pc@.subrange(0, i as int + 1) =~= pc@.subrange(0, i as int).push(
                pc@[i as int],
            ));
        }
        i = i + 1;
    }
    proof {
        assert(pc@.subrange(0, pc@.len() as int) =~= pc@);
    }
}

/// The script that starts a service, with its validated name spliced
/// into the three template slots.
pub open spec fn start_service_template(name: Seq<char>) -> Seq<char> {
    "\n        try {\n            Start-Service -Name \""@ + name
        + "\" -ErrorAction Stop\n            \"Service "@ + name
        + " started successfully\"\n        } catch {\n            \"Failed to start service "@
        + name + ": \" + $_.Exception.Message\n        }\n        "@
}

/// The script that stops a service.
pub open spec fn stop_service_template(name: Seq<char>) -> Seq<char> {
    "\n        try {\n            Stop-Service -Name \""@ + name
        + "\" -ErrorAction Stop\n            \"Service "@ + name
        + " stopped successfully\"\n        } catch {\n            \"Failed to stop service "@
        + name + ": \" + $_.Exception.Message\n        }\n        "@
}

/// The script that reports a service's status as compact JSON, with a
/// NotFound shape when the service does not exist.
pub open spec fn service_status_template(name: Seq<char>) -> Seq<char> {
    "\n        try {\n            $service = Get-Service -Name \""@ + name
        + "\" -ErrorAction Stop\n            @{Status = $service.Status.ToString(); Name = $service.Name} | ConvertTo-Json -Compress\n        } catch {\n            @{Status = \"NotFound\"; Name = \""@
        + name + "\"} | ConvertTo-Json -Compress\n        }\n        "@
}

/// Builds the start-service script for a validated service name; an
/// invalid name is refused exactly as the validator refuses it.
pub fn start_service_command(service_name: &str) -> (r: Result<String, TweakError>)
    ensures
        ({
            let t = trim_spec(service_name@);
            let valid = (forall|i: int| 0 <= i < t.len() ==> service_name_char(#[trigger] t[i]))
                && 1 <= t.len() <= 256;
            &&& (r is Ok <==> valid)
            &&& (r matches Ok(cmd) ==> cmd@ == start_service_template(t))
            &&& (r matches Err(e) ==> e.kind == ErrorKind::InvalidInput)
        }),
{
    let name = match validate_service_name(service_name) {
        Ok(n) => n,
        Err(e) => {
            return Err(e);
        },
    };
    let mut out: Vec<char> = Vec::new();
    append_str(&mut out, "\n        try {\n            Start-Service -Name \"");
    append_str(&mut out, name.as_str());
    append_str(&mut out, "\" -ErrorAction Stop\n            \"Service ");
    append_str(&mut out, name.as_str());
    append_str(
        &mut out,
        " started successfully\"\n        } catch {\n            \"Failed to start service ",
    );
    append_str(&mut out, name.as_str());
    append_str(&mut out, ": \" + $_.Exception.Message\n        }\n        ");
    Ok(string_from_chars(&out))
}

/// Builds the stop-service script for a validated service name.
pub fn stop_service_command(service_name: &str) -> (r: Result<String, TweakError>)
    ensures
        ({
            let t = trim_spec(service_name@);
            let valid = (forall|i: int| 0 <= i < t.len() ==> service_name_char(#[trigger] t[i]))
                && 1 <= t.len() <= 256;
            &&& (r is Ok <==> valid)
            &&& (r matches Ok(cmd) ==> cmd@ == stop_service_template(t))
            &&& (r matches Err(e) ==> e.kind == ErrorKind::InvalidInput)
        }),
{
    let name = match validate_service_name(service_name) {
        Ok(n) => n,
        Err(e) => {
            return Err(e);
        },
    };
    let mut out: Vec<char> = Vec::new();
    append_str(&mut out, "\n        try {\n            Stop-Service -Name \"");
    append_str(&mut out, name.as_str());
    append_str(&mut out, "\" -ErrorAction Stop\n            \"Service ");
    append_str(&mut out, name.as_str());
    append_str(
        &mut out,
        " stopped successfully\"\n        } catch {\n            \"Failed to stop service ",
    );
    append_str(&mut out, name.as_str());
    append_str(&mut out, ": \" + $_.Exception.Message\n        }\n        ");
    Ok(string_from_chars(&out))
}

/// Builds the service-status script for a validated service name.
pub fn service_status_command(service_name: &str) -> (r: Result<String, TweakError>)
    ensures
        ({
            let t = trim_spec(service_name@);
            let valid = (forall|i: int| 0 <= i < t.len() ==> service_name_char(#[trigger] t[i]))
                && 1 <= t.len() <= 256;
            &&& (r is Ok <==> valid)
            &&& (r matches Ok(cmd) ==> cmd@ == service_status_template(t))
            &&& (r matches Err(e) ==> e.kind == ErrorKind::InvalidInput)
        }),
{
    let name = match validate_service_name(service_name) {
        Ok(n) => n,
        Err(e) => {
            return Err(e);
        },
    };
    let mut out: Vec<char> = Vec::new();
    append_str(&mut out, "\n        try {\n            $service = Get-Service -Name \"");
    append_str(&mut out, name.as_str());
    append_str(
        &mut out,
        "\" -ErrorAction Stop\n            @{Status = $service.Status.ToString(); Name = $service.Name} | ConvertTo-Json -Compress\n        } catch {\n            @{Status = \"NotFound\"; Name = \"",
    );
    append_str(&mut out, name.as_str());
    append_str(&mut out, "\"} | ConvertTo-Json -Compress\n        }\n        ");
    Ok(string_from_chars(&out))
}

/// The script that force-stops a process by id.
pub open spec fn kill_process_template(pid: nat) -> Seq<char> {
    "Stop-Process -Id "@ + dec_spec(pid) + " -Force; \"Process killed successfully\""@
}

/// Builds the force-stop script for a validated process id: 0 and the
/// reserved system ids are refused exactly as the validator refuses
/// them.
pub fn kill_process_command(process_id: u32) -> (r: Result<String, TweakError>)
    ensures
        process_id == 0 ==> (r matches Err(e) && e.kind == ErrorKind::InvalidInput),
        0 < process_id <= 4 ==> (r matches Err(e) && e.kind == ErrorKind::SecurityViolation),
        process_id > 4 ==> (r matches Ok(cmd) && cmd@ == kill_process_template(
            process_id as nat,
        )),
{
    let pid = match validate_process_id(process_id) {
        Ok(p) => p,
        Err(e) => {
            return Err(e);
        },
    };
    let mut out: Vec<char> = Vec::new();
    append_str(&mut out, "Stop-Process -Id ");
    let digits = u32_to_decimal(pid);
    let ghost mid = out@;
    let mut i: usize = 0;
    while i < digits.len()
        invariant
            i <= digits@.len(),
            out@ == mid + digits@.subrange(0, i as int),
        decreases digits@.len() - i,
    {
        out.push(digits[i]);
        proof {
            assert(digits@.subrange(0, i as int + 1) =~= digits@.subrange(0, i as int).push(
                digits@[i as int],
            ));
        }
        i = i + 1;
    }
    proof {
        assert(digits@.subrange(0, digits@.len() as int) =~= digits@);
    }
    append_str(&mut out, " -Force; \"Process killed successfully\"");
    Ok(string_from_chars(&out))
}

/// The script that reads one registry value.
pub open spec fn read_registry_template(reg_path: Seq<char>, name: Seq<char>) -> Seq<char> {
    "Get-ItemProperty -Path \""@ + reg_path + "\" -Name \""@ + name
        + "\" -ErrorAction SilentlyContinue | Select-Object -ExpandProperty \""@ + name + "\""@
}

/// Builds the registry-read script for a hive, key path and value name:
/// the combined `hive:path` must pass the registry-path validator, and
/// the script addresses the key as `hive:\path`.
pub fn read_registry_command(hive: &str, path: &str, name: &str) -> (r: Result<
    String,
    TweakError,
>)
    ensures
        ({
            let combined = hive@ + ":"@ + path@;
            let t = trim_spec(combined);
            let valid = !has_pair(t, '.', '.') && !has_pair(t, '/', '/') && registry_hive_prefix(
                t,
            );
            &&& (r is Ok <==> valid)
            &&& (r matches Ok(cmd) ==> cmd@ == read_registry_template(
                hive@ + ":\\"@ + path@,
                name@,
            ))
            &&& (r matches Err(e) ==> e.kind == (if has_pair(t, '.', '.') || has_pair(
                t,
                '/',
                '/',
            ) {
                ErrorKind::SecurityViolation
            } else {
                ErrorKind::InvalidInput
            }))
        }),
{
    let combined = hive.to_owned().concat(":").concat(path);
    match validate_registry_path(combined.as_str()) {
        Ok(_) => {},
        Err(e) => {
            return Err(e);
        },
    }
    let mut out: Vec<char> = Vec::new();
    append_str(&mut out, "Get-ItemProperty -Path \"");
    append_str(&mut out, hive);
    append_str(&mut out, ":\\");
    append_str(&mut out, path);
    append_str(&mut out, "\" -Name \"");
    append_str(&mut out, name);
    append_str(&mut out, "\" -ErrorAction SilentlyContinue | Select-Object -ExpandProperty \"");
    append_str(&mut out, name);
    append_str(&mut out, "\"");
    Ok(string_from_chars(&out))
}

/// The script that restarts a service.
pub open spec fn restart_service_template(name: Seq<char>) -> Seq<char> {
    "\n        try {\n            Restart-Service -Name \""@ + name
        + "\" -ErrorAction Stop\n            \"Service "@ + name
        + " restarted successfully\"\n        } catch {\n            \"Failed to restart service "@
        + name + ": \" + $_.Exception.Message\n        }\n        "@
}

/// Builds the restart-service script for a validated service name.
pub fn restart_service_command(service_name: &str) -> (r: Result<String, TweakError>)
    ensures
        ({
            let t = trim_spec(service_name@);
            let valid = (forall|i: int| 0 <= i < t.len() ==> service_name_char(#[trigger] t[i]))
                && 1 <= t.len() <= 256;
            &&& (r is Ok <==> valid)
            &&& (r matches Ok(cmd) ==> cmd@ == restart_service_template(t))
            &&& (r matches Err(e) ==> e.kind == ErrorKind::InvalidInput)
        }),
{
    let name = match validate_service_name(service_name) {
        Ok(n) => n,
        Err(e) => {
            return Err(e);
        },
    };
    let mut out: Vec<char> = Vec::new();
    append_str(&mut out, "\n        try {\n            Restart-Service -Name \"");
    append_str(&mut out, name.as_str());
    append_str(&mut out, "\" -ErrorAction Stop\n            \"Service ");
    append_str(&mut out, name.as_str());
    append_str(
        &mut out,
        " restarted successfully\"\n        } catch {\n            \"Failed to restart service ",
    );
    append_str(&mut out, name.as_str());
    append_str(&mut out, ": \" + $_.Exception.Message\n        }\n        ");
    Ok(string_from_chars(&out))
}

/// A startup type the service manager accepts.
pub open spec fn valid_startup_type(t: Seq<char>) -> bool {
    t == "Automatic"@ || t == "Manual"@ || t == "Disabled"@
}

/// The script that changes a service's startup type.
pub open spec fn startup_type_template(name: Seq<char>, startup: Seq<char>) -> Seq<char> {
    "\n        try {\n            Set-Service -Name \""@ + name + "\" -StartupType "@ + startup
        + " -ErrorAction Stop\n            \"Service "@ + name + " startup type changed to "@
        + startup
        + "\"\n        } catch {\n            \"Failed to change startup type for service "@
        + name + ": \" + $_.Exception.Message\n        }\n        "@
}

/// Builds the script that changes a service's startup type: the name
/// must pass the service-name validator and the type must be exactly
/// `Automatic`, `Manual` or `Disabled`.
pub fn set_service_startup_type_command(service_name: &str, startup_type: &str) -> (r: Result<
    String,
    TweakError,
>)
    ensures
        ({
            let t = trim_spec(service_name@);
            let name_ok = (forall|i: int| 0 <= i < t.len() ==> service_name_char(#[trigger] t[i]))
                && 1 <= t.len() <= 256;
            &&& (r is Ok <==> (name_ok && valid_startup_type(startup_type@)))
            &&& (r matches Ok(cmd) ==> cmd@ == startup_type_template(t, startup_type@))
            &&& (r matches Err(e) ==> e.kind == ErrorKind::InvalidInput)
        }),
{
    let name = match validate_service_name(service_name) {
        Ok(n) => n,
        Err(e) => {
            return Err(e);
        },
    };
    let st = chars_of(startup_type);
    if !(equals_str(&st, "Automatic") || equals_str(&st, "Manual")
        || equals_str(&st, "Disabled")) {
        return Err(TweakError::new(
            ErrorKind::InvalidInput,
            String::from_str("The startup type must be Automatic, Manual or Disabled"),
        ));
    }
    let mut out: Vec<char> = Vec::new();
    append_str(&mut out, "\n        try {\n            Set-Service -Name \"");
    append_str(&mut out, name.as_str());
    append_str(&mut out, "\" -StartupType ");
    append_str(&mut out, startup_type);
    append_str(&mut out, " -ErrorAction Stop\n            \"Service ");
    append_str(&mut out, name.as_str());
    append_str(&mut out, " startup type changed to ");
    append_str(&mut out, startup_type);
    append_str(
        &mut out,
        "\"\n        } catch {\n            \"Failed to change startup type for service ",
    );
    append_str(&mut out, name.as_str());
    append_str(&mut out, ": \" + $_.Exception.Message\n        }\n        ");
    Ok(string_from_chars(&out))
}

/// How a DNS-flush run's output is read: a success marker wins, an
/// explicit failure marker turns the output into an error, and output
/// with neither is passed through as success.
pub fn flush_dns_verdict(result: &str) -> (r: Result<String, TweakError>)
    ensures
        ({
            let s = result@;
            let succeeded = has_substring(s, "successfully"@) || has_substring(s, "ba\u{15f}ar\u{131}yla"@);
            let failed = has_substring(s, "failed"@) || has_substring(s, "hata"@) || has_substring(
                s,
                "Error"@,
            );
            &&& (succeeded ==> (r matches Ok(out) && out@ == s))
            &&& (!succeeded && failed ==> (r matches Err(e) && e.kind == ErrorKind::Generic
                && e.message@ == s))
            &&& (!succeeded && !failed ==> (r matches Ok(out) && out@ == s))
        }),
{
    let v = chars_of(result);
    if contains_sub(&v, "successfully") || contains_sub(&v, "ba\u{15f}ar\u{131}yla") {
        return Ok(result.to_owned());
    }
    if contains_sub(&v, "failed") || contains_sub(&v, "hata") || contains_sub(&v, "Error") {
        return Err(TweakError::new(ErrorKind::Generic, result.to_owned()));
    }
    Ok(result.to_owned())
}

/// The fixed scheme ids `powercfg` knows: high performance and
/// balanced.
pub open spec fn power_plan_guid(high_performance: bool) -> Seq<char> {
    if high_performance {
        "8c5e7fda-e8bf-4a96-9a85-a6e23a8c635c"@
    } else {
        "381b4222-f694-41f0-9685-ff5bb260df2e"@
    }
}

/// Builds the script that activates the high-performance or the
/// balanced power scheme.
pub fn power_plan_command(high_performance: bool) -> (r: String)
    ensures
        r@ == "powercfg /setactive "@ + power_plan_guid(high_performance)
            + "; \"Power plan set successfully\""@,
{
    let mut out: Vec<char> = Vec::new();
    append_str(&mut out, "powercfg /setactive ");
    if high_performance {
        append_str(&mut out, "8c5e7fda-e8bf-4a96-9a85-a6e23a8c635c");
    } else {
        append_str(&mut out, "381b4222-f694-41f0-9685-ff5bb260df2e");
    }
    append_str(&mut out, "; \"Power plan set successfully\"");
    string_from_chars(&out)
}

/// How one character appears inside a double-quoted PowerShell string:
/// a double quote gains a backtick escape, everything else stays
/// itself.
pub open spec fn dquote_rep(c: char) -> Seq<char> {
    if c == '"' {
        seq!['`', '"']
    } else {
        seq![c]
    }
}

/// `s` with every double quote backtick-escaped.
pub open spec fn escape_dquotes(s: Seq<char>) -> Seq<char>
    decreases s.len(),
{
    if s.len() == 0 {
        Seq::empty()
    } else {
        escape_dquotes(s.drop_last()) + dquote_rep(s.last())
    }
}

fn escape_dquotes_exec(v: &Vec<char>) -> (out: Vec<char>)
    ensures
        out@ == escape_dquotes(v@),
{
    let mut out: Vec<char> = Vec::new();
    let mut i: usize = 0;
    while i < v.len()
        invariant
            i <= v@.len(),
            out@ == escape_dquotes(v@.subrange(0, i as int)),
        decreases v@.len() - i,
    {
        let c = v[i];
        if c == '"' {
            out.push('`');
            out.push('"');
        } else {
            out.push(c);
        }
        proof {
            let pre = v@.subrange(0, i as int + 1);
            assert(pre.drop_last() =~= v@.subrange(0, i as int));
            assert(pre.last() == v@[i as int]);
            assert(out@ =~= escape_dquotes(pre.drop_last()) + dquote_rep(pre.last()));
        }
        i = i + 1;
    }
    proof {
        assert(v@.subrange(0, v@.len() as int) =~= v@);
    }
    out
}

/// The script that creates a registry key if needed and writes one
/// value under it.
pub open spec fn write_registry_template(
    reg_path: Seq<char>,
    name: Seq<char>,
    escaped_value: Seq<char>,
) -> Seq<char> {
    "New-Item -Path \""@ + reg_path + "\" -Force | Out-Null; Set-ItemProperty -Path \""@
        + reg_path + "\" -Name \""@ + name + "\" -Value \""@ + escaped_value
        + "\"; \"Registry value written successfully\""@
}

/// Builds the registry-write script: the combined `hive:path` must pass
/// the registry-path validator, the value may hold at most 10000
/// characters, and every double quote in it is backtick-escaped before
/// it is spliced in.
pub fn write_registry_command(hive: &str, path: &str, name: &str, value: &str) -> (r: Result<
    String,
    TweakError,
>)
    ensures
        ({
            let combined = hive@ + ":"@ + path@;
            let t = trim_spec(combined);
            let path_ok = !has_pair(t, '.', '.') && !has_pair(t, '/', '/') && registry_hive_prefix(
                t,
            );
            &&& (r is Ok <==> (path_ok && value@.len() <= 10000))
            &&& (r matches Ok(cmd) ==> cmd@ == write_registry_template(
                hive@ + ":\\"@ + path@,
                name@,
                escape_dquotes(value@),
            ))
            &&& (path_ok && value@.len() > 10000 ==> (r matches Err(e) && e.kind
                == ErrorKind::InvalidInput))
            &&& (!path_ok ==> (r matches Err(e) && e.kind == (if has_pair(t, '.', '.')
                || has_pair(t, '/', '/') {
                ErrorKind::SecurityViolation
            } else {
                ErrorKind::InvalidInput
            })))
        }),
{
    let combined = hive.to_owned().concat(":").concat(path);
    match validate_registry_path(combined.as_str()) {
        Ok(_) => {},
        Err(e) => {
            return Err(e);
        },
    }
    let value_chars = chars_of(value);
    if value_chars.len() > 10000 {
        return Err(TweakError::new(
            ErrorKind::InvalidInput,
            String::from_str("The registry value is too long (at most 10000 characters)"),
        ));
    }
    let escaped = escape_dquotes_exec(&value_chars);
    let mut out: Vec<char> = Vec::new();
    append_str(&mut out, "New-Item -Path \"");
    append_str(&mut out, hive);
    append_str(&mut out, ":\\");
    append_str(&mut out, path);
    append_str(&mut out, "\" -Force | Out-Null; Set-ItemProperty -Path \"");
    append_str(&mut out, hive);
    append_str(&mut out, ":\\");
    append_str(&mut out, path);
    append_str(&mut out, "\" -Name \"");
    append_str(&mut out, name);
    append_str(&mut out, "\" -Value \"");
    let ghost mid = out@;
    let mut i: usize = 0;
    while i < escaped.len()
        invariant
            i <= escaped@.len(),
            out@ == mid + escaped@.subrange(0, i as int),
        decreases escaped@.len() - i,
    {
        out.push(escaped[i]);
        proof {
            assert(escaped@.subrange(0, i as int + 1) =~= escaped@.subrange(0, i as int).push(
                escaped@[i as int],
            ));
        }
        i = i + 1;
    }
    proof {
        assert(escaped@.subrange(0, escaped@.len() as int) =~= escaped@);
    }
    append_str(&mut out, "\"; \"Registry value written successfully\"");
    Ok(string_from_chars(&out))
}

} // verus!
