use vstd::prelude::*;

use crate::text::chars_of;
use crate::text::contains_sub;
use crate::text::equals_str;
use crate::text::has_substring;

verus! {

// Everything here decides on plain values: process names are handed in
// by the caller, lowercasing is the string library's, and the one
// timing probe is reduced to a verdict on the measured numbers. The
// native debugger queries need a platform API that is not wired in, so
// their portable forms report nothing found.

/// The Unicode lowercase form of the text, as `str::to_lowercase`
/// yields it; it depends on the characters alone.
pub uninterp spec fn lower_of(s: Seq<char>) -> Seq<char>;

/// Relies on str::to_lowercase: the result depends on the characters
/// alone.
#[verifier::external_body]
fn lowercase(s: &str) -> (r: String)
    ensures
        r@ == lower_of(s@),
{
    s.to_lowercase()
}

#[verifier::external_type_specification]
#[verifier::external_body]
pub struct ExInstant(std::time::Instant);

/// Relies on std::time::Instant::now: an opaque reading of the
/// monotonic clock.
#[verifier::external_body]
fn timer_start() -> (t: std::time::Instant) {
    std::time::Instant::now()
}

/// Relies on std::time::Instant::elapsed: the whole milliseconds since
/// the reading was taken. The result depends on the clock.
#[verifier::external_body]
fn timer_elapsed_ms(t: &std::time::Instant) -> (ms: u64) {
    t.elapsed().as_millis() as u64
}

/// A name fragment whose presence in a parent process name marks a
/// debugging or tampering tool.
pub open spec fn suspicious_parent_fragment_found(low: Seq<char>) -> bool {
    ||| has_substring(low, "cheatengine"@)
    ||| has_substring(low, "x64dbg"@)
    ||| has_substring(low, "x32dbg"@)
    ||| has_substring(low, "ollydbg"@)
    ||| has_substring(low, "windbg"@)
    ||| has_substring(low, "ida"@)
    ||| has_substring(low, "scylla"@)
    ||| has_substring(low, "protection_id"@)
    ||| has_substring(low, "reshacker"@)
    ||| has_substring(low, "importrec"@)
    ||| has_substring(low, "immunitydebugger"@)
    ||| has_substring(low, "devenv"@)
}

/// Whether the parent process name, lowercased, holds a known debugger
/// tool fragment.
pub fn check_parent_process(parent_name: &str) -> (r: bool)
    ensures
        r == suspicious_parent_fragment_found(lower_of(parent_name@)),
{
    let low = lowercase(parent_name);
    let v = chars_of(low.as_str());
    contains_sub(&v, "cheatengine") || contains_sub(&v, "x64dbg") || contains_sub(&v, "x32dbg")
        || contains_sub(&v, "ollydbg") || contains_sub(&v, "windbg") || contains_sub(&v, "ida")
        || contains_sub(&v, "scylla") || contains_sub(&v, "protection_id") || contains_sub(
        &v,
        "reshacker",
    ) || contains_sub(&v, "importrec") || contains_sub(&v, "immunitydebugger") || contains_sub(
        &v,
        "devenv",
    )
}

/// A process name that, lowercased, is exactly one of the known
/// debugging and inspection tools.
pub open spec fn suspicious_process_name(low: Seq<char>) -> bool {
    ||| low == "cheatengine-x86_64.exe"@
    ||| low == "cheatengine-x86_64-sse4-avx2.exe"@
    ||| low == "cheatengine.exe"@
    ||| low == "x64dbg.exe"@
    ||| low == "x32dbg.exe"@
    ||| low == "ollydbg.exe"@
    ||| low == "windbg.exe"@
    ||| low == "ida.exe"@
    ||| low == "ida64.exe"@
    ||| low == "idaq.exe"@
    ||| low == "idaq64.exe"@
    ||| low == "scylla_x64.exe"@
    ||| low == "scylla_x86.exe"@
    ||| low == "protection_id.exe"@
    ||| low == "reshacker.exe"@
    ||| low == "importrec.exe"@
    ||| low == "immunitydebugger.exe"@
    ||| low == "fiddler.exe"@
    ||| low == "wireshark.exe"@
    ||| low == "processhacker.exe"@
    ||| low == "procexp.exe"@
    ||| low == "procexp64.exe"@
}

fn name_is_suspicious_process(name: &str) -> (r: bool)
    ensures
        r == suspicious_process_name(lower_of(name@)),
{
    let low = lowercase(name);
    let v = chars_of(low.as_str());
    equals_str(&v, "cheatengine-x86_64.exe") || equals_str(&v, "cheatengine-x86_64-sse4-avx2.exe")
        || equals_str(&v, "cheatengine.exe") || equals_str(&v, "x64dbg.exe") || equals_str(
        &v,
        "x32dbg.exe",
    ) || equals_str(&v, "ollydbg.exe") || equals_str(&v, "windbg.exe") || equals_str(&v, "ida.exe")
        || equals_str(&v, "ida64.exe") || equals_str(&v, "idaq.exe") || equals_str(&v, "idaq64.exe")
        || equals_str(&v, "scylla_x64.exe") || equals_str(&v, "scylla_x86.exe") || equals_str(
        &v,
        "protection_id.exe",
    ) || equals_str(&v, "reshacker.exe") || equals_str(&v, "importrec.exe") || equals_str(
        &v,
        "immunitydebugger.exe",
    ) || equals_str(&v, "fiddler.exe") || equals_str(&v, "wireshark.exe") || equals_str(
        &v,
        "processhacker.exe",
    ) || equals_str(&v, "procexp.exe") || equals_str(&v, "procexp64.exe")
}

/// Whether any of the given running-process names is a known debugging
/// or inspection tool.
pub fn check_suspicious_processes(names: &Vec<String>) -> (r: bool)
    ensures
        r == (exists|i: int|
            0 <= i < names@.len() && suspicious_process_name(lower_of(
                (#[trigger] names@[i])@,
            ))),
{
    let mut i: usize = 0;
    while i < names.len()
        invariant
            i <= names@.len(),
            forall|j: int|
                0 <= j < i ==> !suspicious_process_name(lower_of((#[trigger] names@[j])@)),
        decreases names@.len() - i,
    {
        if name_is_suspicious_process(names[i].as_str()) {
            return true;
        }
        i = i + 1;
    }
    false
}

/// A name fragment marking a virtual-machine vendor.
pub open spec fn vm_fragment_found(low: Seq<char>) -> bool {
    ||| has_substring(low, "vmware"@)
    ||| has_substring(low, "vbox"@)
    ||| has_substring(low, "virtualbox"@)
    ||| has_substring(low, "qemu"@)
    ||| has_substring(low, "xen"@)
    ||| has_substring(low, "hyper-v"@)
    ||| has_substring(low, "parallels"@)
}

fn name_has_vm_fragment(name: &str) -> (r: bool)
    ensures
        r == vm_fragment_found(lower_of(name@)),
{
    let low = lowercase(name);
    let v = chars_of(low.as_str());
    contains_sub(&v, "vmware") || contains_sub(&v, "vbox") || contains_sub(&v, "virtualbox")
        || contains_sub(&v, "qemu") || contains_sub(&v, "xen") || contains_sub(&v, "hyper-v")
        || contains_sub(&v, "parallels")
}

/// Whether the process names or the reported BIOS vendor point at a
/// virtual machine.
pub fn is_vm(process_names: &Vec<String>, bios_vendor: Option<&str>) -> (r: bool)
    ensures
        r == ((exists|i: int|
            0 <= i < process_names@.len() && vm_fragment_found(lower_of(
                (#[trigger] process_names@[i])@,
            ))) || (bios_vendor matches Some(v) && vm_fragment_found(lower_of(v@)))),
{
    let mut i: usize = 0;
    while i < process_names.len()
        invariant
            i <= process_names@.len(),
            forall|j: int|
                0 <= j < i ==> !vm_fragment_found(lower_of((#[trigger] process_names@[j])@)),
        decreases process_names@.len() - i,
    {
        if name_has_vm_fragment(process_names[i].as_str()) {
            return true;
        }
        i = i + 1;
    }
    match bios_vendor {
        Some(v) => name_has_vm_fragment(v),
        None => false,
    }
}

/// Whether a native debugger is attached. The platform query is not
/// wired in, so nothing is ever found.
pub fn is_debugger_present() -> (r: bool)
    ensures
        !r,
{
    false
}

/// Whether a hardware breakpoint is set in a debug register. The
/// platform query is not wired in, so nothing is ever found.
pub fn check_hardware_breakpoints() -> (r: bool)
    ensures
        !r,
{
    false
}

/// The timing check's decision: when the counting loop needed more
/// than ten milliseconds, or its checksum is zero, the process is
/// deemed slowed down by a debugger.
pub fn timing_verdict(elapsed_ms: u64, checksum: u64) -> (r: bool)
    ensures
        r == (elapsed_ms > 10 || checksum == 0),
{
    elapsed_ms > 10 || checksum == 0
}

/// Runs the timing check: a thousand-step counting loop under the
/// monotonic clock, with `timing_verdict` deciding. What it returns
/// depends on how fast the machine ran the loop.
pub fn check_timing_anomaly() -> bool {
    let start = timer_start();
    let mut sum: u64 = 0;
    let mut i: u64 = 0;
    while i < 1000
        invariant
            i <= 1000,
            sum <= i * 1000,
            i >= 2 ==> sum >= 1,
        decreases 1000 - i,
    {
        sum = sum + i;
        i = i + 1;
    }
    let elapsed = timer_elapsed_ms(&start);
    timing_verdict(elapsed, sum)
}

/// The outcome of every debugger check at one moment, and the combined
/// verdict.
pub struct DebugCheckResult {
    pub is_debugged: bool,
    pub debugger_present: bool,
    pub timing_anomaly: bool,
    pub suspicious_parent: bool,
    pub suspicious_process: bool,
    pub hardware_breakpoint: bool,
}

/// Combines the individual check outcomes: any single detection marks
/// the process as debugged.
pub fn combine_debug_checks(
    debugger_present: bool,
    timing_anomaly: bool,
    suspicious_parent: bool,
    suspicious_process: bool,
    hardware_breakpoint: bool,
    vm: bool,
) -> (r: DebugCheckResult)
    ensures
        r.is_debugged == (debugger_present || timing_anomaly || suspicious_parent
            || suspicious_process || hardware_breakpoint || vm),
        r.debugger_present == debugger_present,
        r.timing_anomaly == timing_anomaly,
        r.suspicious_parent == suspicious_parent,
        r.suspicious_process == suspicious_process,
        r.hardware_breakpoint == hardware_breakpoint,
{
    DebugCheckResult {
        is_debugged: debugger_present || timing_anomaly || suspicious_parent || suspicious_process
            || hardware_breakpoint || vm,
        debugger_present,
        timing_anomaly,
        suspicious_parent,
        suspicious_process,
        hardware_breakpoint,
    }
}

} // verus!
