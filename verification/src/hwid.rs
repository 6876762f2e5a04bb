use vstd::prelude::*;
use vstd::string::StringExecFns;

use crate::errors::TweakError;

verus! {

// The hardware id is the SHA-256 digest, in lowercase hex, of the four
// component identifiers joined with dashes. The digest itself belongs
// to the hash library; this module owns how the input is assembled and
// how a stored id is checked.

/// The lowercase-hex SHA-256 digest of the text's UTF-8 bytes. What the
/// digest is takes the whole SHA-256 specification to state; it depends
/// on the text alone.
pub uninterp spec fn sha256_hex(s: Seq<char>) -> Seq<char>;

/// A lowercase hexadecimal digit.
pub open spec fn lower_hex_digit(c: char) -> bool {
    ('0' <= c && c <= '9') || ('a' <= c && c <= 'f')
}

/// Relies on sha2::Sha256 (through the Digest trait): a 32-byte digest
/// of the input alone, here rendered as 64 lowercase hex digits.
#[verifier::external_body]
fn sha256_hex_of(s: &str) -> (r: String)
    ensures
        r@ == sha256_hex(s@),
        r@.len() == 64,
        forall|i: int| 0 <= i < r@.len() ==> lower_hex_digit(#[trigger] r@[i]),
{
    let mut hasher = <sha2::Sha256 as sha2::Digest>::new();
    sha2::Digest::update(&mut hasher, s.as_bytes());
    let digest = sha2::Digest::finalize(hasher);
    digest.iter().map(|b| format!("{:02x}", b)).collect()
}

/// Relies on sysinfo's System::name: the host operating system's name,
/// when it is known. The result depends on the machine.
#[verifier::external_body]
fn host_os_name() -> (r: Option<String>) {
    sysinfo::System::name()
}

/// Relies on sysinfo's System::kernel_version: the host kernel version,
/// when it is known. The result depends on the machine.
#[verifier::external_body]
fn host_kernel_version() -> (r: Option<String>) {
    sysinfo::System::kernel_version()
}

/// The identifying components of one machine and the hardware id
/// derived from them.
#[derive(Clone, Debug)]
pub struct HardwareInfo {
    pub hwid: String,
    pub cpu_id: String,
    pub motherboard_serial: String,
    pub disk_serial: String,
    pub mac_address: String,
    pub os_info: String,
}

/// The text whose digest is the hardware id: the four component
/// identifiers joined with dashes.
pub open spec fn combined_id(
    cpu: Seq<char>,
    motherboard: Seq<char>,
    disk: Seq<char>,
    mac: Seq<char>,
) -> Seq<char> {
    cpu + "-"@ + motherboard + "-"@ + disk + "-"@ + mac
}

/// Derives the hardware id from the four component identifiers: the 64
/// lowercase hex digits of their dash-joined digest.
pub fn generate_hwid(cpu: &str, motherboard: &str, disk: &str, mac: &str) -> (r: String)
    ensures
        r@ == sha256_hex(combined_id(cpu@, motherboard@, disk@, mac@)),
        r@.len() == 64,
        forall|i: int| 0 <= i < r@.len() ==> lower_hex_digit(#[trigger] r@[i]),
{
    let combined = cpu.to_owned().concat("-").concat(motherboard).concat("-").concat(disk).concat(
        "-",
    ).concat(mac);
    proof {
        assert(combined@ =~= combined_id(cpu@, motherboard@, disk@, mac@));
    }
    sha256_hex_of(combined.as_str())
}

/// The placeholder component identifiers: no platform probe is wired
/// in, so every machine reports the same four components, and the id
/// varies only with them.
pub open spec fn placeholder_hwid() -> Seq<char> {
    sha256_hex(combined_id("unknown-cpu"@, "unknown-mb"@, "unknown-disk"@, "unknown-mac"@))
}

/// Collects the machine's identifying components and derives the
/// hardware id from them. The component probes are placeholders; only
/// the reported operating system varies with the machine.
pub fn get_hardware_info() -> (r: Result<HardwareInfo, TweakError>)
    ensures
        r matches Ok(info) && ({
            &&& info.cpu_id@ == "unknown-cpu"@
            &&& info.motherboard_serial@ == "unknown-mb"@
            &&& info.disk_serial@ == "unknown-disk"@
            &&& info.mac_address@ == "unknown-mac"@
            &&& info.hwid@ == placeholder_hwid()
            &&& info.hwid@.len() == 64
        }),
{
    let cpu_id = String::from_str("unknown-cpu");
    let motherboard_serial = String::from_str("unknown-mb");
    let disk_serial = String::from_str("unknown-disk");
    let mac_address = String::from_str("unknown-mac");
    let name = match host_os_name() {
        Some(n) => n,
        None => String::from_str("Unknown OS"),
    };
    let kernel = match host_kernel_version() {
        Some(k) => k,
        None => String::from_str("N/A"),
    };
    let os_info = name.concat(" (Kernel ").concat(kernel.as_str()).concat(")");
    let hwid = generate_hwid(
        cpu_id.as_str(),
        motherboard_serial.as_str(),
        disk_serial.as_str(),
        mac_address.as_str(),
    );
    Ok(HardwareInfo { hwid, cpu_id, motherboard_serial, disk_serial, mac_address, os_info })
}

/// Whether this machine's stored id matches the given one.
pub fn hwid_matches(info: &HardwareInfo, stored_hwid: &str) -> (r: bool)
    ensures
        r == (info.hwid@ == stored_hwid@),
{
    let stored: String = stored_hwid.to_owned();
    info.hwid == stored
}

/// Checks a stored hardware id against the one this machine derives.
pub fn verify_hwid(stored_hwid: &str) -> (r: Result<bool, TweakError>)
    ensures
        r matches Ok(b) && b == (placeholder_hwid() == stored_hwid@),
{
    let info = match get_hardware_info() {
        Ok(i) => i,
        Err(e) => {
            return Err(e);
        },
    };
    Ok(hwid_matches(&info, stored_hwid))
}

} // verus!
