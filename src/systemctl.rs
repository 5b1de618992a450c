use vstd::prelude::*;

use crate::error::CustomError;
use crate::text::{parse_unsigned, parse_unsigned_text, remove_all, remove_text, digit_char};

verus! {

/// Bytes in one GiB.
pub const GIB: u64 = 1073741824;

/// Seconds in one day.
pub const DAY_SECONDS: u64 = 86400;

/// What the first group of the leftmost match of `RELEASE_(\w+)` holds, if
/// the text has a match.
pub uninterp spec fn release_suffix_of(s: Seq<char>) -> Option<Seq<char>>;

/// What the first group of the leftmost match of `sec = (\d+),` holds, if
/// the text has a match.
pub uninterp spec fn boot_seconds_of(s: Seq<char>) -> Option<Seq<char>>;

/// The text that an optional string holds, if any.
pub open spec fn opt_view(o: Option<String>) -> Option<Seq<char>> {
    match o {
        Some(s) => Some(s@),
        None => None,
    }
}

/// Two decimal digits of `n`, with a leading zero below ten.
pub open spec fn two_digits(n: nat) -> Seq<char> {
    seq![digit_char((n / 10) % 10), digit_char(n % 10)]
}

/// The time of day `secs` seconds after midnight, as `HH:MM:SS`.
pub open spec fn clock_text(secs: nat) -> Seq<char> {
    two_digits(secs / 3600) + seq![':'] + two_digits((secs / 60) % 60) + seq![':']
        + two_digits(secs % 60)
}

/// Relies on regex's `Regex::captures` for the pattern `RELEASE_(\w+)`: the
/// first group of the leftmost match, or `None` where nothing matches.
#[verifier::external_body]
fn release_suffix(s: &str) -> (r: Option<String>)
    ensures
        opt_view(r) == release_suffix_of(s@),
{
    regex::Regex::new(r"RELEASE_(\w+)").unwrap().captures(s).map(|c| c[1].to_owned())
}

/// Relies on regex's `Regex::captures` for the pattern `sec = (\d+),`: the
/// first group of the leftmost match, or `None` where nothing matches.
#[verifier::external_body]
fn boot_seconds(s: &str) -> (r: Option<String>)
    ensures
        opt_view(r) == boot_seconds_of(s@),
{
    regex::Regex::new(r"sec = (\d+),").unwrap().captures(s).map(|c| c[1].to_owned())
}

/// Relies on chrono's `NaiveTime::from_num_seconds_from_midnight_opt`, which
/// accepts fewer than 86400 seconds, and on its `%H:%M:%S` format, which
/// writes hours, minutes and seconds as two digits each.
#[verifier::external_body]
fn time_of_day(secs: u32) -> (r: Option<String>)
    ensures
        r is Some <==> secs < 86400,
        r matches Some(t) ==> t@ == clock_text(secs as nat),
{
    chrono::NaiveTime::from_num_seconds_from_midnight_opt(secs, 0).map(
        |t| t.format("%H:%M:%S").to_string(),
    )
}

/// The facts about the host that one query of the kernel gives.
#[derive(Debug)]
pub struct SystemctlInfo {
    hostname: String,
    hardware_model: String,
    cpu_name: String,
    physical_cores: u8,
    logical_cores: u8,
    memory_amount: u8,
    arch_type: String,
    kernel_version: String,
    uptime: String,
    macos_version: String,
    macos_subversion: String,
}

/// The host facts as plain values.
pub struct SystemctlView {
    pub hostname: Seq<char>,
    pub hardware_model: Seq<char>,
    pub cpu_name: Seq<char>,
    pub physical_cores: u8,
    pub logical_cores: u8,
    pub memory_amount: u8,
    pub arch_type: Seq<char>,
    pub kernel_version: Seq<char>,
    pub uptime: Seq<char>,
    pub macos_version: Seq<char>,
    pub macos_subversion: Seq<char>,
}

impl View for SystemctlInfo {
    type V = SystemctlView;

    closed spec fn view(&self) -> SystemctlView {
        SystemctlView {
            hostname: self.hostname@,
            hardware_model: self.hardware_model@,
            cpu_name: self.cpu_name@,
            physical_cores: self.physical_cores,
            logical_cores: self.logical_cores,
            memory_amount: self.memory_amount,
            arch_type: self.arch_type@,
            kernel_version: self.kernel_version@,
            uptime: self.uptime@,
            macos_version: self.macos_version@,
            macos_subversion: self.macos_subversion@,
        }
    }
}

impl SystemctlInfo {
    pub fn hostname(&self) -> (r: &str)
        ensures
            r@ == self@.hostname,
    {
        self.hostname.as_str()
    }

    pub fn hardware_model(&self) -> (r: &str)
        ensures
            r@ == self@.hardware_model,
    {
        self.hardware_model.as_str()
    }

    pub fn cpu_name(&self) -> (r: &str)
        ensures
            r@ == self@.cpu_name,
    {
        self.cpu_name.as_str()
    }

    pub fn physical_cores(&self) -> (r: u8)
        ensures
            r == self@.physical_cores,
    {
        self.physical_cores
    }

    pub fn logical_cores(&self) -> (r: u8)
        ensures
            r == self@.logical_cores,
    {
        self.logical_cores
    }

    pub fn memory_amount(&self) -> (r: u8)
        ensures
            r == self@.memory_amount,
    {
        self.memory_amount
    }

    pub fn arch_type(&self) -> (r: &str)
        ensures
            r@ == self@.arch_type,
    {
        self.arch_type.as_str()
    }

    pub fn kernel_version(&self) -> (r: &str)
        ensures
            r@ == self@.kernel_version,
    {
        self.kernel_version.as_str()
    }

    pub fn uptime(&self) -> (r: &str)
        ensures
            r@ == self@.uptime,
    {
        self.uptime.as_str()
    }

    pub fn macos_version(&self) -> (r: &str)
        ensures
            r@ == self@.macos_version,
    {
        self.macos_version.as_str()
    }

    pub fn macos_subversion(&self) -> (r: &str)
        ensures
            r@ == self@.macos_subversion,
    {
        self.macos_subversion.as_str()
    }
}

/// The CPU name without the marks `(TM)` and `(R)` and the word `CPU `.
pub open spec fn clean_cpu_name(s: Seq<char>) -> Seq<char> {
    remove_all(remove_all(remove_all(s, "(TM)"@), "(R)"@), "CPU "@)
}

/// Whole GiB in `bytes`, kept to their lowest eight bits.
pub open spec fn memory_gib(bytes: nat) -> u8 {
    ((bytes / (GIB as nat)) % 256) as u8
}

/// The seconds since boot, counted within one day.
pub open spec fn uptime_of_day(boot: nat, now: u64) -> nat {
    ((now - boot) as nat) % (DAY_SECONDS as nat)
}

/// Which line or value of the kernel's answer could not be read, if any.
/// `lines` holds the answer's lines in the order of the query, `arch` what
/// the pattern found in the seventh line, `boot` what it found in the ninth,
/// and `now` the seconds since the epoch.
pub open spec fn facts_error(
    lines: Seq<Seq<char>>,
    arch: Option<Seq<char>>,
    boot: Option<Seq<char>>,
    now: u64,
) -> Option<Seq<char>> {
    if lines.len() < 1 {
        Some("Failed to read hostname"@)
    } else if lines.len() < 2 {
        Some("Failed to read hardware model"@)
    } else if lines.len() < 3 {
        Some("Failed to read CPU name"@)
    } else if lines.len() < 4 {
        Some("Failed to read CPU physical core count"@)
    } else if parse_unsigned(lines[3], 255) is None {
        Some("Failed to convert CPU physical core count to u8"@)
    } else if lines.len() < 5 {
        Some("Failed to read CPU logical core count"@)
    } else if parse_unsigned(lines[4], 255) is None {
        Some("Failed to convert CPU logical core count to u8"@)
    } else if lines.len() < 6 {
        Some("Failed to read memory amount"@)
    } else if parse_unsigned(lines[5], u64::MAX as nat) is None {
        Some("Failed to convert memory amount to u64"@)
    } else if lines.len() < 7 {
        Some("Failed to read raw arch type"@)
    } else if arch is None {
        Some("Failed to read arch type"@)
    } else if lines.len() < 8 {
        Some("Failed to read kernel version"@)
    } else if lines.len() < 9 {
        Some("Failed to read raw uptime"@)
    } else if boot is None {
        Some("Failed to read uptime"@)
    } else if parse_unsigned(boot->0, u64::MAX as nat) is None {
        Some("Failed to convert uptime to u64"@)
    } else if parse_unsigned(boot->0, u64::MAX as nat)->0 > now {
        Some("Boot time is later than the current time"@)
    } else if lines.len() < 10 {
        Some("Failed to read macos version"@)
    } else if lines.len() < 11 {
        Some("Failed to read macos subversion"@)
    } else {
        None
    }
}

/// The facts read from the kernel's answer, where `facts_error` finds none
/// missing.
pub open spec fn facts_record(
    lines: Seq<Seq<char>>,
    arch: Option<Seq<char>>,
    boot: Option<Seq<char>>,
    now: u64,
) -> SystemctlView {
    SystemctlView {
        hostname: lines[0],
        hardware_model: lines[1],
        cpu_name: clean_cpu_name(lines[2]),
        physical_cores: parse_unsigned(lines[3], 255)->0 as u8,
        logical_cores: parse_unsigned(lines[4], 255)->0 as u8,
        memory_amount: memory_gib(parse_unsigned(lines[5], u64::MAX as nat)->0),
        arch_type: arch->0,
        kernel_version: lines[7],
        uptime: clock_text(uptime_of_day(parse_unsigned(boot->0, u64::MAX as nat)->0, now)),
        macos_version: lines[9],
        macos_subversion: lines[10],
    }
}

/// The record, or the error that names what could not be read.
pub open spec fn facts_result(
    lines: Seq<Seq<char>>,
    arch: Option<Seq<char>>,
    boot: Option<Seq<char>>,
    now: u64,
) -> Result<SystemctlView, Seq<char>> {
    match facts_error(lines, arch, boot, now) {
        Some(e) => Err(e),
        None => Ok(facts_record(lines, arch, boot, now)),
    }
}

/// The record or the error message that a read of the host facts gives.
pub open spec fn info_result_view(r: Result<SystemctlInfo, CustomError>) -> Result<
    SystemctlView,
    Seq<char>,
> {
    match r {
        Ok(i) => Ok(i@),
        Err(e) => Err(e@),
    }
}

/// What the pattern finds in the seventh line, if there is one.
pub open spec fn arch_capture(lines: Seq<Seq<char>>) -> Option<Seq<char>> {
    if lines.len() >= 7 {
        release_suffix_of(lines[6])
    } else {
        None
    }
}

/// What the pattern finds in the ninth line, if there is one.
pub open spec fn boot_capture(lines: Seq<Seq<char>>) -> Option<Seq<char>> {
    if lines.len() >= 9 {
        boot_seconds_of(lines[8])
    } else {
        None
    }
}

/// Builds the host facts from the lines of the kernel's answer, what the
/// patterns found in its seventh and ninth lines, and the current time in
/// seconds since the epoch.
pub fn systemctl_info_from_lines(
    lines: &Vec<String>,
    arch_type: Option<String>,
    boot_secs: Option<String>,
    now_secs: u64,
) -> (r: Result<SystemctlInfo, CustomError>)
    ensures
        info_result_view(r) == facts_result(
            lines.deep_view(),
            opt_view(arch_type),
            opt_view(boot_secs),
            now_secs,
        ),
{
    let ghost l = lines.deep_view();
    let n: usize = lines.len();
    if n < 1 {
        return Err(CustomError::new("Failed to read hostname"));
    }
    let hostname = lines[0].clone();
    if n < 2 {
        return Err(CustomError::new("Failed to read hardware model"));
    }
    let hardware_model = lines[1].clone();
    if n < 3 {
        return Err(CustomError::new("Failed to read CPU name"));
    }
    let cpu_name = remove_text(
        remove_text(remove_text(lines[2].as_str(), "(TM)").as_str(), "(R)").as_str(),
        "CPU ",
    );
    if n < 4 {
        return Err(CustomError::new("Failed to read CPU physical core count"));
    }
    let physical_cores: u8 = match parse_unsigned_text(lines[3].as_str(), 255) {
        Some(v) => v as u8,
        None => {
            return Err(CustomError::new("Failed to convert CPU physical core count to u8"));
        },
    };
    if n < 5 {
        return Err(CustomError::new("Failed to read CPU logical core count"));
    }
    let logical_cores: u8 = match parse_unsigned_text(lines[4].as_str(), 255) {
        Some(v) => v as u8,
        None => {
            return Err(CustomError::new("Failed to convert CPU logical core count to u8"));
        },
    };
    if n < 6 {
        return Err(CustomError::new("Failed to read memory amount"));
    }
    let memory_amount: u8 = match parse_unsigned_text(lines[5].as_str(), u64::MAX) {
        Some(v) => ((v / GIB) % 256) as u8,
        None => {
            return Err(CustomError::new("Failed to convert memory amount to u64"));
        },
    };
    if n < 7 {
        return Err(CustomError::new("Failed to read raw arch type"));
    }
    let arch_type = match arch_type {
        Some(a) => a,
        None => {
            return Err(CustomError::new("Failed to read arch type"));
        },
    };
    if n < 8 {
        return Err(CustomError::new("Failed to read kernel version"));
    }
    let kernel_version = lines[7].clone();
    if n < 9 {
        return Err(CustomError::new("Failed to read raw uptime"));
    }
    let boot_text = match boot_secs {
        Some(b) => b,
        None => {
            return Err(CustomError::new("Failed to read uptime"));
        },
    };
    let boot: u64 = match parse_unsigned_text(boot_text.as_str(), u64::MAX) {
        Some(v) => v,
        None => {
            return Err(CustomError::new("Failed to convert uptime to u64"));
        },
    };
    if boot > now_secs {
        return Err(CustomError::new("Boot time is later than the current time"));
    }
    let secs: u32 = ((now_secs - boot) % DAY_SECONDS) as u32;
    let uptime = match time_of_day(secs) {
        Some(t) => t,
        None => {
            return Err(CustomError::new("Failed to read uptime"));
        },
    };
    if n < 10 {
        return Err(CustomError::new("Failed to read macos version"));
    }
    let macos_version = lines[9].clone();
    if n < 11 {
        return Err(CustomError::new("Failed to read macos subversion"));
    }
    let macos_subversion = lines[10].clone();
    Ok(
        SystemctlInfo {
            hostname,
            hardware_model,
            cpu_name,
            physical_cores,
            logical_cores,
            memory_amount,
            arch_type,
            kernel_version,
            uptime,
            macos_version,
            macos_subversion,
        },
    )
}

/// Reads the host facts from the lines of the kernel's answer, with the
/// current time in seconds since the epoch.
pub fn parse_systemctl_info(lines: &Vec<String>, now_secs: u64) -> (r: Result<
    SystemctlInfo,
    CustomError,
>)
    ensures
        info_result_view(r) == host_facts(lines.deep_view(), now_secs),
{
    let arch = if lines.len() >= 7 {
        release_suffix(lines[6].as_str())
    } else {
        None
    };
    let boot = if lines.len() >= 9 {
        boot_seconds(lines[8].as_str())
    } else {
        None
    };
    systemctl_info_from_lines(lines, arch, boot, now_secs)
}

/// The host facts that `parse_systemctl_info` reads from `lines` at the time
/// `now`.
pub open spec fn host_facts(lines: Seq<Seq<char>>, now: u64) -> Result<SystemctlView, Seq<char>> {
    facts_result(lines, arch_capture(lines), boot_capture(lines), now)
}

/// Whether the kernel's answer holds every fact in a form that can be read:
/// eleven lines at least, core counts that fit eight bits, a memory size that
/// fits 64 bits, a release suffix, and a boot time that is no later than
/// `now`.
pub open spec fn well_formed_facts(lines: Seq<Seq<char>>, now: u64) -> bool {
    &&& lines.len() >= 11
    &&& parse_unsigned(lines[3], 255) is Some
    &&& parse_unsigned(lines[4], 255) is Some
    &&& parse_unsigned(lines[5], u64::MAX as nat) is Some
    &&& release_suffix_of(lines[6]) is Some
    &&& boot_seconds_of(lines[8]) matches Some(b) && parse_unsigned(b, u64::MAX as nat) matches Some(
        v,
    ) && v <= now
}

/// The error that names line `k` (from zero) of the kernel's answer.
pub open spec fn missing_line_message(k: nat) -> Seq<char> {
    if k == 0 {
        "Failed to read hostname"@
    } else if k == 1 {
        "Failed to read hardware model"@
    } else if k == 2 {
        "Failed to read CPU name"@
    } else if k == 3 {
        "Failed to read CPU physical core count"@
    } else if k == 4 {
        "Failed to read CPU logical core count"@
    } else if k == 5 {
        "Failed to read memory amount"@
    } else if k == 6 {
        "Failed to read raw arch type"@
    } else if k == 7 {
        "Failed to read kernel version"@
    } else if k == 8 {
        "Failed to read raw uptime"@
    } else if k == 9 {
        "Failed to read macos version"@
    } else {
        "Failed to read macos subversion"@
    }
}

/// A well-formed answer gives a record: the host name, hardware model,
/// kernel version and system versions as they stand, the CPU name without
/// its marks, the core counts, the memory in whole GiB, the release suffix,
/// and the time since boot as a time of day.
pub proof fn lemma_well_formed_facts_parse(lines: Seq<Seq<char>>, now: u64)
    requires
        well_formed_facts(lines, now),
    ensures
        host_facts(lines, now) matches Ok(v) && v == facts_record(
            lines,
            arch_capture(lines),
            boot_capture(lines),
            now,
        ) && v.hostname == lines[0] && v.hardware_model == lines[1] && v.cpu_name
            == clean_cpu_name(lines[2]) && v.physical_cores as nat == parse_unsigned(
            lines[3],
            255,
        )->0 && v.logical_cores as nat == parse_unsigned(lines[4], 255)->0 && v.memory_amount
            == memory_gib(parse_unsigned(lines[5], u64::MAX as nat)->0) && v.arch_type
            == release_suffix_of(lines[6])->0 && v.kernel_version == lines[7] && v.macos_version
            == lines[9] && v.macos_subversion == lines[10],
{
}

/// An answer that stops before line `k` of a well-formed one fails with the
/// error that names line `k`, and gives no record.
pub proof fn lemma_missing_line_fails(lines: Seq<Seq<char>>, now: u64, k: nat)
    requires
        well_formed_facts(lines, now),
        k < 11,
    ensures
        host_facts(lines.take(k as int), now) == Err::<SystemctlView, Seq<char>>(
            missing_line_message(k),
        ),
{
    let t = lines.take(k as int);
    assert(t.len() == k);
    if k > 3 {
        assert(t[3] == lines[3]);
    }
    if k > 4 {
        assert(t[4] == lines[4]);
    }
    if k > 5 {
        assert(t[5] == lines[5]);
    }
    if k > 6 {
        assert(t[6] == lines[6]);
    }
    if k > 8 {
        assert(t[8] == lines[8]);
    }
}

} // verus!
