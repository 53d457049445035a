//! Readers and writers of the kernel's CPU control files. Each takes the
//! function that does the file access: `read` returns a file's contents, or
//! `None` where it cannot be read; `write` writes a value to a file.
use vstd::prelude::*;

use crate::text::{decimal, decimal_spec, is_split_of, opt_string_view, parse_spec, parse_u32, parse_u8, split_spaces, trim, trim_spec, views};

verus! {

/// Root of the CPU control files.
pub const FLROOT: &'static str = "/sys/devices/system/cpu/";

/// The control file at `rel` under the root.
pub open spec fn sys_path(rel: Seq<char>) -> Seq<char> {
    FLROOT@ + rel
}

/// The control file `file` of CPU `core`.
pub open spec fn core_path(core: u16, file: Seq<char>) -> Seq<char> {
    FLROOT@ + "cpu"@ + decimal_spec(core as nat) + "/"@ + file
}

/// `read` accepts every path.
pub open spec fn reads_any<R: Fn(&str) -> Option<String>>(read: R) -> bool {
    forall|a: &str| call_requires(read, (a,))
}

/// `write` accepts every path and value.
pub open spec fn writes_any<E, W: Fn(&str, &str) -> Result<(), E>>(write: W) -> bool {
    forall|a: &str, b: &str| call_requires(write, (a, b))
}

/// `read`, given the path `path`, returned `contents`.
pub open spec fn read_gave<R: Fn(&str) -> Option<String>>(read: R, path: Seq<char>, contents: Option<Seq<char>>) -> bool {
    exists|a: &str, c: Option<String>| a@ == path && call_ensures(read, (a,), c) && opt_string_view(c) == contents
}

/// `write`, given the path `path` and the value `value`, returned `r`.
pub open spec fn write_gave<E, W: Fn(&str, &str) -> Result<(), E>>(
    write: W,
    path: Seq<char>,
    value: Seq<char>,
    r: Result<(), E>,
) -> bool {
    exists|a: &str, b: &str| a@ == path && b@ == value && call_ensures(write, (a, b), r)
}

/// A read control file gives `r` as text: its contents trimmed.
pub open spec fn text_of(contents: Option<Seq<char>>) -> Option<Seq<char>> {
    match contents {
        Some(s) => Some(trim_spec(s)),
        None => None,
    }
}

/// A read control file gives a number of at most `max`.
pub open spec fn number_of(contents: Option<Seq<char>>, max: nat) -> Option<nat> {
    match contents {
        Some(s) => parse_spec(trim_spec(s), max),
        None => None,
    }
}

/// A read control file gives a flag: `0` or `1`.
pub open spec fn flag_of(contents: Option<Seq<char>>) -> Option<bool> {
    match number_of(contents, u8::MAX as nat) {
        Some(n) => if n == 0 {
            Some(false)
        } else if n == 1 {
            Some(true)
        } else {
            None
        },
        None => None,
    }
}

/// A read control file gives a list: its trimmed contents cut at each space,
/// or nothing where it could not be read.
pub open spec fn is_list_of(r: Seq<Seq<char>>, contents: Option<Seq<char>>) -> bool {
    match contents {
        Some(s) => is_split_of(r, trim_spec(s), ' '),
        None => r.len() == 0,
    }
}

/// What a flag is written as.
pub open spec fn flag_value(b: bool) -> Seq<char> {
    if b {
        "1"@
    } else {
        "0"@
    }
}

fn sys_file(rel: &str) -> (r: String)
    ensures
        r@ == sys_path(rel@),
{
    String::from_str(FLROOT).concat(rel)
}

fn core_file(core: u16, file: &str) -> (r: String)
    ensures
        r@ == core_path(core, file@),
{
    let number = decimal(core as u32);
    String::from_str(FLROOT).concat("cpu").concat(number.as_str()).concat("/").concat(file)
}

fn flag_str(b: bool) -> (r: &'static str)
    ensures
        r@ == flag_value(b),
{
    if b {
        "1"
    } else {
        "0"
    }
}

fn read_raw<R>(read: &R, path: &String) -> (r: Option<String>) where R: Fn(&str) -> Option<String>,
    requires
        reads_any(*read),
    ensures
        read_gave(*read, path@, opt_string_view(r)),
{
    let p = path.as_str();
    let c = read(p);
    assert(call_ensures(*read, (p,), c));
    c
}

fn get<R>(read: &R, path: &String) -> (r: Option<String>) where R: Fn(&str) -> Option<String>,
    requires
        reads_any(*read),
    ensures
        exists|c: Option<Seq<char>>| #[trigger] read_gave(*read, path@, c) && opt_string_view(r) == text_of(c),
{
    let c = read_raw(read, path);
    match c {
        Some(s) => Some(trim(s.as_str())),
        None => None,
    }
}

fn get_list<R>(read: &R, path: &String) -> (r: Vec<String>) where R: Fn(&str) -> Option<String>,
    requires
        reads_any(*read),
    ensures
        exists|c: Option<Seq<char>>| #[trigger] read_gave(*read, path@, c) && is_list_of(views(r@), c),
{
    let c = read_raw(read, path);
    match c {
        Some(s) => split_spaces(trim(s.as_str()).as_str()),
        None => Vec::new(),
    }
}

fn get_u32<R>(read: &R, path: &String) -> (r: Option<u32>) where R: Fn(&str) -> Option<String>,
    requires
        reads_any(*read),
    ensures
        exists|c: Option<Seq<char>>| #[trigger] read_gave(*read, path@, c) && number_of(c, u32::MAX as nat) == match r {
            Some(v) => Some(v as nat),
            None => None,
        },
{
    let c = read_raw(read, path);
    match c {
        Some(s) => parse_u32(trim(s.as_str()).as_str()),
        None => None,
    }
}

fn get_u8<R>(read: &R, path: &String) -> (r: Option<u8>) where R: Fn(&str) -> Option<String>,
    requires
        reads_any(*read),
    ensures
        exists|c: Option<Seq<char>>| #[trigger] read_gave(*read, path@, c) && number_of(c, u8::MAX as nat) == match r {
            Some(v) => Some(v as nat),
            None => None,
        },
{
    let c = read_raw(read, path);
    match c {
        Some(s) => parse_u8(trim(s.as_str()).as_str()),
        None => None,
    }
}

fn get_bool<R>(read: &R, path: &String) -> (r: Option<bool>) where R: Fn(&str) -> Option<String>,
    requires
        reads_any(*read),
    ensures
        exists|c: Option<Seq<char>>| #[trigger] read_gave(*read, path@, c) && r == flag_of(c),
{
    match get_u8(read, path) {
        Some(0) => Some(false),
        Some(1) => Some(true),
        _ => None,
    }
}

fn set<E, W>(write: &W, path: &String, value: &str) -> (r: Result<(), E>) where
    W: Fn(&str, &str) -> Result<(), E>,

    requires
        writes_any(*write),
    ensures
        write_gave(*write, path@, value@, r),
{
    let p = path.as_str();
    let r = write(p, value);
    assert(call_ensures(*write, (p, value), r));
    r
}

/// The scaling driver.
pub fn driver<R>(read: &R) -> (r: Option<String>) where R: Fn(&str) -> Option<String>,
    requires
        reads_any(*read),
    ensures
        exists|c: Option<Seq<char>>|
            read_gave(*read, sys_path("cpu0/cpufreq/scaling_driver"@), c) && opt_string_view(r) == text_of(c),
{
    get(read, &sys_file("cpu0/cpufreq/scaling_driver"))
}

/// The scaling governors that can be selected.
pub fn available_governors<R>(read: &R) -> (r: Vec<String>) where R: Fn(&str) -> Option<String>,
    requires
        reads_any(*read),
    ensures
        exists|c: Option<Seq<char>>|
            #[trigger] read_gave(*read, sys_path("cpu0/cpufreq/scaling_available_governors"@), c) && is_list_of(views(r@), c),
{
    get_list(read, &sys_file("cpu0/cpufreq/scaling_available_governors"))
}

/// The scaling governor of CPU `core`.
pub fn governor<R>(read: &R, core: u16) -> (r: Option<String>) where R: Fn(&str) -> Option<String>,
    requires
        reads_any(*read),
    ensures
        exists|c: Option<Seq<char>>|
            #[trigger] read_gave(*read, core_path(core, "cpufreq/scaling_governor"@), c) && opt_string_view(r) == text_of(c),
{
    get(read, &core_file(core, "cpufreq/scaling_governor"))
}

/// Selects the scaling governor of CPU `core`.
pub fn set_governor<E, W>(write: &W, core: u16, governor: &str) -> (r: Result<(), E>) where
    W: Fn(&str, &str) -> Result<(), E>,

    requires
        writes_any(*write),
    ensures
        write_gave(*write, core_path(core, "cpufreq/scaling_governor"@), governor@, r),
{
    let value = String::from_str(governor);
    set(write, &core_file(core, "cpufreq/scaling_governor"), value.as_str())
}

/// The frequencies that can be selected.
pub fn available_frequencies<R>(read: &R) -> (r: Vec<String>) where R: Fn(&str) -> Option<String>,
    requires
        reads_any(*read),
    ensures
        exists|c: Option<Seq<char>>|
            #[trigger] read_gave(*read, sys_path("cpu0/cpufreq/scaling_available_frequencies"@), c) && is_list_of(views(r@), c),
{
    get_list(read, &sys_file("cpu0/cpufreq/scaling_available_frequencies"))
}

/// The current frequency of CPU `core`.
pub fn frequency<R>(read: &R, core: u16) -> (r: Option<String>) where R: Fn(&str) -> Option<String>,
    requires
        reads_any(*read),
    ensures
        exists|c: Option<Seq<char>>|
            #[trigger] read_gave(*read, core_path(core, "cpufreq/scaling_cur_freq"@), c) && opt_string_view(r) == text_of(c),
{
    get(read, &core_file(core, "cpufreq/scaling_cur_freq"))
}

/// Sets the frequency of CPU `core` (not supported by the intel_pstate driver).
pub fn set_frequency<E, W>(write: &W, core: u16, frequency: u32) -> (r: Result<(), E>) where
    W: Fn(&str, &str) -> Result<(), E>,

    requires
        writes_any(*write),
    ensures
        write_gave(*write, core_path(core, "cpufreq/scaling_setfreq"@), decimal_spec(frequency as nat), r),
{
    let value = decimal(frequency);
    set(write, &core_file(core, "cpufreq/scaling_setfreq"), value.as_str())
}

/// The lowest frequency allowed to CPU `core`.
pub fn min_frequency<R>(read: &R, core: u16) -> (r: Option<String>) where R: Fn(&str) -> Option<String>,
    requires
        reads_any(*read),
    ensures
        exists|c: Option<Seq<char>>|
            #[trigger] read_gave(*read, core_path(core, "cpufreq/scaling_min_freq"@), c) && opt_string_view(r) == text_of(c),
{
    get(read, &core_file(core, "cpufreq/scaling_min_freq"))
}

/// Sets the lowest frequency allowed to CPU `core`.
pub fn set_min_frequency<E, W>(write: &W, core: u16, frequency: u32) -> (r: Result<(), E>) where
    W: Fn(&str, &str) -> Result<(), E>,

    requires
        writes_any(*write),
    ensures
        write_gave(*write, core_path(core, "cpufreq/scaling_min_freq"@), decimal_spec(frequency as nat), r),
{
    let value = decimal(frequency);
    set(write, &core_file(core, "cpufreq/scaling_min_freq"), value.as_str())
}

/// The highest frequency allowed to CPU `core`.
pub fn max_frequency<R>(read: &R, core: u16) -> (r: Option<String>) where R: Fn(&str) -> Option<String>,
    requires
        reads_any(*read),
    ensures
        exists|c: Option<Seq<char>>|
            #[trigger] read_gave(*read, core_path(core, "cpufreq/scaling_max_freq"@), c) && opt_string_view(r) == text_of(c),
{
    get(read, &core_file(core, "cpufreq/scaling_max_freq"))
}

/// Sets the highest frequency allowed to CPU `core`.
pub fn set_max_frequency<E, W>(write: &W, core: u16, frequency: u32) -> (r: Result<(), E>) where
    W: Fn(&str, &str) -> Result<(), E>,

    requires
        writes_any(*write),
    ensures
        write_gave(*write, core_path(core, "cpufreq/scaling_max_freq"@), decimal_spec(frequency as nat), r),
{
    let value = decimal(frequency);
    set(write, &core_file(core, "cpufreq/scaling_max_freq"), value.as_str())
}

/// The energy-performance preferences that can be selected.
pub fn energy_performance_available_preferences<R>(read: &R) -> (r: Vec<String>) where R: Fn(&str) -> Option<String>,
    requires
        reads_any(*read),
    ensures
        exists|c: Option<Seq<char>>|
            #[trigger] read_gave(*read, sys_path("cpu0/cpufreq/energy_performance_available_preferences"@), c) && is_list_of(views(r@), c),
{
    get_list(read, &sys_file("cpu0/cpufreq/energy_performance_available_preferences"))
}

/// The energy-performance preference of CPU `core`.
pub fn energy_performance_preference<R>(read: &R, core: u16) -> (r: Option<String>) where R: Fn(&str) -> Option<String>,
    requires
        reads_any(*read),
    ensures
        exists|c: Option<Seq<char>>|
            #[trigger] read_gave(*read, core_path(core, "cpufreq/energy_performance_preference"@), c) && opt_string_view(r) == text_of(c),
{
    get(read, &core_file(core, "cpufreq/energy_performance_preference"))
}

/// Sets the energy-performance preference of CPU `core`.
pub fn set_energy_performance_preference<E, W>(write: &W, core: u16, preference: &str) -> (r: Result<(), E>) where
    W: Fn(&str, &str) -> Result<(), E>,

    requires
        writes_any(*write),
    ensures
        write_gave(*write, core_path(core, "cpufreq/energy_performance_preference"@), preference@, r),
{
    let value = String::from_str(preference);
    set(write, &core_file(core, "cpufreq/energy_performance_preference"), value.as_str())
}

/// An energy-performance bias hint.
#[derive(Debug, Clone, Copy, PartialEq, Eq, Structural)]
pub enum PerfBias {
    Performance,
    BalancePerformance,
    Normal,
    BalancePower,
    Power,
}

/// The bias that a number stands for.
pub open spec fn perf_bias_of(value: u8) -> Option<PerfBias> {
    if value == 0 {
        Some(PerfBias::Performance)
    } else if value == 4 {
        Some(PerfBias::BalancePerformance)
    } else if value == 6 {
        Some(PerfBias::Normal)
    } else if value == 8 {
        Some(PerfBias::BalancePower)
    } else if value == 15 {
        Some(PerfBias::Power)
    } else {
        None
    }
}

impl PerfBias {
    /// The number that stands for this bias.
    pub open spec fn value_spec(self) -> u8 {
        match self {
            PerfBias::Performance => 0,
            PerfBias::BalancePerformance => 4,
            PerfBias::Normal => 6,
            PerfBias::BalancePower => 8,
            PerfBias::Power => 15,
        }
    }

    /// The number that stands for this bias.
    pub fn value(&self) -> (r: u8)
        ensures
            r == self.value_spec(),
            perf_bias_of(r) == Some(*self),
    {
        match self {
            PerfBias::Performance => 0,
            PerfBias::BalancePerformance => 4,
            PerfBias::Normal => 6,
            PerfBias::BalancePower => 8,
            PerfBias::Power => 15,
        }
    }
}

impl TryFrom<u8> for PerfBias {
    type Error = ();

    fn try_from(value: u8) -> (r: Result<PerfBias, ()>)
        ensures
            r == match perf_bias_of(value) {
                Some(b) => Ok(b),
                None => Err(()),
            },
    {
        match value {
            0 => Ok(PerfBias::Performance),
            4 => Ok(PerfBias::BalancePerformance),
            6 => Ok(PerfBias::Normal),
            8 => Ok(PerfBias::BalancePower),
            15 => Ok(PerfBias::Power),
            _ => Err(()),
        }
    }
}

impl vstd::std_specs::convert::TryFromSpecImpl<u8> for PerfBias {
    open spec fn obeys_try_from_spec() -> bool {
        true
    }

    open spec fn try_from_spec(value: u8) -> Result<PerfBias, ()> {
        match perf_bias_of(value) {
            Some(b) => Ok(b),
            None => Err(()),
        }
    }
}

/// The energy-performance bias of CPU `core`.
pub fn energy_perf_bias<R>(read: &R, core: u16) -> (r: Option<PerfBias>) where R: Fn(&str) -> Option<String>,
    requires
        reads_any(*read),
    ensures
        exists|c: Option<Seq<char>>|
            #[trigger] read_gave(*read, core_path(core, "power/energy_perf_bias"@), c) && r == match number_of(c, u8::MAX as nat) {
                Some(n) => perf_bias_of(n as u8),
                None => None,
            },
{
    match get_u8(read, &core_file(core, "power/energy_perf_bias")) {
        Some(n) => match PerfBias::try_from(n) {
            Ok(b) => Some(b),
            Err(()) => None,
        },
        None => None,
    }
}

/// Sets the energy-performance bias of CPU `core` (supported by the
/// intel_pstate driver only).
pub fn set_energy_perf_bias<E, W>(write: &W, core: u16, perf_bias: PerfBias) -> (r: Result<(), E>) where
    W: Fn(&str, &str) -> Result<(), E>,

    requires
        writes_any(*write),
    ensures
        write_gave(*write, core_path(core, "power/energy_perf_bias"@), decimal_spec(perf_bias.value_spec() as nat), r),
{
    let value = decimal(perf_bias.value() as u32);
    set(write, &core_file(core, "power/energy_perf_bias"), value.as_str())
}

/// The platform profiles that can be selected.
pub fn platform_profile_choices<R>(read: &R) -> (r: Vec<String>) where R: Fn(&str) -> Option<String>,
    requires
        reads_any(*read),
    ensures
        exists|c: Option<Seq<char>>|
            #[trigger] read_gave(*read, sys_path("acpi/platform_profile_choices"@), c) && is_list_of(views(r@), c),
{
    get_list(read, &sys_file("acpi/platform_profile_choices"))
}

/// The platform profile.
pub fn platform_profile<R>(read: &R) -> (r: Option<String>) where R: Fn(&str) -> Option<String>,
    requires
        reads_any(*read),
    ensures
        exists|c: Option<Seq<char>>|
            #[trigger] read_gave(*read, sys_path("acpi/platform_profile"@), c) && opt_string_view(r) == text_of(c),
{
    get(read, &sys_file("acpi/platform_profile"))
}

/// Selects the platform profile.
pub fn set_platform_profile<E, W>(write: &W, platform_profile: &str) -> (r: Result<(), E>) where
    W: Fn(&str, &str) -> Result<(), E>,

    requires
        writes_any(*write),
    ensures
        write_gave(*write, sys_path("acpi/platform_profile"@), platform_profile@, r),
{
    let value = String::from_str(platform_profile);
    set(write, &sys_file("acpi/platform_profile"), value.as_str())
}

/// Whether turbo frequencies are disabled.
pub fn no_turbo<R>(read: &R) -> (r: Option<bool>) where R: Fn(&str) -> Option<String>,
    requires
        reads_any(*read),
    ensures
        exists|c: Option<Seq<char>>|
            #[trigger] read_gave(*read, sys_path("intel_pstate/no_turbo"@), c) && r == flag_of(c),
{
    get_bool(read, &sys_file("intel_pstate/no_turbo"))
}

/// Disables or enables turbo frequencies.
pub fn set_no_turbo<E, W>(write: &W, no_turbo: bool) -> (r: Result<(), E>) where
    W: Fn(&str, &str) -> Result<(), E>,

    requires
        writes_any(*write),
    ensures
        write_gave(*write, sys_path("intel_pstate/no_turbo"@), flag_value(no_turbo), r),
{
    let value = String::from_str(flag_str(no_turbo));
    set(write, &sys_file("intel_pstate/no_turbo"), value.as_str())
}

/// Whether frequency boost is enabled.
pub fn boost<R>(read: &R) -> (r: Option<bool>) where R: Fn(&str) -> Option<String>,
    requires
        reads_any(*read),
    ensures
        exists|c: Option<Seq<char>>|
            #[trigger] read_gave(*read, sys_path("cpufreq/boost"@), c) && r == flag_of(c),
{
    get_bool(read, &sys_file("cpufreq/boost"))
}

/// Enables or disables frequency boost.
pub fn set_boost<E, W>(write: &W, boost: bool) -> (r: Result<(), E>) where
    W: Fn(&str, &str) -> Result<(), E>,

    requires
        writes_any(*write),
    ensures
        write_gave(*write, sys_path("cpufreq/boost"@), flag_value(boost), r),
{
    let value = String::from_str(flag_str(boost));
    set(write, &sys_file("cpufreq/boost"), value.as_str())
}

/// The lowest performance allowed, in percent of the maximum.
pub fn min_perf_pct<R>(read: &R) -> (r: Option<u8>) where R: Fn(&str) -> Option<String>,
    requires
        reads_any(*read),
    ensures
        exists|c: Option<Seq<char>>|
            #[trigger] read_gave(*read, sys_path("intel_pstate/min_perf_pct"@), c) && number_of(c, u8::MAX as nat) == match r {
                Some(v) => Some(v as nat),
                None => None,
            },
{
    get_u8(read, &sys_file("intel_pstate/min_perf_pct"))
}

/// Sets the lowest performance allowed, in percent of the maximum.
pub fn set_min_perf_pct<E, W>(write: &W, min_perf_pct: u8) -> (r: Result<(), E>) where
    W: Fn(&str, &str) -> Result<(), E>,

    requires
        writes_any(*write),
    ensures
        write_gave(*write, sys_path("intel_pstate/min_perf_pct"@), decimal_spec(min_perf_pct as nat), r),
{
    let value = decimal(min_perf_pct as u32);
    set(write, &sys_file("intel_pstate/min_perf_pct"), value.as_str())
}

/// The highest performance allowed, in percent of the maximum.
pub fn max_perf_pct<R>(read: &R) -> (r: Option<u8>) where R: Fn(&str) -> Option<String>,
    requires
        reads_any(*read),
    ensures
        exists|c: Option<Seq<char>>|
            #[trigger] read_gave(*read, sys_path("intel_pstate/max_perf_pct"@), c) && number_of(c, u8::MAX as nat) == match r {
                Some(v) => Some(v as nat),
                None => None,
            },
{
    get_u8(read, &sys_file("intel_pstate/max_perf_pct"))
}

/// Sets the highest performance allowed, in percent of the maximum.
pub fn set_max_perf_pct<E, W>(write: &W, max_perf_pct: u8) -> (r: Result<(), E>) where
    W: Fn(&str, &str) -> Result<(), E>,

    requires
        writes_any(*write),
    ensures
        write_gave(*write, sys_path("intel_pstate/max_perf_pct"@), decimal_spec(max_perf_pct as nat), r),
{
    let value = decimal(max_perf_pct as u32);
    set(write, &sys_file("intel_pstate/max_perf_pct"), value.as_str())
}

/// Whether CPU `core` is online.
pub fn online<R>(read: &R, core: u16) -> (r: Option<bool>) where R: Fn(&str) -> Option<String>,
    requires
        reads_any(*read),
    ensures
        exists|c: Option<Seq<char>>|
            #[trigger] read_gave(*read, core_path(core, "online"@), c) && r == flag_of(c),
{
    get_bool(read, &core_file(core, "online"))
}

/// Brings CPU `core` online or offline.
pub fn set_online<E, W>(write: &W, core: u16, online: bool) -> (r: Result<(), E>) where
    W: Fn(&str, &str) -> Result<(), E>,

    requires
        writes_any(*write),
    ensures
        write_gave(*write, core_path(core, "online"@), flag_value(online), r),
{
    let value = String::from_str(flag_str(online));
    set(write, &core_file(core, "online"), value.as_str())
}

/// How often CPU `core` was throttled for heat.
pub fn throttle<R>(read: &R, core: u16) -> (r: Option<u32>) where R: Fn(&str) -> Option<String>,
    requires
        reads_any(*read),
    ensures
        exists|c: Option<Seq<char>>|
            #[trigger] read_gave(*read, core_path(core, "thermal_throttle/core_throttle_count"@), c) && number_of(c, u32::MAX as nat) == match r {
                Some(v) => Some(v as nat),
                None => None,
            },
{
    get_u32(read, &core_file(core, "thermal_throttle/core_throttle_count"))
}

/// The name that irqbalance's process carries, `irqbalance` in ASCII.
pub open spec fn irqbalance_comm() -> Seq<u8> {
    seq![105u8, 114, 113, 98, 97, 108, 97, 110, 99, 101]
}

/// The process name `comm` (`None`: it could not be read) begins with
/// irqbalance's name.
pub open spec fn is_irqbalance(comm: Option<Seq<u8>>) -> bool {
    match comm {
        Some(b) => b.len() >= 10 && b.subrange(0, 10) == irqbalance_comm(),
        None => false,
    }
}

/// The path of the process-name file of the process directory `dir`.
pub open spec fn comm_path(dir: Seq<char>) -> Seq<char> {
    "/proc/"@ + dir + "/comm"@
}

/// `read_comm`, given the path `path`, returned `comm`.
pub open spec fn comm_gave<C: Fn(&str) -> Option<Vec<u8>>>(read_comm: C, path: Seq<char>, comm: Option<Seq<u8>>) -> bool {
    exists|a: &str, c: Option<Vec<u8>>|
        a@ == path && call_ensures(read_comm, (a,), c) && comm == bytes_view(c)
}

pub open spec fn bytes_view(c: Option<Vec<u8>>) -> Option<Seq<u8>> {
    match c {
        Some(v) => Some(v@),
        None => None,
    }
}

/// The process directory `dir` is not irqbalance's: its name is no number, or
/// its process name is another.
pub open spec fn passed_over<C: Fn(&str) -> Option<Vec<u8>>>(read_comm: C, dir: Seq<char>) -> bool {
    parse_spec(dir, u32::MAX as nat) is None || exists|comm: Option<Seq<u8>>|
        #[trigger] comm_gave(read_comm, comm_path(dir), comm) && !is_irqbalance(comm)
}

fn starts_with_irqbalance(b: &Vec<u8>) -> (r: bool)
    ensures
        r == is_irqbalance(Some(b@)),
{
    let name: [u8; 10] = [105, 114, 113, 98, 97, 108, 97, 110, 99, 101];
    assert(name@ =~= irqbalance_comm());
    if b.len() < 10 {
        return false;
    }
    let mut i: usize = 0;
    while i < 10
        invariant
            b@.len() >= 10,
            name@ == irqbalance_comm(),
            i <= 10,
            forall|k: int| 0 <= k < i ==> b@[k] == irqbalance_comm()[k],
        decreases 10 - i,
    {
        if b[i] != name[i] {
            assert(b@.subrange(0, 10)[i as int] != irqbalance_comm()[i as int]);
            return false;
        }
        i = i + 1;
    }
    assert(b@.subrange(0, 10) =~= irqbalance_comm());
    true
}

/// The process id of irqbalance, given the names of the directories under
/// `/proc` and a function that reads a process-name file: the first directory
/// whose name is a number and whose process name begins with `irqbalance`.
pub fn irqbalance_pid<C>(proc_dirs: &Vec<String>, read_comm: &C) -> (r: Option<u32>) where
    C: Fn(&str) -> Option<Vec<u8>>,

    requires
        forall|a: &str| call_requires(*read_comm, (a,)),
    ensures
        r matches Some(pid) ==> exists|i: int|
            0 <= i < proc_dirs@.len() && parse_spec(#[trigger] proc_dirs@[i]@, u32::MAX as nat) == Some(pid as nat)
                && (exists|comm: Option<Seq<u8>>|
                #[trigger] comm_gave(*read_comm, comm_path(proc_dirs@[i]@), comm) && is_irqbalance(comm))
                && forall|j: int| 0 <= j < i ==> passed_over(*read_comm, #[trigger] proc_dirs@[j]@),
        r is None ==> forall|j: int| 0 <= j < proc_dirs@.len() ==> passed_over(*read_comm, #[trigger] proc_dirs@[j]@),
{
    let mut i: usize = 0;
    while i < proc_dirs.len()
        invariant
            i <= proc_dirs.len(),
            forall|a: &str| call_requires(*read_comm, (a,)),
            forall|j: int| 0 <= j < i ==> passed_over(*read_comm, #[trigger] proc_dirs@[j]@),
        decreases proc_dirs.len() - i,
    {
        let dir = &proc_dirs[i];
        if let Some(pid) = parse_u32(dir.as_str()) {
            let path = String::from_str("/proc/").concat(dir.as_str()).concat("/comm");
            let p = path.as_str();
            let comm = read_comm(p);
            let ghost comm_view = bytes_view(comm);
            assert(call_ensures(*read_comm, (p,), comm));
            assert(comm_gave(*read_comm, comm_path(dir@), comm_view));
            let found = match &comm {
                Some(b) => starts_with_irqbalance(b),
                None => false,
            };
            if found {
                return Some(pid);
            }
        }
        i = i + 1;
    }
    None
}
} // verus!
