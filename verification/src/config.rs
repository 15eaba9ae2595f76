//! The configuration as the core consumes it, its defaults, and the
//! overrides that the environment may carry.

use vstd::prelude::*;
use crate::decimal::{parse_unsigned, unsigned_of};
use crate::gates::GatesConfig;
use crate::ratio::Ratio;
use crate::text::{chars_of, lowercase, lowercase_of, same_text};

verus! {

/// The CPU budget.
#[derive(Debug, Clone, Copy, PartialEq, Eq, Structural)]
pub struct CpuConfig {
    /// Logical cores to plan for; detected where absent.
    pub logical_cores: Option<u32>,
    /// Share of the cores to aim for; clamped to `[0.5, 1.0]` when used.
    pub target_cpu_utilization: Ratio,
}

/// The encoder's concurrency settings. Zero means "derive from the cores".
#[derive(Debug, Clone, Copy, PartialEq, Eq, Structural)]
pub struct Av1anConfig {
    pub workers_per_job: u32,
    pub max_concurrent_jobs: u32,
}

/// Whether hardware encoders are refused at startup.
#[derive(Debug, Clone, Copy, PartialEq, Eq, Structural)]
pub struct EncoderSafetyConfig {
    pub disallow_hardware_encoding: bool,
}

/// Where job records and intermediate outputs live.
#[derive(Debug, Clone, PartialEq, Eq)]
pub struct PathsConfig {
    pub job_state_dir: String,
    pub temp_output_dir: String,
}

/// What is scanned, and how often.
#[derive(Debug, Clone, PartialEq, Eq)]
pub struct ScanConfig {
    pub library_roots: Vec<String>,
    pub stability_wait_secs: u64,
    pub scan_interval_secs: u64,
    pub write_why_sidecars: bool,
}

/// The whole configuration.
#[derive(Debug, Clone, PartialEq, Eq)]
pub struct Config {
    pub cpu: CpuConfig,
    pub av1an: Av1anConfig,
    pub encoder_safety: EncoderSafetyConfig,
    pub paths: PathsConfig,
    pub scan: ScanConfig,
    pub gates: GatesConfig,
}

/// The default target utilisation, 0.85.
pub fn default_target_cpu_utilization() -> (r: Ratio)
    ensures
        r.millionths == 850_000,
{
    Ratio { millionths: 850_000 }
}

/// Hardware encoding is refused unless the configuration says otherwise.
pub fn default_disallow_hardware_encoding() -> (r: bool)
    ensures
        r,
{
    true
}

impl Default for CpuConfig {
    fn default() -> (r: CpuConfig)
        ensures
            r.logical_cores is None,
            r.target_cpu_utilization.millionths == 850_000,
    {
        CpuConfig { logical_cores: None, target_cpu_utilization: default_target_cpu_utilization() }
    }
}

impl Default for Av1anConfig {
    fn default() -> (r: Av1anConfig)
        ensures
            r.workers_per_job == 0,
            r.max_concurrent_jobs == 0,
    {
        Av1anConfig { workers_per_job: 0, max_concurrent_jobs: 0 }
    }
}

impl Default for EncoderSafetyConfig {
    fn default() -> (r: EncoderSafetyConfig)
        ensures
            r.disallow_hardware_encoding,
    {
        EncoderSafetyConfig { disallow_hardware_encoding: default_disallow_hardware_encoding() }
    }
}

impl Default for PathsConfig {
    fn default() -> (r: PathsConfig)
        ensures
            r.job_state_dir@ == "/var/lib/av1-super-daemon/jobs"@,
            r.temp_output_dir@ == "/var/lib/av1-super-daemon/temp"@,
    {
        PathsConfig {
            job_state_dir: String::from_str("/var/lib/av1-super-daemon/jobs"),
            temp_output_dir: String::from_str("/var/lib/av1-super-daemon/temp"),
        }
    }
}

impl Default for ScanConfig {
    fn default() -> (r: ScanConfig)
        ensures
            r.library_roots@.len() == 0,
            r.stability_wait_secs == 10,
            r.scan_interval_secs == 60,
            r.write_why_sidecars,
    {
        ScanConfig {
            library_roots: Vec::new(),
            stability_wait_secs: 10,
            scan_interval_secs: 60,
            write_why_sidecars: true,
        }
    }
}

impl Default for Config {
    fn default() -> (r: Config)
        ensures
            r.cpu.logical_cores is None,
            r.cpu.target_cpu_utilization.millionths == 850_000,
            r.av1an.workers_per_job == 0,
            r.av1an.max_concurrent_jobs == 0,
            r.encoder_safety.disallow_hardware_encoding,
            r.paths.job_state_dir@ == "/var/lib/av1-super-daemon/jobs"@,
            r.paths.temp_output_dir@ == "/var/lib/av1-super-daemon/temp"@,
            r.scan.library_roots@.len() == 0,
            r.scan.stability_wait_secs == 10,
            r.scan.scan_interval_secs == 60,
            r.scan.write_why_sidecars,
            r.gates.min_bytes == 1_048_576,
            r.gates.max_size_ratio.millionths == 950_000,
            !r.gates.keep_original,
    {
        Config {
            cpu: CpuConfig::default(),
            av1an: Av1anConfig::default(),
            encoder_safety: EncoderSafetyConfig::default(),
            paths: PathsConfig::default(),
            scan: ScanConfig::default(),
            gates: GatesConfig::default(),
        }
    }
}

/// The values of the five override variables, each absent where its variable
/// is unset. The numbers and the switch are carried as the text found; the
/// utilisation is carried as the fraction that the text spelled, and is
/// absent where it spelled none.
#[derive(Debug, Clone, PartialEq, Eq)]
pub struct EnvOverrides {
    pub cpu_logical_cores: Option<String>,
    pub cpu_target_utilization: Option<Ratio>,
    pub av1an_workers_per_job: Option<String>,
    pub av1an_max_concurrent_jobs: Option<String>,
    pub encoder_disallow_hardware_encoding: Option<String>,
}

/// What a lower-cased switch word means: `true`, `1`, `yes` switch on,
/// `false`, `0`, `no` switch off, anything else says nothing.
pub open spec fn switch_meaning(lower: Seq<char>) -> Option<bool> {
    if lower == "true"@ || lower == "1"@ || lower == "yes"@ {
        Some(true)
    } else if lower == "false"@ || lower == "0"@ || lower == "no"@ {
        Some(false)
    } else {
        None
    }
}

/// Reads a lower-cased switch word.
pub fn parse_switch(lower: &str) -> (r: Option<bool>)
    ensures
        r == switch_meaning(lower@),
{
    if same_text(lower, "true") || same_text(lower, "1") || same_text(lower, "yes") {
        Some(true)
    } else if same_text(lower, "false") || same_text(lower, "0") || same_text(lower, "no") {
        Some(false)
    } else {
        None
    }
}

/// The number that an override spells, if it is set and spells one.
pub open spec fn override_u32(value: Option<String>) -> Option<u32> {
    match value {
        Some(text) => match unsigned_of(text@, u32::MAX as nat) {
            Some(n) => Some(n as u32),
            None => None,
        },
        None => None,
    }
}

/// Reads a numeric override.
pub fn parse_override_u32(value: &Option<String>) -> (r: Option<u32>)
    ensures
        r == override_u32(*value),
{
    match value {
        Some(text) => {
            let chars = chars_of(text.as_str());
            assert(chars@.subrange(0, chars@.len() as int) =~= text@);
            match parse_unsigned(&chars, 0, chars.len(), 0xffff_ffff) {
                Some(n) => Some(n as u32),
                None => None,
            }
        },
        None => None,
    }
}

/// `current` unless `replacement` holds a value.
pub open spec fn overridden<T>(current: T, replacement: Option<T>) -> T {
    match replacement {
        Some(v) => v,
        None => current,
    }
}

/// The switch that an override sets, given the lower-case form of its text.
pub open spec fn override_switch(value: Option<String>) -> Option<bool> {
    match value {
        Some(text) => switch_meaning(lowercase_of(text@)),
        None => None,
    }
}

impl Config {
    /// Applies the overrides: a value that is set and well-formed replaces
    /// the configured one, and any other leaves it as it was.
    pub fn apply_env_overrides(&mut self, env: &EnvOverrides)
        ensures
            final(self).cpu.logical_cores == match override_u32(env.cpu_logical_cores) {
                Some(n) => Some(n),
                None => old(self).cpu.logical_cores,
            },
            final(self).cpu.target_cpu_utilization == overridden(
                old(self).cpu.target_cpu_utilization,
                env.cpu_target_utilization,
            ),
            final(self).av1an.workers_per_job == overridden(
                old(self).av1an.workers_per_job,
                override_u32(env.av1an_workers_per_job),
            ),
            final(self).av1an.max_concurrent_jobs == overridden(
                old(self).av1an.max_concurrent_jobs,
                override_u32(env.av1an_max_concurrent_jobs),
            ),
            final(self).encoder_safety.disallow_hardware_encoding == overridden(
                old(self).encoder_safety.disallow_hardware_encoding,
                override_switch(env.encoder_disallow_hardware_encoding),
            ),
            final(self).paths == old(self).paths,
            final(self).scan == old(self).scan,
            final(self).gates == old(self).gates,
    {
        match parse_override_u32(&env.cpu_logical_cores) {
            Some(cores) => {
                self.cpu.logical_cores = Some(cores);
            },
            None => {},
        }
        match env.cpu_target_utilization {
            Some(util) => {
                self.cpu.target_cpu_utilization = util;
            },
            None => {},
        }
        match parse_override_u32(&env.av1an_workers_per_job) {
            Some(workers) => {
                self.av1an.workers_per_job = workers;
            },
            None => {},
        }
        match parse_override_u32(&env.av1an_max_concurrent_jobs) {
            Some(jobs) => {
                self.av1an.max_concurrent_jobs = jobs;
            },
            None => {},
        }
        match &env.encoder_disallow_hardware_encoding {
            Some(text) => {
                let lower = lowercase(text.as_str());
                match parse_switch(lower.as_str()) {
                    Some(flag) => {
                        self.encoder_safety.disallow_hardware_encoding = flag;
                    },
                    None => {},
                }
            },
            None => {},
        }
    }
}

/// Why a configuration could not be loaded.
#[derive(Debug, Clone, PartialEq, Eq)]
pub enum ConfigError {
    /// The file could not be read.
    Io(String),
    /// The file's content is not a configuration.
    Parse(String),
}

/// A `ConfigError` with its text as a sequence.
pub enum ConfigErrorView {
    Io(Seq<char>),
    Parse(Seq<char>),
}

impl View for ConfigError {
    type V = ConfigErrorView;

    open spec fn view(&self) -> ConfigErrorView {
        match self {
            ConfigError::Io(text) => ConfigErrorView::Io(text@),
            ConfigError::Parse(text) => ConfigErrorView::Parse(text@),
        }
    }
}

impl ConfigErrorView {
    /// The message of the error.
    pub open spec fn message(self) -> Seq<char> {
        match self {
            ConfigErrorView::Io(text) => "Failed to read config file: "@ + text,
            ConfigErrorView::Parse(text) => "Failed to parse config: "@ + text,
        }
    }
}

impl ConfigError {
    /// The message of the error.
    pub fn message(&self) -> (r: String)
        ensures
            r@ == self@.message(),
    {
        match self {
            ConfigError::Io(text) => crate::text::concat2(
                "Failed to read config file: ",
                text.as_str(),
            ),
            ConfigError::Parse(text) => crate::text::concat2(
                "Failed to parse config: ",
                text.as_str(),
            ),
        }
    }
}

} // verus!
