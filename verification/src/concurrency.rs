//! The concurrency plan: how many workers a job gets and how many jobs run
//! at once, from the core count and the configured overrides.

use vstd::prelude::*;
use crate::config::{Av1anConfig, Config};
use crate::ratio::{clamped, lemma_scaled_round_bounds, scaled_round, Ratio};

verus! {

/// The limits for one run. Made once at startup and not changed after.
#[derive(Debug, Clone, Copy, PartialEq, Eq, Structural)]
pub struct ConcurrencyPlan {
    /// Logical cores planned for.
    pub total_cores: u32,
    /// Cores times the clamped utilisation, rounded. Advisory.
    pub target_threads: u32,
    /// Encoder workers per job.
    pub av1an_workers: u32,
    /// Jobs that may run at once.
    pub max_concurrent_jobs: u32,
}

/// Workers per job where none is configured: 8 from 32 cores up, else 4.
pub open spec fn workers_for(cores: u32) -> u32 {
    if cores >= 32 {
        8
    } else {
        4
    }
}

/// Concurrent jobs where none is configured: 1 from 24 cores up, else 2.
pub open spec fn max_jobs_for(cores: u32) -> u32 {
    if cores >= 24 {
        1
    } else {
        2
    }
}

/// The utilisation as used: clamped into `[0.5, 1.0]`.
pub open spec fn clamped_utilization(utilization: Ratio) -> nat {
    clamped(utilization.millionths as nat, 500_000, 1_000_000)
}

/// `round(cores * clamp(utilization, 0.5, 1.0))`.
pub open spec fn target_threads_for(cores: u32, utilization: Ratio) -> nat {
    scaled_round(cores as nat, clamped_utilization(utilization))
}

/// The plan for `cores` cores under the given settings. A non-zero override
/// is taken as it is.
pub open spec fn plan_for(cores: u32, utilization: Ratio, av1an: Av1anConfig) -> ConcurrencyPlan {
    ConcurrencyPlan {
        total_cores: cores,
        target_threads: target_threads_for(cores, utilization) as u32,
        av1an_workers: if av1an.workers_per_job > 0 {
            av1an.workers_per_job
        } else {
            workers_for(cores)
        },
        max_concurrent_jobs: if av1an.max_concurrent_jobs > 0 {
            av1an.max_concurrent_jobs
        } else {
            max_jobs_for(cores)
        },
    }
}

/// Workers per job for a core count.
pub fn derive_workers(cores: u32) -> (r: u32)
    ensures
        r == workers_for(cores),
{
    if cores >= 32 {
        8
    } else {
        4
    }
}

/// Concurrent jobs for a core count.
pub fn derive_max_jobs(cores: u32) -> (r: u32)
    ensures
        r == max_jobs_for(cores),
{
    if cores >= 24 {
        1
    } else {
        2
    }
}

/// Calls `num_cpus::get`, the count of logical cores open to this process.
/// The count depends on the machine, so nothing is claimed of it.
#[verifier::external_body]
fn detected_cores() -> (n: usize) {
    num_cpus::get()
}

impl ConcurrencyPlan {
    /// The plan for a known core count.
    pub fn for_cores(total_cores: u32, cfg: &Config) -> (plan: ConcurrencyPlan)
        ensures
            plan == plan_for(total_cores, cfg.cpu.target_cpu_utilization, cfg.av1an),
            plan.target_threads <= total_cores,
            total_cores >= 1 ==> plan.target_threads >= 1,
    {
        let utilization = cfg.cpu.target_cpu_utilization.clamp(
            Ratio { millionths: 500_000 },
            Ratio { millionths: 1_000_000 },
        );
        proof {
            lemma_scaled_round_bounds(total_cores as nat, utilization.millionths as nat);
        }
        let target_threads = utilization.round_of(total_cores as u64) as u32;
        let av1an_workers = if cfg.av1an.workers_per_job > 0 {
            cfg.av1an.workers_per_job
        } else {
            derive_workers(total_cores)
        };
        let max_concurrent_jobs = if cfg.av1an.max_concurrent_jobs > 0 {
            cfg.av1an.max_concurrent_jobs
        } else {
            derive_max_jobs(total_cores)
        };
        ConcurrencyPlan { total_cores, target_threads, av1an_workers, max_concurrent_jobs }
    }

    /// The plan for the configured core count, or for the detected one where
    /// none is configured.
    pub fn derive(cfg: &Config) -> (plan: ConcurrencyPlan)
        ensures
            plan == plan_for(plan.total_cores, cfg.cpu.target_cpu_utilization, cfg.av1an),
            cfg.cpu.logical_cores matches Some(cores) ==> plan.total_cores == cores,
            plan.target_threads <= plan.total_cores,
            plan.total_cores >= 1 ==> plan.target_threads >= 1,
    {
        let total_cores = match cfg.cpu.logical_cores {
            Some(cores) => cores,
            None => {
                let n = detected_cores();
                #[verifier::truncate]
                (n as u32)
            },
        };
        ConcurrencyPlan::for_cores(total_cores, cfg)
    }
}

/// The plan for a configuration.
pub fn derive_plan(cfg: &Config) -> (plan: ConcurrencyPlan)
    ensures
        plan == plan_for(plan.total_cores, cfg.cpu.target_cpu_utilization, cfg.av1an),
        cfg.cpu.logical_cores matches Some(cores) ==> plan.total_cores == cores,
        plan.target_threads <= plan.total_cores,
        plan.total_cores >= 1 ==> plan.target_threads >= 1,
{
    ConcurrencyPlan::derive(cfg)
}

/// Without overrides the workers and the job limit depend on the core count
/// alone: 8 workers from 32 cores up and 4 below, one job from 24 cores up
/// and two below.
pub proof fn lemma_derived_limits(cores: u32, utilization: Ratio, av1an: Av1anConfig)
    requires
        cores >= 1,
        av1an.workers_per_job == 0,
        av1an.max_concurrent_jobs == 0,
    ensures
        plan_for(cores, utilization, av1an).av1an_workers == 8 <==> cores >= 32,
        plan_for(cores, utilization, av1an).av1an_workers == 4 <==> cores < 32,
        plan_for(cores, utilization, av1an).max_concurrent_jobs == 1 <==> cores >= 24,
        plan_for(cores, utilization, av1an).max_concurrent_jobs == 2 <==> cores < 24,
{
}

/// Overrides above zero come back unchanged, whatever the core count.
pub proof fn lemma_overrides_verbatim(cores: u32, utilization: Ratio, av1an: Av1anConfig)
    ensures
        av1an.workers_per_job > 0 ==> plan_for(cores, utilization, av1an).av1an_workers
            == av1an.workers_per_job,
        av1an.max_concurrent_jobs > 0 ==> plan_for(cores, utilization, av1an).max_concurrent_jobs
            == av1an.max_concurrent_jobs,
{
}

/// The target is the product of the cores and the clamped utilisation,
/// rounded to the nearest whole number: twice their distance is at most one.
/// It never exceeds the cores.
pub proof fn lemma_target_threads_rounds(cores: u32, utilization: Ratio, av1an: Av1anConfig)
    ensures
        ({
            let t = plan_for(cores, utilization, av1an).target_threads as nat;
            let u = clamped_utilization(utilization);
            &&& 500_000 <= u <= 1_000_000
            &&& u == utilization.millionths || utilization.millionths < 500_000
                || utilization.millionths > 1_000_000
            &&& 2 * 1_000_000 * t <= 2 * cores * u + 1_000_000
            &&& 2 * cores * u < 2 * 1_000_000 * t + 1_000_000
            &&& t <= cores
        }),
{
    let u = clamped_utilization(utilization);
    crate::ratio::lemma_scaled_round_is_nearest(cores as nat, u);
    lemma_scaled_round_bounds(cores as nat, u);
}

} // verus!
