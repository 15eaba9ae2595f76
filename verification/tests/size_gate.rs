use av1_super_daemon::concurrency::{
    derive_max_jobs, derive_plan, derive_workers, ConcurrencyPlan,
};
use av1_super_daemon::config::{
    default_disallow_hardware_encoding, default_target_cpu_utilization, parse_override_u32,
    parse_switch, Av1anConfig, Config, ConfigError, CpuConfig, EncoderSafetyConfig, EnvOverrides,
    PathsConfig, ScanConfig,
};
use av1_super_daemon::ratio::Ratio;
use av1_super_daemon::size_gate::{check_size_gate, describe_rejection, SizeGateResult};

fn ratio(millionths: u64) -> Ratio {
    Ratio { millionths }
}

#[test]
fn size_gate_accepts_below_the_floor() {
    assert_eq!(check_size_gate(100, 94, ratio(950_000)), SizeGateResult::Accept);
    assert_eq!(
        check_size_gate(100, 95, ratio(950_000)),
        SizeGateResult::Reject {
            original_bytes: 100,
            output_bytes: 95,
            ratio: Some(ratio(950_000))
        }
    );
    // floor(101 * 0.95) = floor(95.95) = 95
    assert_eq!(check_size_gate(101, 94, ratio(950_000)), SizeGateResult::Accept);
    assert!(matches!(check_size_gate(101, 95, ratio(950_000)), SizeGateResult::Reject { .. }));
}

#[test]
fn size_gate_threshold_sweep() {
    for orig in [0u64, 1, 2, 19, 20, 21, 1000, 123_456_789, u64::MAX / 2, u64::MAX] {
        for m in [10_000u64, 333_333, 500_000, 950_000, 999_999, 1_000_000] {
            let threshold = ((orig as u128) * (m as u128) / 1_000_000) as u64;
            for out in [0u64, 1, threshold.saturating_sub(1), threshold, threshold.saturating_add(1), u64::MAX] {
                let accepted = check_size_gate(orig, out, ratio(m)) == SizeGateResult::Accept;
                assert_eq!(accepted, out < threshold, "orig {} out {} m {}", orig, out, m);
            }
        }
    }
}

#[test]
fn empty_original_is_always_rejected() {
    assert_eq!(
        check_size_gate(0, 0, ratio(1_000_000)),
        SizeGateResult::Reject {
            original_bytes: 0,
            output_bytes: 0,
            ratio: None
        }
    );
    assert_eq!(
        check_size_gate(0, 7, ratio(950_000)),
        SizeGateResult::Reject {
            original_bytes: 0,
            output_bytes: 7,
            ratio: None
        }
    );
}

#[test]
fn scenario_sizes() {
    let two_gb = 2_000_000_000u64;
    assert_eq!(check_size_gate(two_gb, 700_000_000, ratio(950_000)), SizeGateResult::Accept);
    assert_eq!(
        check_size_gate(two_gb, 2_100_000_000, ratio(950_000)),
        SizeGateResult::Reject {
            original_bytes: two_gb,
            output_bytes: 2_100_000_000,
            ratio: Some(ratio(1_050_000))
        }
    );
}

#[test]
fn rejected_ratio_saturates() {
    assert_eq!(
        check_size_gate(1, u64::MAX, ratio(950_000)),
        SizeGateResult::Reject {
            original_bytes: 1,
            output_bytes: u64::MAX,
            ratio: Some(ratio(u64::MAX))
        }
    );
}

#[test]
fn rejection_text_is_exact() {
    assert_eq!(
        describe_rejection(2_000_000_000, 2_100_000_000, ratio(950_000)),
        "Size gate rejected: output 2100000000 bytes (105.0%) >= original 2000000000 bytes * 0.95"
    );
    assert_eq!(
        describe_rejection(0, 5, ratio(1_000_000)),
        "Size gate rejected: output 5 bytes (inf%) >= original 0 bytes * 1.00"
    );
    assert_eq!(
        describe_rejection(3, 2, ratio(504_999)),
        "Size gate rejected: output 2 bytes (66.7%) >= original 3 bytes * 0.50"
    );
    assert_eq!(
        describe_rejection(1000, 999, ratio(95_000)),
        "Size gate rejected: output 999 bytes (99.9%) >= original 1000 bytes * 0.10"
    );
}

#[test]
fn ratio_helpers() {
    assert_eq!(Ratio::from_millionths(5), ratio(5));
    assert_eq!(ratio(400_000).clamp(ratio(500_000), ratio(1_000_000)), ratio(500_000));
    assert_eq!(ratio(2_000_000).clamp(ratio(500_000), ratio(1_000_000)), ratio(1_000_000));
    assert_eq!(ratio(700_000).clamp(ratio(500_000), ratio(1_000_000)), ratio(700_000));
    assert_eq!(ratio(950_000).floor_of(101), 95);
    assert_eq!(ratio(850_000).round_of(10), 9);
    assert_eq!(ratio(849_999).round_of(10), 8);
    assert_eq!(ratio(u64::MAX).floor_of(u64::MAX), (u64::MAX as u128) * (u64::MAX as u128) / 1_000_000);
    assert_eq!(Ratio::of_quotient(1, 3), ratio(333_333));
    assert_eq!(Ratio::of_quotient(u64::MAX, 1), ratio(u64::MAX));
    assert_eq!(ratio(1_050_000).to_text(), "1.050000");
    assert_eq!(ratio(7).to_text(), "0.000007");
}

fn config(cores: Option<u32>, util: u64, workers: u32, jobs: u32) -> Config {
    Config {
        cpu: CpuConfig {
            logical_cores: cores,
            target_cpu_utilization: ratio(util),
        },
        av1an: Av1anConfig {
            workers_per_job: workers,
            max_concurrent_jobs: jobs,
        },
        encoder_safety: EncoderSafetyConfig::default(),
        paths: PathsConfig::default(),
        scan: ScanConfig::default(),
        gates: Default::default(),
    }
}

#[test]
fn plan_derivation_for_every_core_count() {
    for cores in 1u32..256 {
        let plan = derive_plan(&config(Some(cores), 850_000, 0, 0));
        assert_eq!(plan.total_cores, cores);
        assert_eq!(plan.av1an_workers, if cores >= 32 { 8 } else { 4 });
        assert_eq!(plan.max_concurrent_jobs, if cores >= 24 { 1 } else { 2 });
        assert_eq!(derive_workers(cores), if cores >= 32 { 8 } else { 4 });
        assert_eq!(derive_max_jobs(cores), if cores >= 24 { 1 } else { 2 });
    }
}

#[test]
fn overrides_are_taken_verbatim() {
    for cores in [1u32, 16, 24, 32, 255] {
        for workers in [1u32, 7, 63, u32::MAX] {
            for jobs in [1u32, 3, 15, u32::MAX] {
                let plan = derive_plan(&config(Some(cores), 850_000, workers, jobs));
                assert_eq!(plan.av1an_workers, workers);
                assert_eq!(plan.max_concurrent_jobs, jobs);
            }
        }
    }
}

#[test]
fn target_threads_round_the_clamped_product() {
    let cases = [
        (32u32, 850_000u64, 27u32), // 27.2
        (10, 850_000, 9),           // 8.5 rounds up
        (48, 900_000, 43),          // 43.2
        (1, 0, 1),                  // clamped to 0.5, 0.5 rounds up
        (3, 100_000, 2),            // clamped to 0.5: 1.5 rounds up
        (8, 3_000_000, 8),          // clamped to 1.0
        (7, 500_000, 4),            // 3.5 rounds up
        (0, 850_000, 0),
        (u32::MAX, 1_000_000, u32::MAX),
        (100, 555_555, 56),
    ];
    for (cores, util, expected) in cases {
        let plan = derive_plan(&config(Some(cores), util, 0, 0));
        assert_eq!(plan.target_threads, expected, "cores {} util {}", cores, util);
        assert!(plan.target_threads <= plan.total_cores);
    }
}

#[test]
fn plan_for_known_cores_is_exact() {
    assert_eq!(
        ConcurrencyPlan::for_cores(32, &config(None, 850_000, 0, 0)),
        ConcurrencyPlan {
            total_cores: 32,
            target_threads: 27,
            av1an_workers: 8,
            max_concurrent_jobs: 1
        }
    );
}

#[test]
fn detected_cores_give_a_plan() {
    let plan = derive_plan(&config(None, 850_000, 0, 0));
    assert!(plan.total_cores >= 1);
    assert!(plan.target_threads >= 1 && plan.target_threads <= plan.total_cores);
    assert_eq!(plan.av1an_workers, if plan.total_cores >= 32 { 8 } else { 4 });
}

#[test]
fn config_defaults() {
    let cfg = Config::default();
    assert_eq!(cfg.cpu.logical_cores, None);
    assert_eq!(cfg.cpu.target_cpu_utilization, ratio(850_000));
    assert_eq!(default_target_cpu_utilization(), ratio(850_000));
    assert_eq!(cfg.av1an.workers_per_job, 0);
    assert_eq!(cfg.av1an.max_concurrent_jobs, 0);
    assert!(cfg.encoder_safety.disallow_hardware_encoding);
    assert!(default_disallow_hardware_encoding());
    assert_eq!(cfg.gates.min_bytes, 1_048_576);
    assert_eq!(cfg.gates.max_size_ratio, ratio(950_000));
    assert!(!cfg.gates.keep_original);
    assert!(cfg.scan.write_why_sidecars);
    assert_eq!(cfg.scan.stability_wait_secs, 10);
}

fn no_overrides() -> EnvOverrides {
    EnvOverrides {
        cpu_logical_cores: None,
        cpu_target_utilization: None,
        av1an_workers_per_job: None,
        av1an_max_concurrent_jobs: None,
        encoder_disallow_hardware_encoding: None,
    }
}

#[test]
fn overrides_replace_what_they_spell() {
    let mut cfg = config(Some(4), 850_000, 1, 2);
    let before = cfg.clone();
    cfg.apply_env_overrides(&no_overrides());
    assert_eq!(cfg, before);

    cfg.apply_env_overrides(&EnvOverrides {
        cpu_logical_cores: Some("64".to_string()),
        cpu_target_utilization: Some(ratio(600_000)),
        av1an_workers_per_job: Some("12".to_string()),
        av1an_max_concurrent_jobs: Some("3".to_string()),
        encoder_disallow_hardware_encoding: Some("No".to_string()),
    });
    assert_eq!(cfg.cpu.logical_cores, Some(64));
    assert_eq!(cfg.cpu.target_cpu_utilization, ratio(600_000));
    assert_eq!(cfg.av1an.workers_per_job, 12);
    assert_eq!(cfg.av1an.max_concurrent_jobs, 3);
    assert!(!cfg.encoder_safety.disallow_hardware_encoding);
    assert_eq!(cfg.paths, before.paths);
    assert_eq!(cfg.scan, before.scan);
    assert_eq!(cfg.gates, before.gates);
}

#[test]
fn malformed_overrides_change_nothing() {
    let mut cfg = config(Some(4), 850_000, 1, 2);
    let before = cfg.clone();
    cfg.apply_env_overrides(&EnvOverrides {
        cpu_logical_cores: Some("sixty".to_string()),
        cpu_target_utilization: None,
        av1an_workers_per_job: Some("-1".to_string()),
        av1an_max_concurrent_jobs: Some("4294967296".to_string()),
        encoder_disallow_hardware_encoding: Some("maybe".to_string()),
    });
    assert_eq!(cfg, before);
}

#[test]
fn switch_words() {
    for word in ["true", "1", "yes"] {
        assert_eq!(parse_switch(word), Some(true));
    }
    for word in ["false", "0", "no"] {
        assert_eq!(parse_switch(word), Some(false));
    }
    for word in ["", "TRUE", "on", "2", " yes"] {
        assert_eq!(parse_switch(word), None);
    }
    for (word, expected) in [("TRUE", true), ("Yes", true), ("FALSE", false), ("nO", false)] {
        let mut cfg = config(None, 1, 0, 0);
        cfg.encoder_safety.disallow_hardware_encoding = !expected;
        let mut env = no_overrides();
        env.encoder_disallow_hardware_encoding = Some(word.to_string());
        cfg.apply_env_overrides(&env);
        assert_eq!(cfg.encoder_safety.disallow_hardware_encoding, expected);
    }
}

#[test]
fn numeric_overrides() {
    assert_eq!(parse_override_u32(&None), None);
    assert_eq!(parse_override_u32(&Some("0".to_string())), Some(0));
    assert_eq!(parse_override_u32(&Some("+7".to_string())), Some(7));
    assert_eq!(parse_override_u32(&Some("4294967295".to_string())), Some(u32::MAX));
    assert_eq!(parse_override_u32(&Some("4294967296".to_string())), None);
    assert_eq!(parse_override_u32(&Some("".to_string())), None);
    assert_eq!(parse_override_u32(&Some("+".to_string())), None);
    assert_eq!(parse_override_u32(&Some(" 7".to_string())), None);
    assert_eq!(parse_override_u32(&Some("7.0".to_string())), None);
}

#[test]
fn config_error_messages() {
    assert_eq!(
        ConfigError::Io("gone".to_string()).message(),
        "Failed to read config file: gone"
    );
    assert_eq!(
        ConfigError::Parse("bad".to_string()).message(),
        "Failed to parse config: bad"
    );
}
