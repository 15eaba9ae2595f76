use av1_super_daemon::concurrency::ConcurrencyPlan;
use av1_super_daemon::encode::av1an::{Av1anEncodeParams, EncodeError};
use av1_super_daemon::job_executor::{
    Cleanup, Event, Job, JobError, JobExecutor, JobExecutorConfig, JobState, Phase, Pipeline,
    Request, Step,
};
use av1_super_daemon::metrics::{JobMetrics, MetricsSnapshot};
use av1_super_daemon::ratio::Ratio;
use av1_super_daemon::replace::ReplaceError;

fn create_test_plan(max_concurrent_jobs: u32) -> ConcurrencyPlan {
    ConcurrencyPlan {
        total_cores: 32,
        target_threads: 28,
        av1an_workers: 8,
        max_concurrent_jobs,
    }
}

fn create_test_job(id: &str) -> Job {
    Job::new(
        id.to_string(),
        "/tmp/input.mkv".to_string(),
        "/tmp/output.mkv".to_string(),
    )
}

fn executor() -> JobExecutor {
    JobExecutor::new(create_test_plan(1), "/tmp/work".to_string())
}

#[test]
fn test_job_creation() {
    let job = create_test_job("test-001");
    assert_eq!(job.id, "test-001");
    assert_eq!(job.state, JobState::Queued);
    assert_eq!(job.total_frames, 0);
    assert_eq!(job.size_in_bytes_before, 0);
}

#[test]
fn test_job_to_metrics() {
    let mut job = create_test_job("test-002");
    job.state = JobState::Encoding;
    job.total_frames = 120000;
    job.size_in_bytes_before = 5368709120;

    let metrics = job.to_metrics(8);

    assert_eq!(metrics.id, "test-002");
    assert_eq!(metrics.stage, "encoding");
    assert_eq!(metrics.workers, 8);
    assert_eq!(metrics.total_frames, 120000);
    assert_eq!(metrics.size_in_bytes_before, 5368709120);
    assert_eq!(metrics.encoder, "svt-av1");
    assert_eq!(metrics.crf, 8);
}

#[test]
fn test_job_executor_config_defaults() {
    let config = JobExecutorConfig::default();
    assert_eq!(config.max_size_ratio, Ratio { millionths: 950_000 });
    assert!(!config.keep_original);
    assert!(config.write_why_sidecars);
}

#[test]
fn executor_settings() {
    let x = JobExecutor::new(create_test_plan(3), "/tmp".to_string());
    assert_eq!(x.permits(), 3);
    assert_eq!(x.concurrency_plan(), &create_test_plan(3));
    assert_eq!(x.config, JobExecutorConfig::default());
    let config = JobExecutorConfig {
        max_size_ratio: Ratio { millionths: 800_000 },
        keep_original: true,
        write_why_sidecars: false,
    };
    let y = JobExecutor::with_config(create_test_plan(2), "/tmp".to_string(), config);
    assert_eq!(y.permits(), 2);
    assert_eq!(y.config, config);
    assert_eq!(y.temp_base_dir, "/tmp");
}

fn movie_job(size_before: u64) -> Job {
    let mut job = Job::new(
        "j1".to_string(),
        "/lib/movie.2024.WEB-DL.1080p.mkv".to_string(),
        "/out/j1.mkv".to_string(),
    );
    job.size_in_bytes_before = size_before;
    job
}

fn none() -> Vec<Cleanup> {
    Vec::new()
}

fn entry(stage: &str, size_before: u64, size_after: u64) -> JobMetrics {
    JobMetrics {
        id: "j1".to_string(),
        input_path: "/lib/movie.2024.WEB-DL.1080p.mkv".to_string(),
        stage: stage.to_string(),
        crf: 8,
        encoder: "svt-av1".to_string(),
        workers: 8,
        frames_encoded: 0,
        total_frames: 0,
        size_in_bytes_before: size_before,
        size_in_bytes_after: size_after,
    }
}

#[test]
fn scenario_admit_and_replace() {
    let x = executor();
    let mut m = MetricsSnapshot::new();
    let mut p = Pipeline::for_job(&x, movie_job(2_000_000_000));
    assert_eq!(p.phase, Phase::Admission);

    let s = p.step(&x, &mut m, Event::PermitAcquired);
    assert_eq!(
        s,
        Step {
            cleanup: none(),
            request: Request::CreateTempDir {
                path: "/tmp/work/chunks_j1".to_string()
            }
        }
    );
    assert_eq!(p.job.state, JobState::Encoding);
    assert_eq!(m.jobs, vec![entry("encoding", 2_000_000_000, 0)]);
    assert_eq!(m.running_jobs, 1);

    let s = p.step(&x, &mut m, Event::TempDirReady);
    assert_eq!(
        s,
        Step {
            cleanup: none(),
            request: Request::RunEncoder {
                params: Av1anEncodeParams {
                    input_path: "/lib/movie.2024.WEB-DL.1080p.mkv".to_string(),
                    output_path: "/out/j1.mkv".to_string(),
                    temp_chunks_dir: "/tmp/work/chunks_j1".to_string(),
                    concurrency: create_test_plan(1),
                }
            }
        }
    );
    assert_eq!(m.running_jobs, 1);

    let s = p.step(&x, &mut m, Event::EncoderSucceeded);
    assert_eq!(
        s,
        Step {
            cleanup: none(),
            request: Request::CheckOutput {
                path: "/out/j1.mkv".to_string()
            }
        }
    );
    assert_eq!(p.job.state, JobState::Validating);
    assert_eq!(m.jobs[0].stage, "validating");

    let s = p.step(&x, &mut m, Event::OutputFound(700_000_000));
    assert_eq!(
        s,
        Step {
            cleanup: none(),
            request: Request::Continue
        }
    );
    assert_eq!(p.job.state, JobState::SizeGating);
    assert_eq!(m.running_jobs, 1);

    let s = p.step(&x, &mut m, Event::Continue);
    assert_eq!(
        s,
        Step {
            cleanup: none(),
            request: Request::Replace {
                original_path: "/lib/movie.2024.WEB-DL.1080p.mkv".to_string(),
                encoded_path: "/out/j1.mkv".to_string(),
                keep_original: false
            }
        }
    );
    assert_eq!(p.job.state, JobState::Replacing);
    assert_eq!(m.running_jobs, 1);

    let s = p.step(&x, &mut m, Event::Replaced);
    assert_eq!(
        s,
        Step {
            cleanup: vec![
                Cleanup::RemoveDirAll {
                    path: "/tmp/work/chunks_j1".to_string()
                },
                Cleanup::RemoveFile {
                    path: "/out/j1.mkv".to_string()
                }
            ],
            request: Request::Finish(Ok(()))
        }
    );
    assert_eq!(p.job.state, JobState::Completed);
    assert_eq!(p.phase, Phase::Done);
    assert_eq!(m.completed_jobs, 1);
    assert_eq!(m.failed_jobs, 0);
    assert_eq!(m.total_bytes_encoded, 700_000_000);
    assert_eq!(m.running_jobs, 0);
    assert_eq!(m.jobs, vec![entry("completed", 2_000_000_000, 700_000_000)]);
}

#[test]
fn scenario_size_gate_rejection() {
    let x = executor();
    let mut m = MetricsSnapshot::new();
    let mut p = Pipeline::for_job(&x, movie_job(2_000_000_000));
    p.step(&x, &mut m, Event::PermitAcquired);
    p.step(&x, &mut m, Event::TempDirReady);
    p.step(&x, &mut m, Event::EncoderSucceeded);
    p.step(&x, &mut m, Event::OutputFound(2_100_000_000));
    let s = p.step(&x, &mut m, Event::Continue);
    let reason =
        "Size gate rejected: output 2100000000 bytes (105.0%) >= original 2000000000 bytes * 0.95";
    assert_eq!(
        s,
        Step {
            cleanup: vec![Cleanup::RemoveFile {
                path: "/out/j1.mkv".to_string()
            }],
            request: Request::WriteSkipMarker {
                video_path: "/lib/movie.2024.WEB-DL.1080p.mkv".to_string()
            }
        }
    );
    assert_eq!(p.job.state, JobState::Skipped(reason.to_string()));
    assert_eq!(m.failed_jobs, 1);
    assert_eq!(m.completed_jobs, 0);
    assert_eq!(m.running_jobs, 0);
    assert_eq!(m.jobs[0].stage, "skipped");

    let s = p.step(&x, &mut m, Event::MarkerWritten);
    assert_eq!(
        s,
        Step {
            cleanup: vec![
                Cleanup::WriteWhySidecar {
                    video_path: "/lib/movie.2024.WEB-DL.1080p.mkv".to_string(),
                    reason: reason.to_string()
                },
                Cleanup::RemoveDirAll {
                    path: "/tmp/work/chunks_j1".to_string()
                }
            ],
            request: Request::Finish(Err(JobError::SizeGateRejected {
                original_bytes: 2_000_000_000,
                output_bytes: 2_100_000_000,
                ratio: Some(Ratio {
                    millionths: 1_050_000
                })
            }))
        }
    );
    assert!(reason.contains("Size gate rejected"));
    assert_eq!(p.phase, Phase::Done);
    assert_eq!(m.failed_jobs, 1);
    assert_eq!(m.total_bytes_encoded, 0);
}

fn at_size_gate(x: &JobExecutor, m: &mut MetricsSnapshot, size_before: u64, output: u64) -> Pipeline {
    let mut p = Pipeline::for_job(&x, movie_job(size_before));
    p.step(x, m, Event::PermitAcquired);
    p.step(x, m, Event::TempDirReady);
    p.step(x, m, Event::EncoderSucceeded);
    p.step(x, m, Event::OutputFound(output));
    p
}

#[test]
fn rejection_without_sidecar_and_marker_failure() {
    let config = JobExecutorConfig {
        max_size_ratio: Ratio { millionths: 950_000 },
        keep_original: true,
        write_why_sidecars: false,
    };
    let x = JobExecutor::with_config(create_test_plan(1), "/tmp/work".to_string(), config);
    let mut m = MetricsSnapshot::new();
    let mut p = at_size_gate(&x, &mut m, 100, 95);
    assert!(matches!(p.step(&x, &mut m, Event::Continue).request, Request::WriteSkipMarker { .. }));
    let s = p.step(&x, &mut m, Event::MarkerWritten);
    assert_eq!(
        s.cleanup,
        vec![Cleanup::RemoveDirAll {
            path: "/tmp/work/chunks_j1".to_string()
        }]
    );

    let mut m = MetricsSnapshot::new();
    let mut p = at_size_gate(&x, &mut m, 100, 95);
    p.step(&x, &mut m, Event::Continue);
    let s = p.step(&x, &mut m, Event::MarkerFailed("read-only".to_string()));
    assert_eq!(
        s,
        Step {
            cleanup: vec![Cleanup::RemoveDirAll {
                path: "/tmp/work/chunks_j1".to_string()
            }],
            request: Request::Finish(Err(JobError::SkipMarkerFailed("read-only".to_string())))
        }
    );
    assert!(matches!(p.job.state, JobState::Skipped(_)));
    assert_eq!(p.phase, Phase::Done);
    assert_eq!(m.failed_jobs, 1);
    assert_eq!(m.jobs[0].stage, "skipped");

    // keep_original is handed on to the replacement
    let mut m = MetricsSnapshot::new();
    let mut p = at_size_gate(&x, &mut m, 100, 94);
    assert_eq!(
        p.step(&x, &mut m, Event::Continue).request,
        Request::Replace {
            original_path: "/lib/movie.2024.WEB-DL.1080p.mkv".to_string(),
            encoded_path: "/out/j1.mkv".to_string(),
            keep_original: true
        }
    );
}

#[test]
fn encoder_failures_fail_the_job_and_spare_the_original() {
    let x = executor();
    for (event, reason, error) in [
        (
            Event::EncoderFailed(EncodeError::Av1anFailed(1)),
            "Av1an failed with exit code: 1",
            JobError::Encode(EncodeError::Av1anFailed(1)),
        ),
        (
            Event::EncoderFailed(EncodeError::Av1anFailed(-9)),
            "Av1an failed with exit code: -9",
            JobError::Encode(EncodeError::Av1anFailed(-9)),
        ),
        (
            Event::EncoderFailed(EncodeError::Av1anTerminated),
            "Av1an process was terminated by signal",
            JobError::Encode(EncodeError::Av1anTerminated),
        ),
        (
            Event::EncoderFailed(EncodeError::Io("not found".to_string())),
            "IO error: not found",
            JobError::Encode(EncodeError::Io("not found".to_string())),
        ),
        (
            Event::EncoderPanicked("boom".to_string()),
            "Encoding task panicked: boom",
            JobError::Validation("Encoding task panicked: boom".to_string()),
        ),
    ] {
        let mut m = MetricsSnapshot::new();
        let mut p = Pipeline::for_job(&x, movie_job(100));
        p.step(&x, &mut m, Event::PermitAcquired);
        p.step(&x, &mut m, Event::TempDirReady);
        let s = p.step(&x, &mut m, event);
        assert_eq!(
            s,
            Step {
                cleanup: vec![Cleanup::RemoveDirAll {
                    path: "/tmp/work/chunks_j1".to_string()
                }],
                request: Request::Finish(Err(error))
            }
        );
        assert_eq!(p.job.state, JobState::Failed(reason.to_string()));
        assert_eq!(m.failed_jobs, 1);
        assert_eq!(m.completed_jobs, 0);
        assert_eq!(m.running_jobs, 0);
        assert_eq!(m.jobs[0].stage, "failed");
    }
}

#[test]
fn missing_and_empty_output_fail_validation() {
    let x = executor();
    let mut m = MetricsSnapshot::new();
    let mut p = Pipeline::for_job(&x, movie_job(100));
    p.step(&x, &mut m, Event::PermitAcquired);
    p.step(&x, &mut m, Event::TempDirReady);
    p.step(&x, &mut m, Event::EncoderSucceeded);
    let s = p.step(&x, &mut m, Event::OutputMissing("No such file".to_string()));
    assert_eq!(
        s,
        Step {
            cleanup: vec![Cleanup::RemoveDirAll {
                path: "/tmp/work/chunks_j1".to_string()
            }],
            request: Request::Finish(Err(JobError::Validation(
                "Output file not found: No such file".to_string()
            )))
        }
    );
    assert_eq!(m.failed_jobs, 1);

    let mut m = MetricsSnapshot::new();
    let mut p = Pipeline::for_job(&x, movie_job(100));
    p.step(&x, &mut m, Event::PermitAcquired);
    p.step(&x, &mut m, Event::TempDirReady);
    p.step(&x, &mut m, Event::EncoderSucceeded);
    let s = p.step(&x, &mut m, Event::OutputFound(0));
    assert_eq!(
        s,
        Step {
            cleanup: vec![
                Cleanup::RemoveDirAll {
                    path: "/tmp/work/chunks_j1".to_string()
                },
                Cleanup::RemoveFile {
                    path: "/out/j1.mkv".to_string()
                }
            ],
            request: Request::Finish(Err(JobError::Validation("Output file is empty".to_string())))
        }
    );
    assert_eq!(p.job.state, JobState::Failed("Output file is empty".to_string()));
}

#[test]
fn failed_replacement_keeps_the_files() {
    let x = executor();
    let mut m = MetricsSnapshot::new();
    let mut p = at_size_gate(&x, &mut m, 100, 10);
    p.step(&x, &mut m, Event::Continue);
    let s = p.step(
        &x,
        &mut m,
        Event::ReplaceFailed(ReplaceError::CopyFailed("disk full".to_string())),
    );
    assert_eq!(
        s,
        Step {
            cleanup: none(),
            request: Request::Finish(Err(JobError::Replacement(ReplaceError::CopyFailed(
                "disk full".to_string()
            ))))
        }
    );
    assert_eq!(
        p.job.state,
        JobState::Failed("Failed to copy encoded file: disk full".to_string())
    );
    assert_eq!(m.failed_jobs, 1);
    assert_eq!(m.total_bytes_encoded, 0);
}

#[test]
fn temp_dir_failure_ends_the_job_as_it_stands() {
    let x = executor();
    let mut m = MetricsSnapshot::new();
    let mut p = Pipeline::for_job(&x, movie_job(100));
    p.step(&x, &mut m, Event::PermitAcquired);
    let before = m.clone();
    let s = p.step(&x, &mut m, Event::TempDirFailed("denied".to_string()));
    assert_eq!(
        s,
        Step {
            cleanup: none(),
            request: Request::Finish(Err(JobError::TempDirCreation("denied".to_string())))
        }
    );
    assert_eq!(p.phase, Phase::Done);
    assert_eq!(p.job.state, JobState::Encoding);
    assert_eq!(m, before);
}

#[test]
fn unexpected_events_are_ignored() {
    let x = executor();
    let mut m = MetricsSnapshot::new();
    let mut p = Pipeline::for_job(&x, movie_job(100));
    for event in [
        Event::TempDirReady,
        Event::EncoderSucceeded,
        Event::OutputFound(5),
        Event::Continue,
        Event::Replaced,
        Event::MarkerWritten,
    ] {
        let before = p.clone();
        let s = p.step(&x, &mut m, event);
        assert_eq!(s.request, Request::Ignored);
        assert!(s.cleanup.is_empty());
        assert_eq!(p, before);
        assert_eq!(m, MetricsSnapshot::new());
    }
    // a finished job ignores everything
    let mut p = at_size_gate(&x, &mut m, 100, 10);
    p.step(&x, &mut m, Event::Continue);
    p.step(&x, &mut m, Event::Replaced);
    let after = m.clone();
    for event in [Event::PermitAcquired, Event::Replaced, Event::Continue] {
        assert_eq!(p.step(&x, &mut m, event).request, Request::Ignored);
        assert_eq!(m, after);
        assert_eq!(p.job.state, JobState::Completed);
    }
}

#[test]
fn two_jobs_share_the_snapshot() {
    let x = executor();
    let mut m = MetricsSnapshot::new();
    let mut a = Pipeline::for_job(&x, Job::new("a".to_string(), "/in/a.mkv".to_string(), "/out/a.mkv".to_string()));
    let mut b = Pipeline::for_job(&x, Job::new("b".to_string(), "/in/b.mkv".to_string(), "/out/b.mkv".to_string()));
    a.step(&x, &mut m, Event::PermitAcquired);
    b.step(&x, &mut m, Event::PermitAcquired);
    assert_eq!(m.jobs.len(), 2);
    assert_eq!(m.running_jobs, 2);
    a.step(&x, &mut m, Event::TempDirReady);
    a.step(&x, &mut m, Event::EncoderFailed(EncodeError::Av1anTerminated));
    assert_eq!(m.jobs.len(), 2);
    assert_eq!(m.jobs[0].id, "a");
    assert_eq!(m.jobs[0].stage, "failed");
    assert_eq!(m.jobs[1].stage, "encoding");
    assert_eq!(m.running_jobs, 1);
    assert_eq!(m.failed_jobs, 1);
}

#[test]
fn job_error_messages() {
    assert_eq!(
        JobError::Encode(EncodeError::Av1anFailed(2)).message(),
        "Encode failed: Av1an failed with exit code: 2"
    );
    assert_eq!(
        JobError::TempDirCreation("x".to_string()).message(),
        "Failed to create temp directory: x"
    );
    assert_eq!(JobError::Validation("x".to_string()).message(), "Validation failed: x");
    assert_eq!(
        JobError::Replacement(ReplaceError::BackupFailed("x".to_string())).message(),
        "Replacement failed: Failed to create backup: x"
    );
    assert_eq!(
        JobError::SizeGateRejected {
            original_bytes: 100,
            output_bytes: 105,
            ratio: Some(Ratio {
                millionths: 1_050_000
            })
        }
        .message(),
        "Size gate rejected: output 105 >= original 100 * 1.050000"
    );
    assert_eq!(
        JobError::SizeGateRejected {
            original_bytes: 0,
            output_bytes: 5,
            ratio: None
        }
        .message(),
        "Size gate rejected: output 5 >= original 0 * inf"
    );
    assert_eq!(
        JobError::SkipMarkerFailed("x".to_string()).message(),
        "Failed to write skip marker: x"
    );
}

#[test]
fn marker_failure_does_not_abort_the_skip() {
    let x = executor();
    let mut m = MetricsSnapshot::new();
    let mut p = at_size_gate(&x, &mut m, 2_000_000_000, 2_100_000_000);
    let s = p.step(&x, &mut m, Event::Continue);
    assert_eq!(
        s.cleanup,
        vec![Cleanup::RemoveFile {
            path: "/out/j1.mkv".to_string()
        }]
    );
    let before = m.clone();
    let s = p.step(&x, &mut m, Event::MarkerFailed("read-only file system".to_string()));
    assert_eq!(
        s,
        Step {
            cleanup: vec![
                Cleanup::WriteWhySidecar {
                    video_path: "/lib/movie.2024.WEB-DL.1080p.mkv".to_string(),
                    reason: "Size gate rejected: output 2100000000 bytes (105.0%) >= original 2000000000 bytes * 0.95".to_string()
                },
                Cleanup::RemoveDirAll {
                    path: "/tmp/work/chunks_j1".to_string()
                }
            ],
            request: Request::Finish(Err(JobError::SkipMarkerFailed(
                "read-only file system".to_string()
            )))
        }
    );
    assert!(matches!(p.job.state, JobState::Skipped(_)));
    assert_eq!(m, before);
    assert_eq!(m.failed_jobs, 1);
}

#[test]
fn room_is_needed_only_where_a_counter_moves() {
    let x = executor();
    let mut m = MetricsSnapshot::new();
    let mut p = at_size_gate(&x, &mut m, 100, 95);
    m.failed_jobs = u64::MAX - 1;
    m.completed_jobs = u64::MAX;
    m.total_bytes_encoded = u64::MAX;
    assert!(p.has_room(&x, &m, &Event::Continue));
    p.step(&x, &mut m, Event::Continue);
    assert_eq!(m.failed_jobs, u64::MAX);
    // the counters are full, and the steps that count nothing may still be taken
    assert!(p.has_room(&x, &m, &Event::MarkerWritten));
    assert!(p.has_room(&x, &m, &Event::MarkerFailed("x".to_string())));
    assert!(p.has_room(&x, &m, &Event::Replaced));
    let s = p.step(&x, &mut m, Event::MarkerWritten);
    assert!(matches!(s.request, Request::Finish(Err(JobError::SizeGateRejected { .. }))));

    // a step that would count a failure needs room for it
    let mut full = MetricsSnapshot::new();
    let mut p = Pipeline::for_job(&x, movie_job(100));
    p.step(&x, &mut full, Event::PermitAcquired);
    p.step(&x, &mut full, Event::TempDirReady);
    full.failed_jobs = u64::MAX;
    assert!(!p.has_room(&x, &full, &Event::EncoderFailed(EncodeError::Av1anTerminated)));
    assert!(!p.has_room(&x, &full, &Event::EncoderPanicked("x".to_string())));
    assert!(p.has_room(&x, &full, &Event::EncoderSucceeded));
    p.step(&x, &mut full, Event::EncoderSucceeded);
    assert!(!p.has_room(&x, &full, &Event::OutputMissing("x".to_string())));
    assert!(!p.has_room(&x, &full, &Event::OutputFound(0)));
    assert!(p.has_room(&x, &full, &Event::OutputFound(10)));
    p.step(&x, &mut full, Event::OutputFound(10));
    // accepted: nothing is counted at the size gate
    assert!(p.has_room(&x, &full, &Event::Continue));
    p.step(&x, &mut full, Event::Continue);
    assert!(!p.has_room(&x, &full, &Event::ReplaceFailed(ReplaceError::CopyFailed("x".to_string()))));
    full.total_bytes_encoded = u64::MAX - 9;
    assert!(!p.has_room(&x, &full, &Event::Replaced));
    full.total_bytes_encoded = u64::MAX - 10;
    assert!(p.has_room(&x, &full, &Event::Replaced));
    full.completed_jobs = u64::MAX;
    assert!(!p.has_room(&x, &full, &Event::Replaced));

    // rejected: the size gate counts a failure
    let mut m = MetricsSnapshot::new();
    let p = at_size_gate(&x, &mut m, 100, 95);
    m.failed_jobs = u64::MAX;
    assert!(!p.has_room(&x, &m, &Event::Continue));
}
