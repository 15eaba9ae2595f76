use av1_super_daemon::encode::av1an::{build_av1an_command, encode_result, Av1anEncodeParams, EncodeError, ExitOutcome, SVT_PARAMS};
use av1_super_daemon::concurrency::ConcurrencyPlan;
use av1_super_daemon::metrics::{stage_is_running, JobMetrics, MetricsSnapshot};
use av1_super_daemon::metrics_server::{ServerError, METRICS_HOST, METRICS_PORT, METRICS_ROUTE};

fn entry(id: &str, stage: &str) -> JobMetrics {
    JobMetrics {
        id: id.to_string(),
        input_path: format!("/in/{}.mkv", id),
        stage: stage.to_string(),
        crf: 8,
        encoder: "svt-av1".to_string(),
        workers: 4,
        frames_encoded: 0,
        total_frames: 0,
        size_in_bytes_before: 10,
        size_in_bytes_after: 0,
    }
}

#[test]
fn new_snapshot_is_empty() {
    let m = MetricsSnapshot::new();
    assert_eq!(m.timestamp_unix_ms, 0);
    assert_eq!(m.jobs.len(), 0);
    assert_eq!(m.queue_len, 0);
    assert_eq!(m.running_jobs, 0);
    assert_eq!(m.completed_jobs, 0);
    assert_eq!(m.failed_jobs, 0);
    assert_eq!(m.total_bytes_encoded, 0);
}

#[test]
fn running_stages() {
    for stage in ["encoding", "validating", "size_gating", "replacing"] {
        assert!(stage_is_running(stage), "{}", stage);
    }
    for stage in ["queued", "completed", "skipped", "failed", "", "Encoding"] {
        assert!(!stage_is_running(stage), "{}", stage);
    }
}

#[test]
fn update_job_upserts_by_id_and_counts_running() {
    let mut m = MetricsSnapshot::new();
    m.update_job(entry("a", "queued"));
    assert_eq!(m.running_jobs, 0);
    m.update_job(entry("b", "encoding"));
    m.update_job(entry("c", "size_gating"));
    assert_eq!(m.jobs.len(), 3);
    assert_eq!(m.running_jobs, 2);
    m.update_job(entry("a", "replacing"));
    assert_eq!(m.jobs.len(), 3);
    assert_eq!(m.jobs[0], entry("a", "replacing"));
    assert_eq!(m.running_jobs, 3);
    m.update_job(entry("b", "completed"));
    assert_eq!(m.jobs[1].stage, "completed");
    assert_eq!(m.running_jobs, 2);
}

#[test]
fn update_job_replaces_only_the_first_of_an_id() {
    let mut m = MetricsSnapshot::new();
    m.jobs = vec![entry("a", "encoding"), entry("a", "encoding")];
    m.update_job(entry("a", "failed"));
    assert_eq!(m.jobs[0].stage, "failed");
    assert_eq!(m.jobs[1].stage, "encoding");
    assert_eq!(m.running_jobs, 1);
}

#[test]
fn record_encoded_sets_size_and_total() {
    let mut m = MetricsSnapshot::new();
    m.update_job(entry("a", "completed"));
    m.update_job(entry("b", "encoding"));
    m.record_encoded("b", 700);
    assert_eq!(m.jobs[1].size_in_bytes_after, 700);
    assert_eq!(m.jobs[0].size_in_bytes_after, 0);
    assert_eq!(m.total_bytes_encoded, 700);
    assert_eq!(m.running_jobs, 1);
    m.record_encoded("unknown", 5);
    assert_eq!(m.total_bytes_encoded, 705);
    assert_eq!(m.jobs[0].size_in_bytes_after, 0);
}

#[test]
fn counters_and_queue() {
    let mut m = MetricsSnapshot::new();
    m.increment_completed_jobs();
    m.increment_failed_jobs();
    m.increment_failed_jobs();
    assert_eq!(m.completed_jobs, 1);
    assert_eq!(m.failed_jobs, 2);
    m.job_dequeued();
    assert_eq!(m.queue_len, 0);
    m.job_enqueued();
    m.job_enqueued();
    assert_eq!(m.queue_len, 2);
    m.job_dequeued();
    assert_eq!(m.queue_len, 1);
    m.stamp(1701388800000);
    assert_eq!(m.timestamp_unix_ms, 1701388800000);
}

#[test]
fn encoder_argv_is_exact() {
    let params = Av1anEncodeParams::new(
        "/in/a b.mkv".to_string(),
        "/out/x.mkv".to_string(),
        "/tmp/chunks_x".to_string(),
        ConcurrencyPlan {
            total_cores: 32,
            target_threads: 27,
            av1an_workers: 8,
            max_concurrent_jobs: 1,
        },
    );
    assert_eq!(
        build_av1an_command(&params),
        vec![
            "av1an",
            "-i",
            "/in/a b.mkv",
            "-o",
            "/out/x.mkv",
            "--encoder",
            "svt-av1",
            "--pix-format",
            "yuv420p10le",
            "--video-params",
            "--crf 8 --preset 3 --film-grain 20 --enable-qm 1 --qm-min 1 --qm-max 15 --keyint 240 --lookahead 40",
            "--audio-params",
            "-c:a copy",
            "--workers",
            "8",
            "--temp",
            "/tmp/chunks_x",
        ]
    );
    assert_eq!(build_av1an_command(&params)[10], SVT_PARAMS);
}

#[test]
fn encoder_exit_is_read() {
    assert_eq!(encode_result(ExitOutcome::Success), Ok(()));
    assert_eq!(encode_result(ExitOutcome::Code(3)), Err(EncodeError::Av1anFailed(3)));
    assert_eq!(encode_result(ExitOutcome::Code(-1)), Err(EncodeError::Av1anFailed(-1)));
    assert_eq!(encode_result(ExitOutcome::Code(0)), Ok(()));
    assert_eq!(encode_result(ExitOutcome::Signal), Err(EncodeError::Av1anTerminated));
    assert_eq!(
        encode_result(ExitOutcome::SpawnFailed("x".to_string())),
        Err(EncodeError::Io("x".to_string()))
    );
    assert_eq!(
        EncodeError::Av1anFailed(i32::MIN).message(),
        "Av1an failed with exit code: -2147483648"
    );
    assert_eq!(EncodeError::Av1anFailed(0).message(), "Av1an failed with exit code: 0");
}

#[test]
fn server_constants_and_error() {
    assert_eq!(METRICS_HOST, "127.0.0.1");
    assert_eq!(METRICS_PORT, 7878);
    assert_eq!(METRICS_ROUTE, "/metrics");
    assert_eq!(
        ServerError::BindError("in use".to_string()).message(),
        "Failed to bind to address: in use"
    );
}
