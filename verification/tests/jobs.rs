use av1_super_daemon::classify::SourceType;
use av1_super_daemon::gates::{AudioStream, FormatInfo, ProbeResult, VideoStream};
use av1_super_daemon::jobs::{
    assemble_job, create_job, current_timestamp_ms, job_exists_for_path, job_file_name, Job,
    JobStage, JobStatus,
};
use av1_super_daemon::scan::ScanCandidate;
use std::path::Path;

fn make_probe_result() -> ProbeResult {
    ProbeResult {
        video_streams: vec![VideoStream {
            codec_name: "hevc".to_string(),
            width: 1920,
            height: 1080,
            bitrate_kbps: Some(5000),
        }],
        audio_streams: vec![AudioStream {
            codec_name: "aac".to_string(),
            channels: 6,
        }],
        format: FormatInfo {
            duration_millis: 7_200_000,
            size_bytes: 22548578304,
        },
    }
}

fn make_scan_candidate(path: &str) -> ScanCandidate {
    ScanCandidate {
        path: path.to_string(),
        size_bytes: 5_000_000_000,
        modified_time: 1_700_000_000,
    }
}

fn make_job() -> Job {
    create_job(
        &make_scan_candidate("/media/movies/film.mkv"),
        make_probe_result(),
        SourceType::Unknown,
        "/tmp/av1-daemon",
    )
}

#[test]
fn test_job_stage_display() {
    assert_eq!(JobStage::Queued.as_str(), "queued");
    assert_eq!(JobStage::Encoding.as_str(), "encoding");
    assert_eq!(JobStage::Validating.as_str(), "validating");
    assert_eq!(JobStage::SizeGating.as_str(), "size_gating");
    assert_eq!(JobStage::Replacing.as_str(), "replacing");
    assert_eq!(JobStage::Complete.as_str(), "complete");
}

#[test]
fn test_job_status_display() {
    assert_eq!(JobStatus::Pending.as_str(), "pending");
    assert_eq!(JobStatus::Running.as_str(), "running");
    assert_eq!(JobStatus::Success.as_str(), "success");
    assert_eq!(JobStatus::Failed.as_str(), "failed");
    assert_eq!(JobStatus::Skipped.as_str(), "skipped");
}

#[test]
fn test_job_stage_default() {
    assert_eq!(JobStage::default(), JobStage::Queued);
}

#[test]
fn test_job_status_default() {
    assert_eq!(JobStatus::default(), JobStatus::Pending);
}

#[test]
fn test_create_job() {
    let candidate = make_scan_candidate("/media/movies/film.mkv");
    let probe = make_probe_result();
    let temp_dir = "/tmp/av1-daemon";

    let job = create_job(&candidate, probe.clone(), SourceType::DiscLike, temp_dir);

    assert_eq!(job.id.len(), 36);
    assert!(job.id.contains('-'));

    assert_eq!(job.stage, JobStage::Queued);
    assert_eq!(job.status, JobStatus::Pending);
    assert_eq!(job.source_type, SourceType::DiscLike);
    assert_eq!(job.input_path, "/media/movies/film.mkv");
    assert!(Path::new(&job.output_path).starts_with(temp_dir));
    assert!(job.output_path.ends_with(".mkv"));
    assert!(job.created_at > 0);
    assert_eq!(job.created_at, job.updated_at);
    assert!(job.error_reason.is_none());

    assert_eq!(job.probe_result.video_streams.len(), 1);
    assert_eq!(job.probe_result.video_streams[0].codec_name, "hevc");
}

#[test]
fn test_job_touch() {
    let mut job = make_job();
    let original_updated = job.updated_at;
    job.touch();
    assert!(job.updated_at >= original_updated);
}

#[test]
fn test_job_set_stage() {
    let mut job = make_job();
    job.set_stage(JobStage::Encoding);
    assert_eq!(job.stage, JobStage::Encoding);
    job.set_stage(JobStage::Complete);
    assert_eq!(job.stage, JobStage::Complete);
}

#[test]
fn test_job_set_status() {
    let mut job = make_job();
    job.set_status(JobStatus::Running);
    assert_eq!(job.status, JobStatus::Running);
    job.set_status(JobStatus::Success);
    assert_eq!(job.status, JobStatus::Success);
}

#[test]
fn test_job_fail() {
    let mut job = make_job();
    job.fail("Encoding failed: av1an exited with code 1");
    assert_eq!(job.status, JobStatus::Failed);
    assert_eq!(
        job.error_reason,
        Some("Encoding failed: av1an exited with code 1".to_string())
    );
}

#[test]
fn test_job_skip() {
    let mut job = make_job();
    job.skip("Size gate rejected: output larger than original");
    assert_eq!(job.status, JobStatus::Skipped);
    assert_eq!(
        job.error_reason,
        Some("Size gate rejected: output larger than original".to_string())
    );
}

#[test]
fn test_job_is_terminal() {
    let mut job = make_job();
    assert!(!job.is_terminal());
    job.set_status(JobStatus::Running);
    assert!(!job.is_terminal());
    job.set_status(JobStatus::Success);
    assert!(job.is_terminal());
    job.set_status(JobStatus::Failed);
    assert!(job.is_terminal());
    job.set_status(JobStatus::Skipped);
    assert!(job.is_terminal());
}

#[test]
fn test_job_is_active() {
    let mut job = make_job();
    assert!(job.is_active());
    job.set_status(JobStatus::Running);
    assert!(job.is_active());
    job.set_status(JobStatus::Success);
    assert!(!job.is_active());
    job.set_status(JobStatus::Failed);
    assert!(!job.is_active());
    job.set_status(JobStatus::Skipped);
    assert!(!job.is_active());
}

#[test]
fn test_job_exists_for_path() {
    let candidate1 = make_scan_candidate("/media/movies/film1.mkv");
    let candidate2 = make_scan_candidate("/media/movies/film2.mkv");
    let probe = make_probe_result();
    let temp_dir = "/tmp/av1-daemon";

    let mut job1 = create_job(&candidate1, probe.clone(), SourceType::Unknown, temp_dir);
    let mut job2 = create_job(&candidate2, probe.clone(), SourceType::Unknown, temp_dir);

    job2.set_status(JobStatus::Success);

    let jobs = vec![job1.clone(), job2.clone()];

    assert!(job_exists_for_path(&jobs, "/media/movies/film1.mkv"));
    assert!(!job_exists_for_path(&jobs, "/media/movies/film2.mkv"));
    assert!(!job_exists_for_path(&jobs, "/media/movies/film3.mkv"));

    job1.set_status(JobStatus::Running);
    let jobs = vec![job1, job2];
    assert!(job_exists_for_path(&jobs, "/media/movies/film1.mkv"));
}

#[test]
fn job_ids_are_hyphenated_lower_hex_and_fresh() {
    let a = make_job();
    let b = make_job();
    assert_ne!(a.id, b.id);
    for (i, c) in a.id.chars().enumerate() {
        if i == 8 || i == 13 || i == 18 || i == 23 {
            assert_eq!(c, '-');
        } else {
            assert!(c.is_ascii_digit() || ('a'..='f').contains(&c), "char {} at {}", c, i);
        }
    }
}

#[test]
fn assembled_job_is_exact() {
    let candidate = make_scan_candidate("/media/movies/film.mkv");
    let job = assemble_job(
        "abc".to_string(),
        42,
        &candidate,
        make_probe_result(),
        SourceType::WebLike,
        "/tmp/out",
    );
    assert_eq!(
        job,
        Job {
            id: "abc".to_string(),
            input_path: "/media/movies/film.mkv".to_string(),
            output_path: "/tmp/out/abc.mkv".to_string(),
            stage: JobStage::Queued,
            status: JobStatus::Pending,
            source_type: SourceType::WebLike,
            probe_result: make_probe_result(),
            created_at: 42,
            updated_at: 42,
            error_reason: None,
        }
    );
}

#[test]
fn output_path_joins_with_one_separator() {
    let candidate = make_scan_candidate("/m/f.mkv");
    let job = assemble_job(
        "id".to_string(),
        0,
        &candidate,
        make_probe_result(),
        SourceType::Unknown,
        "/tmp/out/",
    );
    assert_eq!(job.output_path, "/tmp/out/id.mkv");
}

#[test]
fn stamp_sets_only_the_update_time() {
    let mut job = make_job();
    let before = job.clone();
    job.stamp(77);
    assert_eq!(job.updated_at, 77);
    job.updated_at = before.updated_at;
    assert_eq!(job, before);
}

#[test]
fn setters_leave_the_rest_alone() {
    let mut job = make_job();
    let before = job.clone();
    job.fail("why");
    assert_eq!(job.id, before.id);
    assert_eq!(job.input_path, before.input_path);
    assert_eq!(job.output_path, before.output_path);
    assert_eq!(job.stage, before.stage);
    assert_eq!(job.created_at, before.created_at);
    assert_eq!(job.probe_result, before.probe_result);
    assert_eq!(job.source_type, before.source_type);
}

#[test]
fn record_file_name() {
    assert_eq!(job_file_name("1234"), "1234.json");
}

#[test]
fn empty_job_list_has_no_active_job() {
    assert!(!job_exists_for_path(&[], "/media/a.mkv"));
}

#[test]
fn timestamp_is_recent() {
    assert!(current_timestamp_ms() > 1577836800000);
}
