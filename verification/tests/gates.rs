use av1_super_daemon::gates::{
    check_gates, ffprobe_command, parse_ffprobe_output, probe_result, skip_reason, AudioStream,
    FfprobeOutput, Format, FormatInfo, GateResult, GatesConfig, ProbeError, ProbeOutcome,
    ProbeResult, Stream, VideoStream,
};

fn make_video_stream(codec: &str, width: u32, height: u32) -> VideoStream {
    VideoStream {
        codec_name: codec.to_string(),
        width,
        height,
        bitrate_kbps: Some(5000),
    }
}

fn make_audio_stream(codec: &str, channels: u32) -> AudioStream {
    AudioStream {
        codec_name: codec.to_string(),
        channels,
    }
}

fn make_probe_result(video_streams: Vec<VideoStream>, audio_streams: Vec<AudioStream>) -> ProbeResult {
    ProbeResult {
        video_streams,
        audio_streams,
        format: FormatInfo {
            duration_millis: 3_600_000,
            size_bytes: 5_000_000_000,
        },
    }
}

fn stream(kind: Option<&str>, codec: Option<&str>) -> Stream {
    Stream {
        codec_type: kind.map(|s| s.to_string()),
        codec_name: codec.map(|s| s.to_string()),
        width: None,
        height: None,
        bit_rate: None,
        channels: None,
    }
}

#[test]
fn test_parse_ffprobe_output_basic() {
    let raw = FfprobeOutput {
        streams: Some(vec![
            Stream {
                codec_type: Some("video".to_string()),
                codec_name: Some("hevc".to_string()),
                width: Some(1920),
                height: Some(1080),
                bit_rate: Some("25000000".to_string()),
                channels: None,
            },
            Stream {
                codec_type: Some("audio".to_string()),
                codec_name: Some("aac".to_string()),
                width: None,
                height: None,
                bit_rate: None,
                channels: Some(6),
            },
        ]),
        format: Some(Format {
            duration: Some("7200.5".to_string()),
            size: Some("22548578304".to_string()),
        }),
    };

    let result = parse_ffprobe_output(&raw).expect("Should parse valid report");

    assert_eq!(result.video_streams.len(), 1);
    assert_eq!(result.video_streams[0].codec_name, "hevc");
    assert_eq!(result.video_streams[0].width, 1920);
    assert_eq!(result.video_streams[0].height, 1080);
    assert_eq!(result.video_streams[0].bitrate_kbps, Some(25000));

    assert_eq!(result.audio_streams.len(), 1);
    assert_eq!(result.audio_streams[0].codec_name, "aac");
    assert_eq!(result.audio_streams[0].channels, 6);

    assert_eq!(result.format.duration_millis, 7_200_500);
    assert_eq!(result.format.size_bytes, 22548578304);
}

#[test]
fn test_parse_ffprobe_output_no_streams() {
    let raw = FfprobeOutput {
        streams: Some(vec![]),
        format: Some(Format {
            duration: Some("100.0".to_string()),
            size: Some("1000000".to_string()),
        }),
    };
    let result = parse_ffprobe_output(&raw).expect("Should parse report with no streams");
    assert!(result.video_streams.is_empty());
    assert!(result.audio_streams.is_empty());
}

#[test]
fn test_parse_ffprobe_output_missing_optional_fields() {
    let raw = FfprobeOutput {
        streams: Some(vec![stream(Some("video"), Some("h264"))]),
        format: Some(Format {
            duration: Some("60.0".to_string()),
            size: Some("500000".to_string()),
        }),
    };
    let result = parse_ffprobe_output(&raw).expect("Should parse report with missing optional fields");
    assert_eq!(result.video_streams.len(), 1);
    assert_eq!(result.video_streams[0].width, 0);
    assert_eq!(result.video_streams[0].height, 0);
    assert!(result.video_streams[0].bitrate_kbps.is_none());
}

#[test]
fn test_check_gates_no_video_streams() {
    let probe = make_probe_result(vec![], vec![make_audio_stream("aac", 2)]);
    let cfg = GatesConfig::default();
    let result = check_gates(&probe, 10_000_000, &cfg);
    match result {
        GateResult::Skip { reason } => {
            assert!(reason.contains("no video streams"));
        }
        _ => panic!("Expected Skip result"),
    }
}

#[test]
fn test_check_gates_below_min_size() {
    let probe = make_probe_result(vec![make_video_stream("hevc", 1920, 1080)], vec![]);
    let cfg = GatesConfig {
        min_bytes: 10_000_000,
        ..Default::default()
    };
    let result = check_gates(&probe, 5_000_000, &cfg);
    match result {
        GateResult::Skip { reason } => {
            assert!(reason.contains("below minimum size"));
        }
        _ => panic!("Expected Skip result"),
    }
}

#[test]
fn test_check_gates_already_av1() {
    let probe = make_probe_result(vec![make_video_stream("av1", 1920, 1080)], vec![]);
    let cfg = GatesConfig {
        min_bytes: 1_000,
        ..Default::default()
    };
    let result = check_gates(&probe, 10_000_000, &cfg);
    match result {
        GateResult::Skip { reason } => {
            assert!(reason.contains("already AV1"));
        }
        _ => panic!("Expected Skip result"),
    }
}

#[test]
fn test_check_gates_pass() {
    let probe = make_probe_result(
        vec![make_video_stream("hevc", 1920, 1080)],
        vec![make_audio_stream("aac", 2)],
    );
    let cfg = GatesConfig {
        min_bytes: 1_000,
        ..Default::default()
    };
    let result = check_gates(&probe, 10_000_000, &cfg);
    match result {
        GateResult::Pass(returned_probe) => {
            assert_eq!(returned_probe.video_streams[0].codec_name, "hevc");
            assert_eq!(returned_probe, probe);
        }
        _ => panic!("Expected Pass result"),
    }
}

#[test]
fn gates_config_defaults() {
    let cfg = GatesConfig::default();
    assert_eq!(cfg.min_bytes, 1_048_576);
    assert_eq!(cfg.max_size_ratio.millionths, 950_000);
    assert!(!cfg.keep_original);
}

#[test]
fn gate_reasons_are_exact() {
    let cfg = GatesConfig {
        min_bytes: 10_000_000,
        ..Default::default()
    };
    let none = make_probe_result(vec![], vec![]);
    assert_eq!(
        check_gates(&none, 5, &cfg),
        GateResult::Skip {
            reason: "no video streams".to_string()
        }
    );
    let small = make_probe_result(vec![make_video_stream("hevc", 1, 1)], vec![]);
    assert_eq!(
        check_gates(&small, 5_000_000, &cfg),
        GateResult::Skip {
            reason: "below minimum size".to_string()
        }
    );
    assert_eq!(
        check_gates(&make_probe_result(vec![make_video_stream("AV1", 1, 1)], vec![]), 10_000_000, &cfg),
        GateResult::Skip {
            reason: "already AV1".to_string()
        }
    );
}

#[test]
fn first_failing_gate_decides() {
    let cfg = GatesConfig {
        min_bytes: 100,
        ..Default::default()
    };
    // No video and too small: the missing video decides.
    let none = make_probe_result(vec![], vec![]);
    assert_eq!(
        check_gates(&none, 1, &cfg),
        GateResult::Skip {
            reason: "no video streams".to_string()
        }
    );
    // Too small and already AV1: the size decides.
    let av1 = make_probe_result(vec![make_video_stream("av1", 1, 1)], vec![]);
    assert_eq!(
        check_gates(&av1, 99, &cfg),
        GateResult::Skip {
            reason: "below minimum size".to_string()
        }
    );
    // At the minimum the size gate passes.
    assert_eq!(
        check_gates(&av1, 100, &cfg),
        GateResult::Skip {
            reason: "already AV1".to_string()
        }
    );
}

#[test]
fn av1_variants_are_rejected_and_only_first_stream_counts() {
    let cfg = GatesConfig {
        min_bytes: 1,
        ..Default::default()
    };
    for codec in ["av1", "AV1", "Av1", "av1_nvenc", "libaom-av1", "libsvtav1", "av1_qsv"] {
        let probe = make_probe_result(vec![make_video_stream(codec, 1920, 1080)], vec![]);
        assert_eq!(
            check_gates(&probe, 10, &cfg),
            GateResult::Skip {
                reason: "already AV1".to_string()
            }
        );
    }
    let second = make_probe_result(
        vec![make_video_stream("hevc", 1, 1), make_video_stream("av1", 1, 1)],
        vec![],
    );
    assert!(matches!(check_gates(&second, 10, &cfg), GateResult::Pass(_)));
}

#[test]
fn skip_reason_takes_the_codec_as_given() {
    assert_eq!(skip_reason(1, 10, 1, "AV1"), None);
    assert_eq!(skip_reason(1, 10, 1, "av1"), Some("already AV1".to_string()));
    assert_eq!(skip_reason(0, 10, 1, "hevc"), Some("no video streams".to_string()));
    assert_eq!(
        skip_reason(2, 0, 1, "hevc"),
        Some("below minimum size".to_string())
    );
}

#[test]
fn report_without_format_is_a_parse_error() {
    let raw = FfprobeOutput {
        streams: Some(vec![stream(Some("video"), Some("h264"))]),
        format: None,
    };
    assert_eq!(
        parse_ffprobe_output(&raw),
        Err(ProbeError::ParseError(
            "Missing format information in ffprobe output".to_string()
        ))
    );
}

#[test]
fn report_without_stream_list_has_no_streams() {
    let raw = FfprobeOutput {
        streams: None,
        format: Some(Format {
            duration: None,
            size: None,
        }),
    };
    let probe = parse_ffprobe_output(&raw).unwrap();
    assert!(probe.video_streams.is_empty());
    assert!(probe.audio_streams.is_empty());
    assert_eq!(probe.format.duration_millis, 0);
    assert_eq!(probe.format.size_bytes, 0);
}

#[test]
fn streams_are_sorted_by_kind_in_order() {
    let raw = FfprobeOutput {
        streams: Some(vec![
            stream(Some("audio"), Some("aac")),
            stream(Some("video"), Some("hevc")),
            stream(Some("subtitle"), Some("srt")),
            stream(None, Some("bin")),
            stream(Some("video"), None),
            stream(Some("Video"), Some("h264")),
            stream(Some("audio"), Some("dts")),
        ]),
        format: Some(Format {
            duration: Some("1".to_string()),
            size: Some("2".to_string()),
        }),
    };
    let probe = parse_ffprobe_output(&raw).unwrap();
    let videos: Vec<&str> = probe.video_streams.iter().map(|v| v.codec_name.as_str()).collect();
    let audios: Vec<&str> = probe.audio_streams.iter().map(|a| a.codec_name.as_str()).collect();
    assert_eq!(videos, vec!["hevc", ""]);
    assert_eq!(audios, vec!["aac", "dts"]);
    assert_eq!(probe.format.duration_millis, 1000);
    assert_eq!(probe.format.size_bytes, 2);
}

#[test]
fn bit_rate_is_divided_by_a_thousand() {
    let rates = [
        ("25000000", Some(25000)),
        ("999", Some(0)),
        ("1000", Some(1)),
        ("1999", Some(1)),
        ("+2000", Some(2)),
        ("18446744073709551615", Some(18446744073709551)),
        ("18446744073709551616", None),
        ("", None),
        ("N/A", None),
        ("-5", None),
        ("12a", None),
    ];
    for (text, expected) in rates {
        let mut s = stream(Some("video"), Some("hevc"));
        s.bit_rate = Some(text.to_string());
        let raw = FfprobeOutput {
            streams: Some(vec![s]),
            format: Some(Format {
                duration: None,
                size: None,
            }),
        };
        let probe = parse_ffprobe_output(&raw).unwrap();
        assert_eq!(probe.video_streams[0].bitrate_kbps, expected, "bit rate {:?}", text);
    }
}

#[test]
fn durations_are_read_in_thousandths() {
    let cases = [
        ("7200.5", 7_200_500),
        ("7200.500000", 7_200_500),
        ("0.0019", 1),
        ("12", 12_000),
        ("12.", 12_000),
        ("3.25", 3_250),
        ("abc", 0),
        (".5", 0),
        ("1.2.3", 0),
        ("1.x", 0),
        ("", 0),
        ("18446744073709551.615", 18446744073709551615),
        ("18446744073709551.616", 0),
    ];
    for (text, expected) in cases {
        let raw = FfprobeOutput {
            streams: None,
            format: Some(Format {
                duration: Some(text.to_string()),
                size: Some("x".to_string()),
            }),
        };
        let probe = parse_ffprobe_output(&raw).unwrap();
        assert_eq!(probe.format.duration_millis, expected, "duration {:?}", text);
        assert_eq!(probe.format.size_bytes, 0);
    }
}

#[test]
fn probe_argv_is_exact() {
    assert_eq!(
        ffprobe_command("/media/a b.mkv"),
        vec![
            "ffprobe",
            "-v",
            "quiet",
            "-print_format",
            "json",
            "-show_streams",
            "-show_format",
            "/media/a b.mkv"
        ]
    );
}

#[test]
fn probe_outcomes_map_to_errors() {
    assert_eq!(
        probe_result(&ProbeOutcome::NotRun("no such file".to_string())),
        Err(ProbeError::Io("no such file".to_string()))
    );
    assert_eq!(
        probe_result(&ProbeOutcome::Failed {
            status: "exit status: 1".to_string(),
            stderr: "  bad file \n".to_string()
        }),
        Err(ProbeError::FfprobeFailed(
            "ffprobe exited with status exit status: 1: bad file".to_string()
        ))
    );
    assert_eq!(
        probe_result(&ProbeOutcome::Malformed("expected value".to_string())),
        Err(ProbeError::ParseError("expected value".to_string()))
    );
    let report = FfprobeOutput {
        streams: None,
        format: Some(Format {
            duration: None,
            size: Some("7".to_string()),
        }),
    };
    assert_eq!(probe_result(&ProbeOutcome::Report(report)).unwrap().format.size_bytes, 7);
}

#[test]
fn probe_error_messages() {
    assert_eq!(ProbeError::FfprobeFailed("x".to_string()).message(), "ffprobe failed: x");
    assert_eq!(
        ProbeError::ParseError("y".to_string()).message(),
        "Failed to parse ffprobe output: y"
    );
    assert_eq!(ProbeError::Io("z".to_string()).message(), "IO error: z");
}

#[test]
fn duplicate_copies_everything() {
    let probe = make_probe_result(
        vec![make_video_stream("hevc", 1920, 1080), make_video_stream("h264", 1, 2)],
        vec![make_audio_stream("aac", 2)],
    );
    assert_eq!(probe.duplicate(), probe);
}
