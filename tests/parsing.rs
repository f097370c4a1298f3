use vertd::http::{
    bearer_token, port_is_numeric, upload_extension, version_from_banner, version_label, ApiResponse,
    AuthDecision, Authentication, UploadError,
};
use vertd::job::{fps_from_text, Job, ProbeError, ProbeKind};
use vertd::progress::parse_progress_record;
use vertd::text::{decimal_text, parse_u64, trim_text};

#[test]
fn fps_examples() {
    assert_eq!(fps_from_text("30/1"), Ok(30));
    assert_eq!(fps_from_text("30000/1001"), Ok(30));
    assert_eq!(fps_from_text("0/1"), Ok(0));
    assert_eq!(fps_from_text("24"), Ok(24));
    assert_eq!(fps_from_text("5/0"), Ok(0));
    assert_eq!(fps_from_text("24000/1001"), Ok(24));
    assert_eq!(fps_from_text("5/2"), Ok(3));
}

#[test]
fn fps_refusals() {
    assert_eq!(fps_from_text(""), Err(ProbeError::BadFrameRate));
    assert_eq!(fps_from_text("abc"), Err(ProbeError::BadFrameRate));
    assert_eq!(fps_from_text("1/2/3"), Err(ProbeError::BadFrameRate));
    assert_eq!(fps_from_text("x/1"), Err(ProbeError::BadFrameRate));
    assert_eq!(fps_from_text("4294967296"), Err(ProbeError::BadFrameRate));
}

#[test]
fn fps_is_memoised_from_trimmed_output() {
    let mut job = Job::new("t".to_string(), "mp4".to_string());
    assert_eq!(job.fps(), None);
    assert_eq!(job.record_fps("30000/1001\n"), Ok(30));
    assert_eq!(job.fps(), Some(30));
    assert_eq!(job.record_fps("bad"), Err(ProbeError::BadFrameRate));
    assert_eq!(job.fps(), Some(30));
}

#[test]
fn bitrate_probe_and_default() {
    let mut job = Job::new("t".to_string(), "mp4".to_string());
    assert_eq!(job.bitrate(), None);
    assert_eq!(job.record_bitrate(" 1000\n"), 2500);
    assert_eq!(job.bitrate(), Some(2500));
    assert_eq!(job.record_bitrate("N/A\n"), 10_000_000);
    assert_eq!(job.bitrate(), Some(10_000_000));
    assert_eq!(job.record_bitrate("18446744073709551615"), u64::MAX);
}

#[test]
fn frame_count_is_strict() {
    let mut job = Job::new("t".to_string(), "mp4".to_string());
    assert_eq!(job.record_total_frames(false, "120"), Err(ProbeError::ToolFailed));
    assert_eq!(job.record_total_frames(true, "n/a"), Err(ProbeError::BadFrameCount));
    assert_eq!(job.total_frames(), None);
    assert_eq!(job.record_total_frames(true, "120\n"), Ok(120));
    assert_eq!(job.total_frames(), Some(120));
}

#[test]
fn probe_arguments() {
    let job = Job::new("t".to_string(), "mov".to_string());
    let path = job.input_path();
    assert!(path.starts_with("input/") && path.ends_with(".mov") && path.len() == 6 + 36 + 4);
    let a = job.probe_args(ProbeKind::FrameCount);
    assert_eq!(
        a,
        vec![
            "-v".to_string(),
            "error".to_string(),
            "-select_streams".to_string(),
            "v:0".to_string(),
            "-count_frames".to_string(),
            "-show_entries".to_string(),
            "stream=nb_read_frames".to_string(),
            "-of".to_string(),
            "csv=p=0".to_string(),
            path.clone(),
        ]
    );
    let b = job.probe_args(ProbeKind::Bitrate);
    assert_eq!(b[5], "stream=bit_rate");
    let r = job.probe_args(ProbeKind::FrameRate);
    assert_eq!(r[5], "stream=r_frame_rate");
    assert_eq!(r[7], "default=nokey=1:noprint_wrappers=1");
}

#[test]
fn progress_records() {
    let r = parse_progress_record("frame=120");
    assert_eq!(r.frame, Some(120));
    assert_eq!(r.fps, None);
    let r = parse_progress_record("fps= 29.97 ");
    assert_eq!(r.frame, None);
    assert_eq!(r.fps, Some("29.97".to_string()));
    let r = parse_progress_record("frame=1\nfps=0.00\nframe= 2\nprogress=continue");
    assert_eq!(r.frame, Some(2));
    assert_eq!(r.fps, Some("0.00".to_string()));
    let r = parse_progress_record("frame=N/A");
    assert_eq!(r.frame, None);
    let r = parse_progress_record("bitrate=1.0kbits/s");
    assert_eq!(r.frame, None);
    assert_eq!(r.fps, None);
    let r = parse_progress_record("");
    assert_eq!(r.frame, None);
}

#[test]
fn integer_text() {
    assert_eq!(decimal_text(0), "0");
    assert_eq!(decimal_text(1234), "1234");
    assert_eq!(decimal_text(u64::MAX), "18446744073709551615");
    assert_eq!(parse_u64("+42"), Some(42));
    assert_eq!(parse_u64("18446744073709551616"), None);
    assert_eq!(parse_u64(" 1"), None);
    assert_eq!(parse_u64("+"), None);
    assert_eq!(trim_text(" \t x y \n"), "x y");
}

#[test]
fn upload_extensions() {
    assert_eq!(upload_extension("holiday.mp4"), Ok("mp4".to_string()));
    assert_eq!(upload_extension("a.b.webm"), Ok("webm".to_string()));
    assert_eq!(upload_extension("clip.m-2-t-s"), Ok("m2ts".to_string()));
    assert_eq!(upload_extension("clip.MP4"), Err(UploadError::InvalidExtension("MP4".to_string())));
    assert_eq!(upload_extension("noext"), Err(UploadError::InvalidExtension("noext".to_string())));
    assert_eq!(upload_extension("trailing."), Err(UploadError::InvalidExtension(String::new())));
    assert_eq!(UploadError::NoFile.status_code(), 400);
}

#[test]
fn bearer_tokens() {
    assert_eq!(bearer_token("Bearer abc"), Some("abc".to_string()));
    assert_eq!(bearer_token("Bearer "), Some(String::new()));
    assert_eq!(bearer_token("Basic abc"), None);
    assert_eq!(bearer_token("bearer abc"), None);
}

#[test]
fn authentication_decisions() {
    assert_eq!(Authentication::decide(None, Some("Bearer s"), ""), AuthDecision::Misconfigured);
    assert_eq!(Authentication::decide(Some("s"), Some("Bearer s"), ""), AuthDecision::Allow);
    assert_eq!(Authentication::decide(Some("s"), Some("Bearer t"), "authToken=s"), AuthDecision::Unauthorized);
    assert_eq!(Authentication::decide(Some("s"), None, "authToken=s"), AuthDecision::Allow);
    assert_eq!(Authentication::decide(Some("s"), Some("Basic s"), "a=1&authToken=s"), AuthDecision::Allow);
    assert_eq!(Authentication::decide(Some("s"), None, "other=s"), AuthDecision::Unauthorized);
    assert_eq!(Authentication::decide(Some("s"), None, ""), AuthDecision::Unauthorized);
}

#[test]
fn port_settings() {
    assert!(port_is_numeric("24153"));
    assert!(!port_is_numeric("80a"));
    assert!(!port_is_numeric("-1"));
}

#[test]
fn version_labels() {
    assert_eq!(version_label("-dirty"), "latest");
    assert_eq!(version_label("a1b2c3"), "a1b2c3");
    assert_eq!(version_label(""), "");
}

#[test]
fn tool_versions() {
    assert_eq!(version_from_banner("ffmpeg version 7.1 Copyright (c)"), Some("7.1".to_string()));
    assert_eq!(version_from_banner("  ffprobe\tversion\n6.0-static "), Some("6.0-static".to_string()));
    assert_eq!(version_from_banner("ffmpeg version"), None);
}

#[test]
fn api_response_envelope() {
    let ok: ApiResponse<u32> = ApiResponse::Success(3);
    assert!(matches!(ok, ApiResponse::Success(3)));
    let err: ApiResponse<u32> = ApiResponse::Error("e".to_string());
    assert!(matches!(err, ApiResponse::Error(_)));
}
