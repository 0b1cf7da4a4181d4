use video_downloader::error::HelperError;
use video_downloader::formats::AudioFormat;
use video_downloader::formats::RawFormat;
use video_downloader::formats::VideoFormat;
use video_downloader::formats::classify_formats;
use video_downloader::info::VideoInfo;
use video_downloader::info::decode_info;
use video_downloader::info::parse_video_info;
use video_downloader::outcome::HelperOutcome;
use video_downloader::outcome::info_payload;
use video_downloader::outcome::validate_outcome;

fn raw(id: &str, res: Option<u32>, tbr: Option<f32>, fps: Option<f32>, ext: &str) -> RawFormat {
    RawFormat {
        format_id: id.to_string(),
        resolution: res,
        tbr: tbr.map(f32::to_bits),
        fps: fps.map(f32::to_bits),
        ext: ext.to_string(),
    }
}

fn classify_ok(formats: Vec<RawFormat>) -> (Vec<VideoFormat>, Vec<AudioFormat>) {
    match classify_formats(&formats) {
        Ok(lists) => lists,
        Err(_) => panic!("classification was expected to succeed"),
    }
}

#[test]
fn empty_input_yields_two_empty_lists() {
    let (video, audio) = classify_ok(vec![]);
    assert!(video.is_empty());
    assert!(audio.is_empty());
}

#[test]
fn every_entry_lands_in_exactly_one_list() {
    let formats = vec![
        raw("v1", Some(1080), Some(900.0), Some(60.0), "mp4"),
        raw("a1", None, Some(128.0), None, "m4a"),
        raw("v2", Some(360), None, Some(24.0), "webm"),
        raw("a2", None, None, None, "opus"),
    ];
    let mut input_ids: Vec<String> = formats.iter().map(|f| f.format_id.clone()).collect();
    let (video, audio) = classify_ok(formats);
    assert_eq!(video.len() + audio.len(), 4);
    let mut output_ids: Vec<String> = video
        .iter()
        .map(|f| f.format_id.clone())
        .chain(audio.iter().map(|f| f.format_id.clone()))
        .collect();
    input_ids.sort();
    output_ids.sort();
    assert_eq!(input_ids, output_ids);
}

#[test]
fn video_entry_carries_fields_unchanged() {
    let (video, audio) = classify_ok(vec![raw("v1", Some(720), Some(500.0), Some(30.0), "mp4")]);
    assert!(audio.is_empty());
    assert_eq!(video.len(), 1);
    assert_eq!(video[0].format_id, "v1");
    assert_eq!(video[0].resolution, 720);
    assert_eq!(video[0].tbr, Some(500.0f32.to_bits()));
    assert_eq!(video[0].fps, 30.0f32.to_bits());
    assert_eq!(video[0].ext, "mp4");
}

#[test]
fn missing_resolution_is_audio_even_with_frame_rate() {
    let (video, audio) = classify_ok(vec![raw("odd", None, Some(96.0), Some(24.0), "ogg")]);
    assert!(video.is_empty());
    assert_eq!(audio.len(), 1);
    assert_eq!(audio[0].format_id, "odd");
    assert_eq!(audio[0].tbr, Some(96.0f32.to_bits()));
    assert_eq!(audio[0].ext, "ogg");
}

#[test]
fn partition_keeps_input_order() {
    let formats = vec![
        raw("A", Some(2160), None, Some(60.0), "mp4"),
        raw("B", None, Some(64.0), None, "m4a"),
        raw("C", Some(144), None, Some(15.0), "3gp"),
    ];
    let (video, audio) = classify_ok(formats);
    let video_ids: Vec<&str> = video.iter().map(|f| f.format_id.as_str()).collect();
    let audio_ids: Vec<&str> = audio.iter().map(|f| f.format_id.as_str()).collect();
    assert_eq!(video_ids, vec!["A", "C"]);
    assert_eq!(audio_ids, vec!["B"]);
}

#[test]
fn resolution_without_frame_rate_is_contract_violation() {
    let formats = vec![
        raw("fine", None, None, None, "m4a"),
        raw("broken", Some(480), Some(700.0), None, "mp4"),
        raw("later", Some(480), Some(700.0), Some(25.0), "mp4"),
    ];
    match classify_formats(&formats) {
        Ok(_) => panic!("a video descriptor without a frame rate must be rejected"),
        Err(HelperError::ContractViolation { format_id }) => assert_eq!(format_id, "broken"),
        Err(_) => panic!("the error must be a contract violation"),
    }
}

#[test]
fn normalizer_copies_top_level_fields() {
    let info = VideoInfo {
        title: "Some clip".to_string(),
        duration: 321,
        thumbnail: "https://example.invalid/t.png".to_string(),
        formats: vec![
            raw("v1", Some(720), Some(500.0), Some(30.0), "mp4"),
            raw("a1", None, Some(128.0), None, "m4a"),
        ],
    };
    let normalized = parse_video_info(info).expect("consistent input must normalize");
    assert_eq!(normalized.title, "Some clip");
    assert_eq!(normalized.duration, 321);
    assert_eq!(normalized.thumbnail, "https://example.invalid/t.png");
    assert_eq!(normalized.video_formats.len(), 1);
    assert_eq!(normalized.audio_formats.len(), 1);
}

#[test]
fn normalizer_reports_first_violation() {
    let info = VideoInfo {
        title: "t".to_string(),
        duration: 0,
        thumbnail: "u".to_string(),
        formats: vec![
            raw("bad1", Some(480), None, None, "mp4"),
            raw("bad2", Some(360), None, None, "mp4"),
        ],
    };
    match parse_video_info(info) {
        Err(HelperError::ContractViolation { format_id }) => assert_eq!(format_id, "bad1"),
        _ => panic!("the first violating descriptor must be reported"),
    }
}

// Reads a metadata document the way the unverified shell does, but through
// serde_json's dynamic value so the test exercises real JSON text.
fn video_info_from_json(text: &str) -> Result<VideoInfo, String> {
    let value: serde_json::Value = serde_json::from_str(text).map_err(|e| e.to_string())?;
    let title = value
        .get("title")
        .and_then(|v| v.as_str())
        .ok_or("missing title")?
        .to_string();
    let duration = value
        .get("duration")
        .and_then(|v| v.as_u64())
        .ok_or("missing duration")?;
    let thumbnail = value
        .get("thumbnail")
        .and_then(|v| v.as_str())
        .ok_or("missing thumbnail")?
        .to_string();
    let mut formats = Vec::new();
    for entry in value
        .get("formats")
        .and_then(|v| v.as_array())
        .ok_or("missing formats")?
    {
        let format_id = entry
            .get("format_id")
            .and_then(|v| v.as_str())
            .ok_or("missing format_id")?
            .to_string();
        let resolution = match entry.get("resolution") {
            Some(v) if v.is_null() => None,
            Some(v) => Some(v.as_u64().ok_or("bad resolution")? as u32),
            None => None,
        };
        let tbr = match entry.get("tbr") {
            Some(v) if v.is_null() => None,
            Some(v) => Some((v.as_f64().ok_or("bad tbr")? as f32).to_bits()),
            None => None,
        };
        let fps = match entry.get("fps") {
            Some(v) if v.is_null() => None,
            Some(v) => Some((v.as_f64().ok_or("bad fps")? as f32).to_bits()),
            None => None,
        };
        let ext = entry
            .get("ext")
            .and_then(|v| v.as_str())
            .ok_or("missing ext")?
            .to_string();
        formats.push(RawFormat { format_id, resolution, tbr, fps, ext });
    }
    Ok(VideoInfo { title, duration, thumbnail, formats })
}

#[test]
fn successful_run_normalizes_the_document() {
    let stdout = "{\"title\":\"T\",\"duration\":10,\"thumbnail\":\"u\",\"formats\":[\
        {\"format_id\":\"v1\",\"resolution\":720,\"tbr\":500.0,\"fps\":30.0,\"ext\":\"mp4\"},\
        {\"format_id\":\"a1\",\"resolution\":null,\"tbr\":128.0,\"fps\":null,\"ext\":\"m4a\"}]}";
    let outcome = HelperOutcome::Completed {
        exit_code: Some(0),
        stdout: stdout.to_string(),
        stderr: String::new(),
    };
    let payload = info_payload(outcome).expect("exit code 0 must yield the payload");
    assert_eq!(payload, stdout);
    let normalized =
        decode_info(video_info_from_json(&payload)).expect("the document must normalize");
    assert_eq!(normalized.title, "T");
    assert_eq!(normalized.duration, 10);
    assert_eq!(normalized.thumbnail, "u");
    assert_eq!(normalized.video_formats.len(), 1);
    assert_eq!(normalized.video_formats[0].format_id, "v1");
    assert_eq!(normalized.video_formats[0].resolution, 720);
    assert_eq!(normalized.video_formats[0].tbr, Some(500.0f32.to_bits()));
    assert_eq!(normalized.video_formats[0].fps, 30.0f32.to_bits());
    assert_eq!(normalized.video_formats[0].ext, "mp4");
    assert_eq!(normalized.audio_formats.len(), 1);
    assert_eq!(normalized.audio_formats[0].format_id, "a1");
    assert_eq!(normalized.audio_formats[0].tbr, Some(128.0f32.to_bits()));
    assert_eq!(normalized.audio_formats[0].ext, "m4a");
}

#[test]
fn nonzero_exit_reports_code_and_stderr() {
    let outcome = HelperOutcome::Completed {
        exit_code: Some(2),
        stdout: String::new(),
        stderr: "invalid url".to_string(),
    };
    match validate_outcome(outcome) {
        Err(HelperError::ProcessFailure { code, stderr }) => {
            assert_eq!(code, 2);
            assert_eq!(stderr, "invalid url");
        },
        _ => panic!("a nonzero exit must be a process failure"),
    }
    let outcome = HelperOutcome::Completed {
        exit_code: Some(2),
        stdout: String::new(),
        stderr: "invalid url".to_string(),
    };
    match info_payload(outcome) {
        Err(HelperError::ProcessFailure { code, stderr }) => {
            assert_eq!(code, 2);
            assert_eq!(stderr, "invalid url");
        },
        _ => panic!("a nonzero exit must be a process failure"),
    }
}

#[test]
fn launch_failure_is_distinct_from_process_failure() {
    let outcome = HelperOutcome::LaunchFailed { cause: "binary missing".to_string() };
    match validate_outcome(outcome) {
        Err(HelperError::LaunchFailure { cause }) => assert_eq!(cause, "binary missing"),
        Err(HelperError::ProcessFailure { .. }) => {
            panic!("a launch failure must not look like a process failure")
        },
        _ => panic!("a missing helper must be a launch failure"),
    }
}

#[test]
fn invalid_json_is_a_decode_failure() {
    let outcome = HelperOutcome::Completed {
        exit_code: Some(0),
        stdout: "this is not json".to_string(),
        stderr: String::new(),
    };
    let payload = info_payload(outcome).expect("exit code 0 must yield the payload");
    let parsed = video_info_from_json(&payload);
    assert!(parsed.is_err());
    match decode_info(parsed) {
        Err(HelperError::DecodeFailure { cause }) => assert!(!cause.is_empty()),
        _ => panic!("undecodable output must be a decode failure"),
    }
}

#[test]
fn unknown_exit_status_becomes_sentinel_code() {
    let outcome = HelperOutcome::Completed {
        exit_code: None,
        stdout: String::new(),
        stderr: "killed".to_string(),
    };
    match validate_outcome(outcome) {
        Err(HelperError::ProcessFailure { code, stderr }) => {
            assert_eq!(code, -1);
            assert_eq!(stderr, "killed");
        },
        _ => panic!("an unknown exit status must be a process failure"),
    }
}

#[test]
fn zero_exit_validates_the_url() {
    let outcome = HelperOutcome::Completed {
        exit_code: Some(0),
        stdout: String::new(),
        stderr: String::new(),
    };
    match validate_outcome(outcome) {
        Ok(valid) => assert!(valid),
        Err(_) => panic!("exit code 0 must validate the URL"),
    }
}
