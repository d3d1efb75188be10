use std::io;

use aw_upscale::{conclude, convert, parse_dimensions, parse_output, parse_u32, UpscaleError, WorkerOutcome};

#[test]
fn parses_reported_dimensions() {
    assert_eq!(parse_dimensions("1920x1080"), Some((1920, 1080)));
    assert_eq!(parse_dimensions("0x0"), Some((0, 0)));
    assert_eq!(parse_dimensions("bogus"), None);
    assert_eq!(parse_dimensions("  200x400\n"), Some((200, 400)));
    assert_eq!(parse_dimensions("200 x400"), None);
    assert_eq!(parse_dimensions("1x2x3"), None);
    assert_eq!(parse_dimensions("x1"), None);
    assert_eq!(parse_dimensions("+5x+6"), Some((5, 6)));
}

#[test]
fn parse_u32_limits() {
    assert_eq!(parse_u32("4294967295"), Some(u32::MAX));
    assert_eq!(parse_u32("4294967296"), None);
    assert_eq!(parse_u32("007"), Some(7));
    assert_eq!(parse_u32("+"), None);
    assert_eq!(parse_u32(""), None);
    assert_eq!(parse_u32("-1"), None);
    assert_eq!(parse_u32("12a"), None);
}

#[test]
fn output_parse_failure_keeps_bytes() {
    assert!(matches!(parse_output(b"1920x1080".to_vec()), Ok((1920, 1080))));
    match parse_output(b"bogus".to_vec()) {
        Err(UpscaleError::InvalidOutput(raw)) => assert_eq!(raw, b"bogus".to_vec()),
        _ => panic!("expected InvalidOutput"),
    }
    match parse_output(vec![0xff, b'1', b'x', b'1']) {
        Err(UpscaleError::InvalidOutput(raw)) => assert_eq!(raw, vec![0xff, b'1', b'x', b'1']),
        _ => panic!("expected InvalidOutput"),
    }
}

#[test]
fn conclude_outcomes() {
    let e = io::Error::new(io::ErrorKind::NotFound, "no worker");
    assert!(matches!(conclude(WorkerOutcome::Failed(e)), Err(UpscaleError::ProcessError(_))));
    assert!(matches!(conclude(WorkerOutcome::TimedOut), Err(UpscaleError::Timeout)));
}

#[test]
fn convert_text_or_list() {
    assert_eq!(convert(b"oops"), "oops");
    assert_eq!(convert(&[0xff, 1, 200]), "[255, 1, 200]");
    assert_eq!(convert(&[]), "");
}

#[test]
fn decimal_report_reads_back() {
    for (w, h) in [(0u32, 0u32), (7, 10), (200, 400), (u32::MAX, 1), (1_000_000, u32::MAX)] {
        assert_eq!(parse_dimensions(&format!("{}x{}", w, h)), Some((w, h)));
    }
}
