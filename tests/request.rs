use std::path::PathBuf;
use std::time::Duration;

use aw_upscale::protocol::SCALING_FACTOR_KEY;
use aw_upscale::{parse_output, Opt, Resolution, Sizing, TargetSize, Upscaler};

#[test]
fn request_with_scale() {
    let u = Upscaler::for_request(None, Some(TargetSize::Scale(2)), None, None);
    assert_eq!(u.sizing(), Sizing::Scale(2));
    assert!(u.uses_default_script());
}

#[test]
fn request_scale_keeps_low_byte() {
    let u = Upscaler::for_request(None, Some(TargetSize::Scale(258)), None, None);
    assert_eq!(u.sizing(), Sizing::Scale(2));
}

#[test]
fn request_with_resolutions() {
    let target = Some(Resolution { width: 1920, height: 1080 });
    let minimum = Some(Resolution { width: 640, height: 480 });
    let u = Upscaler::for_request(
        Some(PathBuf::from("w")),
        Some(TargetSize::Resolutions { target, minimum }),
        Some(1),
        Some(Duration::from_secs(30)),
    );
    assert_eq!(
        u.sizing(),
        Sizing::Resolution {
            target_width: Some(1920),
            target_height: Some(1080),
            min_width: Some(640),
            min_height: Some(480)
        }
    );
    assert_eq!(u.denoise(), Some(1));
    assert_eq!(u.timeout(), Some(&Duration::from_secs(30)));
}

#[test]
fn request_with_empty_resolutions_is_unset() {
    let size = TargetSize::Resolutions { target: None, minimum: None };
    let u = Upscaler::for_request(None, Some(size), None, None);
    assert_eq!(u.sizing(), Sizing::Unset);
    let u = Upscaler::for_request(None, None, None, None);
    assert_eq!(u.sizing(), Sizing::Unset);
}

#[test]
fn concurrency_limit_from_options() {
    let opt = Opt { addr: "localhost:9091".to_string(), upscaler: None, jobs: Some(2) };
    assert_eq!(opt.concurrency_limit(), Some(2));
    let opt = Opt { addr: "localhost:9091".to_string(), upscaler: None, jobs: None };
    assert_eq!(opt.concurrency_limit(), None);
}

#[test]
fn scale_two_job_reports_worker_dimensions() {
    let u = Upscaler::for_request(None, Some(TargetSize::Scale(2)), None, None);
    let env = match u.worker_parameters(Some("png")) {
        Ok(env) => env,
        Err(_) => panic!("destination refused"),
    };
    assert_eq!(env, vec![(SCALING_FACTOR_KEY.to_string(), "2".to_string())]);
    assert!(matches!(parse_output(b"200x400".to_vec()), Ok((200, 400))));
}
