use aw_upscale::protocol::{i32_text, DENOISE_KEY, SCALING_FACTOR_KEY};
use aw_upscale::{destination_is_png, UpscaleError, Upscaler};

fn entries(u: &Upscaler, ext: Option<&str>) -> Vec<(String, String)> {
    match u.worker_parameters(ext) {
        Ok(env) => env,
        Err(_) => panic!("destination refused"),
    }
}

fn pairs(v: &[(&str, &str)]) -> Vec<(String, String)> {
    v.iter().map(|(k, x)| (k.to_string(), x.to_string())).collect()
}

#[test]
fn png_extension_any_case() {
    assert!(destination_is_png(Some("png")));
    assert!(destination_is_png(Some("PNG")));
    assert!(destination_is_png(Some("pNg")));
    assert!(!destination_is_png(Some("jpg")));
    assert!(!destination_is_png(Some("pngx")));
    assert!(!destination_is_png(Some("")));
    assert!(!destination_is_png(None));
}

#[test]
fn non_png_destination_is_refused() {
    let mut u = Upscaler::new(None);
    u.set_scale(2);
    assert!(matches!(u.worker_parameters(Some("jpg")), Err(UpscaleError::DestinationNotPng)));
    assert!(matches!(u.worker_parameters(None), Err(UpscaleError::DestinationNotPng)));
}

#[test]
fn scale_parameters() {
    let mut u = Upscaler::new(None);
    u.set_scale(2);
    assert_eq!(entries(&u, Some("png")), pairs(&[(SCALING_FACTOR_KEY, "2")]));
}

#[test]
fn resolution_parameters_in_order() {
    let mut u = Upscaler::new(None);
    u.set_target_width(1920).set_target_height(1080).set_min_width(640).set_min_height(480);
    u.set_denoise(Some(-3));
    assert_eq!(
        entries(&u, Some("PNG")),
        pairs(&[
            ("UPSCALE_TARGET_HEIGHT", "1080"),
            ("UPSCALE_TARGET_WIDTH", "1920"),
            ("UPSCALE_MIN_HEIGHT", "480"),
            ("UPSCALE_MIN_WIDTH", "640"),
            (DENOISE_KEY, "-3"),
        ])
    );
}

#[test]
fn unset_configuration_has_no_parameters() {
    let u = Upscaler::new(None);
    assert!(entries(&u, Some("png")).is_empty());
}

#[test]
fn signed_text() {
    assert_eq!(i32_text(0), "0");
    assert_eq!(i32_text(42), "42");
    assert_eq!(i32_text(-7), "-7");
    assert_eq!(i32_text(i32::MIN), "-2147483648");
    assert_eq!(i32_text(i32::MAX), "2147483647");
}
