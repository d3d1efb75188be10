use std::path::PathBuf;
use std::time::Duration;

use aw_upscale::{Sizing, Upscaler};

#[test]
fn new_starts_unset() {
    let u = Upscaler::new(Some(PathBuf::from("/bin/worker")));
    assert_eq!(u.sizing(), Sizing::Unset);
    assert_eq!(u.denoise(), None);
    assert!(u.timeout().is_none());
    assert_eq!(u.executable(), Some(&PathBuf::from("/bin/worker")));
    assert!(!u.uses_default_script());
    assert!(Upscaler::new(None).uses_default_script());
}

#[test]
fn scale_clears_resolution_fields() {
    let mut u = Upscaler::new(None);
    u.set_target_width(800).set_min_height(600);
    u.set_scale(3);
    assert_eq!(u.sizing(), Sizing::Scale(3));
}

#[test]
fn resolution_clears_scale() {
    let mut u = Upscaler::new(None);
    u.set_scale(2);
    u.set_target_height(1080);
    assert_eq!(
        u.sizing(),
        Sizing::Resolution {
            target_width: None,
            target_height: Some(1080),
            min_width: None,
            min_height: None
        }
    );
}

#[test]
fn resolution_fields_accumulate() {
    let mut u = Upscaler::new(None);
    u.set_target_width(1).set_target_height(2).set_min_width(3).set_min_height(4);
    assert_eq!(
        u.sizing(),
        Sizing::Resolution {
            target_width: Some(1),
            target_height: Some(2),
            min_width: Some(3),
            min_height: Some(4)
        }
    );
}

#[test]
fn denoise_and_timeout_are_kept_across_sizing() {
    let mut u = Upscaler::new(None);
    u.set_denoise(Some(-1)).set_timeout(Some(Duration::from_secs(5)));
    u.set_scale(4).set_min_width(10);
    assert_eq!(u.denoise(), Some(-1));
    assert_eq!(u.timeout(), Some(&Duration::from_secs(5)));
    u.set_denoise(None).set_timeout(None);
    assert_eq!(u.denoise(), None);
    assert!(u.timeout().is_none());
}

#[test]
fn default_is_unconfigured() {
    let u = Upscaler::default();
    assert!(u.uses_default_script());
    assert_eq!(u.sizing(), Sizing::Unset);
}
