use std::path::PathBuf;
use std::time::Duration;

use vstd::prelude::*;

use crate::sizing::Sizing;
use crate::upscaler::Upscaler;

verus! {

/// A width and a height, in pixels.
#[derive(Debug, Clone, Copy, PartialEq, Eq, Structural)]
pub struct Resolution {
    pub width: u32,
    pub height: u32,
}

/// The size that a job asks for.
#[derive(Debug, Clone, Copy, PartialEq, Eq, Structural)]
pub enum TargetSize {
    /// A scale factor; only its low eight bits are used.
    Scale(u32),
    /// Targets and minimums, each optional.
    Resolutions { target: Option<Resolution>, minimum: Option<Resolution> },
}

/// The sizing that a job's requested size amounts to.
pub open spec fn sizing_of_request(target_size: Option<TargetSize>) -> Sizing {
    match target_size {
        None => Sizing::Unset,
        Some(TargetSize::Scale(s)) => Sizing::Scale((s % 256) as u8),
        Some(TargetSize::Resolutions { target, minimum }) => if target is None && minimum is None {
            Sizing::Unset
        } else {
            Sizing::Resolution {
                target_width: match target {
                    Some(t) => Some(t.width),
                    None => None,
                },
                target_height: match target {
                    Some(t) => Some(t.height),
                    None => None,
                },
                min_width: match minimum {
                    Some(m) => Some(m.width),
                    None => None,
                },
                min_height: match minimum {
                    Some(m) => Some(m.height),
                    None => None,
                },
            }
        },
    }
}

impl Upscaler {
    /// The configuration for one job: the worker to use, the requested size,
    /// the denoise level and the time limit.
    pub fn for_request(
        executable: Option<PathBuf>,
        target_size: Option<TargetSize>,
        denoise: Option<i32>,
        timeout: Option<Duration>,
    ) -> (r: Upscaler)
        ensures
            r.spec_executable() == executable,
            r.spec_sizing() == sizing_of_request(target_size),
            r.spec_denoise() == denoise,
            r.spec_timeout() == timeout,
    {
        let mut u = Upscaler::new(executable);
        match target_size {
            Some(TargetSize::Scale(s)) => {
                u.set_scale((s % 256) as u8);
            },
            Some(TargetSize::Resolutions { target, minimum }) => {
                if let Some(t) = target {
                    u.set_target_width(t.width);
                    u.set_target_height(t.height);
                }
                if let Some(m) = minimum {
                    u.set_min_width(m.width);
                    u.set_min_height(m.height);
                }
            },
            None => {},
        }
        u.set_denoise(denoise);
        u.set_timeout(timeout);
        u
    }
}

/// Server options: where to listen, which worker to run, and how many
/// workers may run at once (none: no bound; when set, at least one).
#[derive(Debug, Clone)]
pub struct Opt {
    pub addr: String,
    pub upscaler: Option<PathBuf>,
    pub jobs: Option<u8>,
}

impl Opt {
    /// The size of the permit pool that bounds concurrent workers; none
    /// means that concurrency is unbounded.
    pub fn concurrency_limit(&self) -> (r: Option<usize>)
        ensures
            match self.jobs {
                Some(j) => r == Some(j as usize),
                None => r is None,
            },
    {
        match self.jobs {
            Some(j) => Some(j as usize),
            None => None,
        }
    }
}

} // verus!
