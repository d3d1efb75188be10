use std::path::PathBuf;
use std::time::Duration;

use vstd::prelude::*;

use crate::sizing::Sizing;

verus! {

/// A path in the file system, carried through unchanged.
#[verifier::external_type_specification]
#[verifier::external_body]
pub struct ExPathBuf(PathBuf);

/// A configured run of the external upscaling worker.
///
/// The worker is the given executable, or, when none is given, a standard
/// interpreter fed the bundled default script.
#[derive(Debug, Clone)]
pub struct Upscaler {
    executable: Option<PathBuf>,
    sizing: Sizing,
    denoise: Option<i32>,
    timeout: Option<Duration>,
}

impl Upscaler {
    /// The executable to run; none means the bundled default script.
    pub closed spec fn spec_executable(&self) -> Option<PathBuf> {
        self.executable
    }

    /// The sizing in effect.
    pub closed spec fn spec_sizing(&self) -> Sizing {
        self.sizing
    }

    /// The denoise level, if set.
    pub closed spec fn spec_denoise(&self) -> Option<i32> {
        self.denoise
    }

    /// The time limit of a run, if set.
    pub closed spec fn spec_timeout(&self) -> Option<Duration> {
        self.timeout
    }

    /// `self` is `other` with, at most, its sizing changed.
    pub open spec fn keeps_all_but_sizing(self, other: Upscaler) -> bool {
        &&& self.spec_executable() == other.spec_executable()
        &&& self.spec_denoise() == other.spec_denoise()
        &&& self.spec_timeout() == other.spec_timeout()
    }

    /// Create a new upscaler using the given executable. If none, the bundled
    /// default script is run by a standard interpreter.
    pub fn new(upscaler: Option<PathBuf>) -> (r: Self)
        ensures
            r.spec_executable() == upscaler,
            r.spec_sizing() == Sizing::Unset,
            r.spec_denoise() == None::<i32>,
            r.spec_timeout() == None::<Duration>,
    {
        Upscaler { executable: upscaler, sizing: Sizing::Unset, denoise: None, timeout: None }
    }

    /// Sets the scale, overriding any previously set widths or heights.
    pub fn set_scale(&mut self, scale: u8) -> (r: &mut Self)
        ensures
            r.spec_sizing() == Sizing::Scale(scale),
            r.keeps_all_but_sizing(*old(self)),
            r.spec_sizing().has_no_resolution(),
            *final(self) == *final(r),
    {
        self.sizing = Sizing::Scale(scale);
        self
    }

    /// Sets the target height, overriding any previously set scale; the other
    /// resolution fields are kept.
    pub fn set_target_height(&mut self, height: u32) -> (r: &mut Self)
        ensures
            r.spec_sizing().scale_factor() is None,
            r.spec_sizing() == old(self).spec_sizing().with_target_height(height),
            r.keeps_all_but_sizing(*old(self)),
            *final(self) == *final(r),
    {
        let (tw, th, mw, mh) = self.sizing.resolution_part();
        self.sizing = Sizing::Resolution { target_width: tw, target_height: Some(height), min_width: mw, min_height: mh };
        self
    }

    /// Sets the target width, overriding any previously set scale; the other
    /// resolution fields are kept.
    pub fn set_target_width(&mut self, width: u32) -> (r: &mut Self)
        ensures
            r.spec_sizing().scale_factor() is None,
            r.spec_sizing() == old(self).spec_sizing().with_target_width(width),
            r.keeps_all_but_sizing(*old(self)),
            *final(self) == *final(r),
    {
        let (tw, th, mw, mh) = self.sizing.resolution_part();
        self.sizing = Sizing::Resolution { target_width: Some(width), target_height: th, min_width: mw, min_height: mh };
        self
    }

    /// Sets the minimum height, overriding any previously set scale; the other
    /// resolution fields are kept.
    pub fn set_min_height(&mut self, height: u32) -> (r: &mut Self)
        ensures
            r.spec_sizing().scale_factor() is None,
            r.spec_sizing() == old(self).spec_sizing().with_min_height(height),
            r.keeps_all_but_sizing(*old(self)),
            *final(self) == *final(r),
    {
        let (tw, th, mw, mh) = self.sizing.resolution_part();
        self.sizing = Sizing::Resolution { target_width: tw, target_height: th, min_width: mw, min_height: Some(height) };
        self
    }

    /// Sets the minimum width, overriding any previously set scale; the other
    /// resolution fields are kept.
    pub fn set_min_width(&mut self, width: u32) -> (r: &mut Self)
        ensures
            r.spec_sizing().scale_factor() is None,
            r.spec_sizing() == old(self).spec_sizing().with_min_width(width),
            r.keeps_all_but_sizing(*old(self)),
            *final(self) == *final(r),
    {
        let (tw, th, mw, mh) = self.sizing.resolution_part();
        self.sizing = Sizing::Resolution { target_width: tw, target_height: th, min_width: Some(width), min_height: mh };
        self
    }

    /// Sets the denoise level. Its meaning is up to the worker, which picks
    /// its own default when none is set.
    pub fn set_denoise(&mut self, denoise: Option<i32>) -> (r: &mut Self)
        ensures
            r.spec_denoise() == denoise,
            r.spec_sizing() == old(self).spec_sizing(),
            r.spec_executable() == old(self).spec_executable(),
            r.spec_timeout() == old(self).spec_timeout(),
            *final(self) == *final(r),
    {
        self.denoise = denoise;
        self
    }

    /// Sets the time limit of a run, after which the worker is killed. It is
    /// meant for stuck workers and should be set generously.
    pub fn set_timeout(&mut self, timeout: Option<Duration>) -> (r: &mut Self)
        ensures
            r.spec_timeout() == timeout,
            r.spec_sizing() == old(self).spec_sizing(),
            r.spec_executable() == old(self).spec_executable(),
            r.spec_denoise() == old(self).spec_denoise(),
            *final(self) == *final(r),
    {
        self.timeout = timeout;
        self
    }

    /// The configured executable; none means the bundled default script.
    pub fn executable(&self) -> (r: Option<&PathBuf>)
        ensures
            r is Some <==> self.spec_executable() is Some,
            r is Some ==> *r->0 == self.spec_executable()->0,
    {
        self.executable.as_ref()
    }

    /// True when the worker is the bundled default script, fed to a standard
    /// interpreter on its input stream.
    pub fn uses_default_script(&self) -> (r: bool)
        ensures
            r == self.spec_executable().is_none(),
    {
        self.executable.is_none()
    }

    /// The sizing in effect.
    pub fn sizing(&self) -> (r: Sizing)
        ensures
            r == self.spec_sizing(),
    {
        self.sizing
    }

    /// The denoise level, if set.
    pub fn denoise(&self) -> (r: Option<i32>)
        ensures
            r == self.spec_denoise(),
    {
        self.denoise
    }

    /// The time limit of a run, if set.
    pub fn timeout(&self) -> (r: Option<&Duration>)
        ensures
            r is Some <==> self.spec_timeout() is Some,
            r is Some ==> *r->0 == self.spec_timeout()->0,
    {
        self.timeout.as_ref()
    }
}

impl Default for Upscaler {
    fn default() -> (r: Self)
        ensures
            r.spec_executable() == None::<PathBuf>,
            r.spec_sizing() == Sizing::Unset,
            r.spec_denoise() == None::<i32>,
            r.spec_timeout() == None::<Duration>,
    {
        Upscaler::new(None)
    }
}

} // verus!
