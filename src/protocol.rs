use vstd::prelude::*;
use vstd::string::StringExecFns;

use crate::error::UpscaleError;
use crate::report::{parse_output, report_of};
use crate::sizing::Sizing;
use crate::upscaler::Upscaler;

verus! {

/// Input file path.
pub const SOURCE_KEY: &'static str = "UPSCALE_SOURCE";

/// Output file path; it must end in `.png`.
pub const DESTINATION_KEY: &'static str = "UPSCALE_DESTINATION";

/// Integer scale factor (scale family).
pub const SCALING_FACTOR_KEY: &'static str = "UPSCALE_SCALING_FACTOR";

/// Target height, an "at least" goal (resolution family).
pub const TARGET_HEIGHT_KEY: &'static str = "UPSCALE_TARGET_HEIGHT";

/// Target width, an "at least" goal (resolution family).
pub const TARGET_WIDTH_KEY: &'static str = "UPSCALE_TARGET_WIDTH";

/// Hard minimum height (resolution family).
pub const MIN_HEIGHT_KEY: &'static str = "UPSCALE_MIN_HEIGHT";

/// Hard minimum width (resolution family).
pub const MIN_WIDTH_KEY: &'static str = "UPSCALE_MIN_WIDTH";

/// Denoise level, an integer whose meaning is up to the worker.
pub const DENOISE_KEY: &'static str = "UPSCALE_DENOISE";

/// Advisory time limit, in seconds.
pub const TIMEOUT_KEY: &'static str = "UPSCALE_TIMEOUT";

/// The decimal digit for `d` in `0..10`.
pub open spec fn digit_char(d: int) -> char {
    seq!['0', '1', '2', '3', '4', '5', '6', '7', '8', '9'][d]
}

/// The decimal representation of `n`, without leading zeros.
pub open spec fn decimal_of(n: nat) -> Seq<char>
    decreases n,
{
    if n < 10 {
        seq![digit_char(n as int)]
    } else {
        decimal_of(n / 10).push(digit_char((n % 10) as int))
    }
}

/// The decimal representation of `n`, with a leading `-` when negative.
pub open spec fn signed_decimal_of(n: int) -> Seq<char> {
    if n < 0 {
        seq!['-'] + decimal_of((-n) as nat)
    } else {
        decimal_of(n as nat)
    }
}

/// Relies on `ToString` for `u32`: the decimal representation.
#[verifier::external_body]
pub(crate) fn u32_text(n: u32) -> (r: String)
    ensures
        r@ == decimal_of(n as nat),
{
    n.to_string()
}

/// The decimal representation of `n`, signed.
pub fn i32_text(n: i32) -> (r: String)
    ensures
        r@ == signed_decimal_of(n as int),
{
    if n < 0 {
        let magnitude = (0i64 - n as i64) as u32;
        let sign = String::from_str("-");
        proof {
            reveal_strlit("-");
        }
        sign.concat(u32_text(magnitude).as_str())
    } else {
        u32_text(n as u32)
    }
}

/// One environment entry as a pair of texts.
pub open spec fn entry_view(e: (String, String)) -> (Seq<char>, Seq<char>) {
    (e.0@, e.1@)
}

/// The entry for `key` when a value is set, and nothing otherwise.
pub open spec fn unsigned_entry(key: &str, value: Option<u32>) -> Seq<(Seq<char>, Seq<char>)> {
    match value {
        Some(v) => seq![(key@, decimal_of(v as nat))],
        None => seq![],
    }
}

/// The entry for `key` when a signed value is set, and nothing otherwise.
pub open spec fn signed_entry(key: &str, value: Option<i32>) -> Seq<(Seq<char>, Seq<char>)> {
    match value {
        Some(v) => seq![(key@, signed_decimal_of(v as int))],
        None => seq![],
    }
}

/// The parameters handed to the worker for a configuration, in this order:
/// scale factor, target height, target width, minimum height, minimum width,
/// denoise; each only when set.
pub open spec fn parameters_of(u: Upscaler) -> Seq<(Seq<char>, Seq<char>)> {
    let f = u.spec_sizing().resolution_fields();
    let scale = match u.spec_sizing().scale_factor() {
        Some(s) => Some(s as u32),
        None => None,
    };
    unsigned_entry(SCALING_FACTOR_KEY, scale) + unsigned_entry(TARGET_HEIGHT_KEY, f.1)
        + unsigned_entry(TARGET_WIDTH_KEY, f.0) + unsigned_entry(MIN_HEIGHT_KEY, f.3)
        + unsigned_entry(MIN_WIDTH_KEY, f.2) + signed_entry(DENOISE_KEY, u.spec_denoise())
}

fn push_unsigned(env: &mut Vec<(String, String)>, key: &str, value: Option<u32>)
    ensures
        final(env)@.map_values(|e| entry_view(e)) == old(env)@.map_values(|e| entry_view(e))
            + unsigned_entry(key, value),
{
    if let Some(v) = value {
        env.push((String::from_str(key), u32_text(v)));
    }
    assert(final(env)@.map_values(|e| entry_view(e)) =~= old(env)@.map_values(|e| entry_view(e))
        + unsigned_entry(key, value));
}

/// A file extension that names PNG, in any mix of ASCII case.
pub open spec fn is_png_extension(ext: Seq<char>) -> bool {
    &&& ext.len() == 3
    &&& (ext[0] == 'p' || ext[0] == 'P')
    &&& (ext[1] == 'n' || ext[1] == 'N')
    &&& (ext[2] == 'g' || ext[2] == 'G')
}

/// True when the destination's extension names PNG; a destination without
/// an extension is not PNG.
pub fn destination_is_png(extension: Option<&str>) -> (r: bool)
    ensures
        r == (extension matches Some(e) && is_png_extension(e@)),
{
    match extension {
        Some(e) => {
            if e.unicode_len() != 3 {
                return false;
            }
            let a = e.get_char(0);
            let b = e.get_char(1);
            let c = e.get_char(2);
            (a == 'p' || a == 'P') && (b == 'n' || b == 'N') && (c == 'g' || c == 'G')
        },
        None => false,
    }
}

fn push_signed(env: &mut Vec<(String, String)>, key: &str, value: Option<i32>)
    ensures
        final(env)@.map_values(|e| entry_view(e)) == old(env)@.map_values(|e| entry_view(e))
            + signed_entry(key, value),
{
    if let Some(v) = value {
        env.push((String::from_str(key), i32_text(v)));
    }
    assert(final(env)@.map_values(|e| entry_view(e)) =~= old(env)@.map_values(|e| entry_view(e))
        + signed_entry(key, value));
}

impl Upscaler {
    /// The environment entries that describe this configuration to the
    /// worker, for a destination with the given extension.
    ///
    /// A destination that is not PNG is refused with `DestinationNotPng`
    /// before anything is handed to a worker. The source and destination
    /// paths and the advisory time limit are added by whoever starts the
    /// worker.
    pub fn worker_parameters(&self, destination_extension: Option<&str>) -> (r: Result<
        Vec<(String, String)>,
        UpscaleError,
    >)
        ensures
            !(destination_extension matches Some(e) && is_png_extension(e@)) ==> r
                == Err::<Vec<(String, String)>, UpscaleError>(UpscaleError::DestinationNotPng),
            (destination_extension matches Some(e) && is_png_extension(e@)) ==> (r matches Ok(env)
                && env@.map_values(|e| entry_view(e)) == parameters_of(*self)),
    {
        if !destination_is_png(destination_extension) {
            return Err(UpscaleError::DestinationNotPng);
        }
        let mut env: Vec<(String, String)> = Vec::new();
        let (tw, th, mw, mh) = self.sizing().resolution_part();
        let scale = match self.sizing() {
            Sizing::Scale(s) => Some(s as u32),
            _ => None,
        };
        assert(env@.map_values(|e| entry_view(e)) =~= Seq::empty());
        push_unsigned(&mut env, SCALING_FACTOR_KEY, scale);
        push_unsigned(&mut env, TARGET_HEIGHT_KEY, th);
        push_unsigned(&mut env, TARGET_WIDTH_KEY, tw);
        push_unsigned(&mut env, MIN_HEIGHT_KEY, mh);
        push_unsigned(&mut env, MIN_WIDTH_KEY, mw);
        push_signed(&mut env, DENOISE_KEY, self.denoise());
        assert(env@.map_values(|e| entry_view(e)) =~= parameters_of(*self));
        Ok(env)
    }
}

/// How a run of the worker ended, as observed by whoever ran it.
pub enum WorkerOutcome {
    /// The worker could not be started, fed its input, or waited on.
    Failed(std::io::Error),
    /// The worker outlived its time limit and was killed.
    TimedOut,
    /// The worker exited; `success` tells whether its status was a success,
    /// and `stdout` is what it printed.
    Exited { success: bool, stdout: Vec<u8>, output: process_control::Output },
}

/// The result of a run from how the worker ended: the dimensions it
/// reported after a successful exit, and otherwise the matching error.
pub fn conclude(outcome: WorkerOutcome) -> (r: Result<(u32, u32), UpscaleError>)
    ensures
        match outcome {
            WorkerOutcome::Failed(e) => r == Err::<(u32, u32), UpscaleError>(
                UpscaleError::ProcessError(e),
            ),
            WorkerOutcome::TimedOut => r == Err::<(u32, u32), UpscaleError>(UpscaleError::Timeout),
            WorkerOutcome::Exited { success, stdout, output } => if success {
                match report_of(stdout@) {
                    Some(d) => r == Ok::<(u32, u32), UpscaleError>(d),
                    None => r == Err::<(u32, u32), UpscaleError>(
                        UpscaleError::InvalidOutput(stdout),
                    ),
                }
            } else {
                r == Err::<(u32, u32), UpscaleError>(UpscaleError::ExitError(output))
            },
        },
{
    match outcome {
        WorkerOutcome::Failed(e) => Err(UpscaleError::ProcessError(e)),
        WorkerOutcome::TimedOut => Err(UpscaleError::Timeout),
        WorkerOutcome::Exited { success, stdout, output } => {
            if success {
                parse_output(stdout)
            } else {
                Err(UpscaleError::ExitError(output))
            }
        },
    }
}

} // verus!
