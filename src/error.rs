use vstd::prelude::*;

verus! {

/// An error of the operating system, carried through unchanged.
#[verifier::external_type_specification]
#[verifier::external_body]
pub struct ExIoError(std::io::Error);

/// What a finished worker left behind (exit status and captured streams),
/// carried through unchanged.
#[verifier::external_type_specification]
#[verifier::external_body]
pub struct ExOutput(process_control::Output);

/// Why a run of the worker did not produce an image.
pub enum UpscaleError {
    /// The destination format must be PNG.
    DestinationNotPng,
    /// The worker failed to start, to take its input, or to be waited on.
    ProcessError(std::io::Error),
    /// The worker completed with a failing exit status.
    ExitError(process_control::Output),
    /// What the worker printed was not `<width>x<height>`.
    InvalidOutput(Vec<u8>),
    /// The worker did not complete within its time limit and was killed.
    Timeout,
}

} // verus!
