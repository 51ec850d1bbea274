//! How a call ended, and the one byte that tells the host.

use vstd::prelude::*;

verus! {

/// The step at which a call failed.
#[derive(Clone, Copy, Debug, PartialEq, Eq, Structural)]
pub enum Failure {
    /// A string handle of the host could not be turned into a local string.
    Decoding,
    /// The engine did not produce a document from the source.
    Compilation,
    /// The destination file could not be created or fully written.
    Io,
    /// Anything else that went wrong on the native side.
    Internal,
}

/// The end of a call: the file is fully written, or some step failed.
#[derive(Clone, Copy, Debug, PartialEq, Eq, Structural)]
pub enum Outcome {
    Succeeded,
    Failed(Failure),
}

/// The host's encoding of `true`.
pub const SIGNAL_SUCCESS: u8 = 1;

/// The host's encoding of `false`.
pub const SIGNAL_FAILURE: u8 = 0;

/// The byte that stands for `outcome` on the host's side.
pub open spec fn signal_of(outcome: Outcome) -> u8 {
    match outcome {
        Outcome::Succeeded => SIGNAL_SUCCESS,
        Outcome::Failed(_) => SIGNAL_FAILURE,
    }
}

/// Encodes the outcome for the host. Which step failed is not told.
pub fn signal(outcome: Outcome) -> (byte: u8)
    ensures
        byte == signal_of(outcome),
        byte == SIGNAL_SUCCESS <==> outcome == Outcome::Succeeded,
        byte == SIGNAL_FAILURE <==> outcome != Outcome::Succeeded,
{
    match outcome {
        Outcome::Succeeded => SIGNAL_SUCCESS,
        Outcome::Failed(_) => SIGNAL_FAILURE,
    }
}

} // verus!
