use crate::source::EntropySource;
use vstd::prelude::*;

verus! {

/// Why a fill from the operating system's randomness facility failed.
#[derive(Clone, Copy, Debug, PartialEq, Eq)]
pub enum OsEntropySourceError {
    /// The operating system could not provide the requested random bytes,
    /// e.g. the underlying randomness device was unavailable or a platform
    /// call failed.
    Failed,
}

impl OsEntropySourceError {
    /// A short, human-readable description of the failure, in place of a
    /// `Display` implementation.
    pub fn description(&self) -> (s: &'static str)
        ensures
            s@ == "the operating system could not provide random bytes"@,
    {
        "the operating system could not provide random bytes"
    }
}

/// Declares `getrandom::Error`, the error type of the `getrandom` crate, so
/// that the wrapper below can return it.
#[verifier::external_type_specification]
#[verifier::external_body]
pub struct ExGetrandomError(getrandom::Error);

/// Relies on `getrandom::getrandom`: it fills the entire slice with random
/// bytes from the operating system's preferred source, or returns an error on
/// any failure, including a partial read; the slice keeps its length either
/// way, and an empty slice is an immediate success.
#[verifier::external_body]
fn fill_from_os(buffer: &mut [u8]) -> (r: Result<(), getrandom::Error>)
    ensures
        final(buffer)@.len() == old(buffer)@.len(),
        old(buffer)@.len() == 0 ==> r is Ok,
{
    getrandom::getrandom(buffer)
}

/// Entropy from the underlying Operating System.
///
/// NOTE: Implemented using the cross-platform `getrandom` crate.
pub struct OsEntropy;

impl EntropySource for OsEntropy {
    type EntropySourceError = OsEntropySourceError;

    fn read_bytes(&self, buffer: &mut [u8]) -> (r: Result<(), OsEntropySourceError>) {
        match fill_from_os(buffer) {
            Ok(_) => Ok(()),
            Err(_) => Err(OsEntropySourceError::Failed),
        }
    }
}

} // verus!
