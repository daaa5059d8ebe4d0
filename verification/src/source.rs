use vstd::prelude::*;

verus! {

/// A source for random bytes used in cryptographic algorithms.
///
/// Implementing this trait is an assertion, by the implementer, that the
/// source is cryptographically secure: the bytes it writes are unpredictable
/// and not derivable by an adversary without access to the same source. That
/// quality bar cannot be checked mechanically, so it is a documented
/// precondition on implementers, not an enforced invariant.
pub trait EntropySource {
    /// Why a fill attempt failed; defined by the provider and opaque to the
    /// container built on top of it.
    type EntropySourceError;

    /// Fill every byte of `buffer` with random data, or fail.
    ///
    /// Either the whole buffer is overwritten or an error is returned; no
    /// partial fill counts as success. The buffer keeps its length either
    /// way. A zero-length buffer is a trivial success for a well-behaved
    /// provider, though the container does not rely on that.
    fn read_bytes(&self, buffer: &mut [u8]) -> (r: Result<(), Self::EntropySourceError>)
        ensures
            final(buffer)@.len() == old(buffer)@.len(),
    ;
}

} // verus!
