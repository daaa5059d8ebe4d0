use crate::source::EntropySource;
use vstd::prelude::*;

verus! {

broadcast use vstd::array::group_array_axioms;

/// The outcome of one construction attempt, at the level of the model: when
/// the fill succeeded, the construction yields exactly the filled bytes; when
/// it failed, the construction yields exactly the provider's error, and none
/// of the bytes.
pub open spec fn construction_outcome<E>(filled: Seq<u8>, fill_result: Result<(), E>) -> Result<
    Seq<u8>,
    E,
> {
    match fill_result {
        Ok(_) => Ok(filled),
        Err(e) => Err(e),
    }
}

/// A simple wrapper over a generic byte array sourced from an `EntropySource`.
///
/// A live value always holds exactly `LENGTH` bytes written by a single
/// successful fill call; it is never mutated after construction.
pub struct Entropy<const LENGTH: usize> {
    pub bytes: [u8; LENGTH],
}

impl<const LENGTH: usize> View for Entropy<LENGTH> {
    type V = Seq<u8>;

    open spec fn view(&self) -> Seq<u8> {
        self.bytes@
    }
}

/// The model of a fallible construction's result: the bytes the container
/// holds on success, the provider's error on failure.
pub open spec fn generation_view<const LENGTH: usize, E>(r: Result<Entropy<LENGTH>, E>) -> Result<
    Seq<u8>,
    E,
> {
    match r {
        Ok(e) => Ok(e@),
        Err(err) => Err(err),
    }
}

impl<const LENGTH: usize> Entropy<LENGTH> {
    /// Package the result of one fill attempt: on a successful fill the
    /// container holds exactly the filled bytes; on a failed fill the
    /// provider's error is passed through unchanged and the bytes are
    /// discarded.
    pub fn from_fill_outcome<E>(bytes: [u8; LENGTH], fill_result: Result<(), E>) -> (r: Result<
        Self,
        E,
    >)
        ensures
            generation_view(r) == construction_outcome(bytes@, fill_result),
    {
        match fill_result {
            Ok(_) => Ok(Entropy { bytes }),
            Err(e) => Err(e),
        }
    }

    /// Attempt to generate entropy from the provided `EntropySource`.
    ///
    /// The provider decides success: on `Ok` the container holds exactly
    /// `LENGTH` bytes written by that single fill call, and on `Err` the
    /// provider's error is returned unchanged with no container constructed.
    pub fn try_generate<S: EntropySource>(source: &S) -> (r: Result<
        Self,
        S::EntropySourceError,
    >)
        ensures
            r matches Ok(e) ==> e@.len() == LENGTH,
    {
        let mut bytes: [u8; LENGTH] = [0u8; LENGTH];
        let fill_result = source.read_bytes(&mut bytes);
        Self::from_fill_outcome(bytes, fill_result)
    }

    /// Generate entropy from the provided `EntropySource`.
    ///
    /// NOTE: This function panics when the generation fails. See
    /// `try_generate` for a variant with error handling.
    pub fn generate<S: EntropySource>(source: &S) -> (e: Self)
        ensures
            e@.len() == LENGTH,
    {
        unwrap_generated(Self::try_generate(source))
    }
}

/// Relies on `Option::expect`: it returns the value inside `Some` and panics
/// on `None`. The convenience construction path treats a provider failure as
/// fatal, so on `Err` this call terminates the calling context with a
/// diagnostic and never returns; every value it does return is the `Ok` value
/// of its argument.
#[verifier::external_body]
fn unwrap_generated<T, E>(outcome: Result<T, E>) -> (v: T)
    ensures
        outcome == (Ok::<T, E>(v)),
{
    outcome.ok().expect("failed to generate entropy: the entropy source reported an error")
}

/// Law: a container always holds exactly `LENGTH` bytes.
pub proof fn lemma_entropy_length<const LENGTH: usize>(e: Entropy<LENGTH>)
    ensures
        e@.len() == LENGTH,
{
}

/// Law (error transparency): when the fill fails, the construction yields
/// exactly the error the provider produced, unwrapped and unmodified.
pub proof fn lemma_error_transparency<E>(filled: Seq<u8>, err: E)
    ensures
        construction_outcome(filled, Err::<(), E>(err)) == Err::<Seq<u8>, E>(err),
{
}

/// Law (no partial exposure on failure): the outcome of a failed construction
/// does not depend on the contents of the discarded buffer, so no caller can
/// observe any bytes written before the failure.
pub proof fn lemma_failure_hides_buffer<E>(filled_a: Seq<u8>, filled_b: Seq<u8>, err: E)
    ensures
        construction_outcome(filled_a, Err::<(), E>(err)) == construction_outcome(
            filled_b,
            Err::<(), E>(err),
        ),
{
}

/// Law (convenience/fallible agreement on success): when the fill succeeds,
/// the construction yields exactly the filled bytes, so the fallible path
/// returns `Ok` of those bytes and the convenience path, which unwraps that
/// same result, returns a container with identical content.
pub proof fn lemma_success_paths_agree<E>(filled: Seq<u8>, fill_result: Result<(), E>)
    requires
        fill_result is Ok,
    ensures
        construction_outcome(filled, fill_result) == Ok::<Seq<u8>, E>(filled),
{
}

} // verus!
