//! The continuation contract that every builder is parameterized over.

use vstd::prelude::*;

verus! {

/// A single-use continuation: a capability that accepts a finished value and
/// produces some result.  Builders own exactly one continuation, move it out
/// at finalization, and return whatever the continuation returns, so the only
/// way a chain step communicates its result upward is through `invoke`.
///
/// `spec_invoke` is the mathematical description of the continuation: every
/// implementation must return exactly `self.spec_invoke(value)`.
pub trait Invoke<T>: Sized {
    /// What the continuation produces from a finished value.
    type Result;

    /// The value `invoke` returns for a given input.
    spec fn spec_invoke(self, value: T) -> Self::Result;

    /// Consumes the continuation, handing it the finished value.
    fn invoke(self, value: T) -> (r: Self::Result)
        ensures
            r == self.spec_invoke(value),
    ;
}

/// The identity continuation: finalizing a builder chain that ends here
/// returns the finished node itself, with no further wrapping.
pub struct Identity;

impl<T> Invoke<T> for Identity {
    type Result = T;

    open spec fn spec_invoke(self, value: T) -> T {
        value
    }

    fn invoke(self, value: T) -> (r: T) {
        value
    }
}

/// A continuation that records its input: it hands the finished value back
/// inside a [`Recorded`] wrapper, so a caller can see both that the
/// continuation ran and exactly which value it was given.
pub struct Recorder;

/// The result of [`Recorder`]: the one value the continuation was invoked with.
pub struct Recorded<T> {
    pub value: T,
}

impl<T> Invoke<T> for Recorder {
    type Result = Recorded<T>;

    open spec fn spec_invoke(self, value: T) -> Recorded<T> {
        Recorded { value }
    }

    fn invoke(self, value: T) -> (r: Recorded<T>) {
        Recorded { value }
    }
}

/// With the identity continuation, invoking is exactly the identity: the
/// result is the value handed in, with nothing added around it.
pub proof fn lemma_identity_invoke<T>(value: T)
    ensures
        Identity.spec_invoke(value) == value,
{
}

/// The recording continuation is handed exactly the finished value: what it
/// records is that value and nothing else.
pub proof fn lemma_recorder_invoke<T>(value: T)
    ensures
        Recorder.spec_invoke(value) == (Recorded { value }),
{
}

} // verus!
