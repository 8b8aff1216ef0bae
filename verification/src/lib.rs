//! Streaming indicators for time series, and the combinators that build
//! pipelines out of them.
//!
//! An indicator consumes one input at a time and answers with one output.
//! Mathematically it is a deterministic state machine: [`Next::next_spec`]
//! gives, for a state and an input, the state that follows and the value
//! returned, and [`Indicator::initial`] gives the state it was constructed
//! in. Every executable operation is specified against that model, and
//! [`trace`] lifts it to whole input sequences: no lookahead and reset
//! equivalence are proved there, for every indicator.
//!
//! The combinators in [`operators`] are indicators made of indicators; each
//! proves its own model from the models of its parts. The primitive
//! indicators compute on real numbers and are not part of this library, which
//! only holds the rules on their parameters, in [`indicators`].
//!
//! An indicator that is written without Verus implements the model as
//! ordinary functions: `inv` tests the state, `initial` is the state after a
//! reset, `next_spec` advances a copy, `current_spec` is `current`, and the
//! lemmas have empty bodies.
use vstd::prelude::*;

pub mod error;
pub mod indicator_ext;
pub mod indicator_iterator;
pub mod indicators;
pub mod operators;
pub mod trace;

pub use error::{Error, InvalidBinaryRelationError, InvalidRangeError, Parameter, Range};
pub use indicator_ext::IndicatorExt;

verus! {

/// A stateful stream transformer.
pub trait Indicator: Sized {
    /// The value produced by one advance.
    type Output;

    /// Well-formedness of the state. Constructors establish it and every
    /// operation preserves it.
    spec fn inv(&self) -> bool;

    /// The state this indicator had when it was constructed.
    spec fn initial(self) -> Self;

    /// The construction-time state is well formed and is its own
    /// construction-time state.
    proof fn lemma_initial(self)
        requires
            self.inv(),
        ensures
            self.initial().inv(),
            self.initial().initial() == self.initial(),
    ;
}

/// The advance operation: consume one input, produce one output.
pub trait Next<Input>: Indicator {
    /// The state left and the value returned by advancing with `input`.
    spec fn next_spec(self, input: Input) -> (Self, Self::Output);

    /// Advancing does not change the construction-time state.
    proof fn lemma_next_keeps_initial(self, input: Input)
        ensures
            self.next_spec(input).0.initial() == self.initial(),
    ;

    fn next(&mut self, input: Input) -> (output: Self::Output)
        requires
            old(self).inv(),
        ensures
            final(self).inv(),
            (*final(self), output) == old(self).next_spec(input),
    ;
}

/// A read of the most recent value that does not advance.
pub trait Current: Indicator {
    /// The value `current` returns in this state.
    spec fn current_spec(&self) -> Option<Self::Output>;

    fn current(&self) -> (value: Option<Self::Output>)
        requires
            self.inv(),
        ensures
            value == self.current_spec(),
    ;
}

/// Current-value coherence at one step: after `ind` has advanced with
/// `input`, `current` gives the output of that advance.
pub open spec fn keeps_output<I, Input>(ind: I, input: Input) -> bool where
    I: Next<Input> + Current,
 {
    ind.next_spec(input).0.current_spec() == Some(ind.next_spec(input).1)
}

/// The return to the construction-time state.
pub trait Reset: Indicator {
    fn reset(&mut self)
        requires
            old(self).inv(),
        ensures
            final(self).inv(),
            *final(self) == old(self).initial(),
    ;
}

} // verus!
