use vstd::prelude::*;
use vstd::std_specs::convert::FromSpecImpl;
use crate::{keeps_output, Current, Indicator, Next, Reset};

verus! {

/// The indicator that ignores its input and always returns the same value.
pub struct Constant<T: Copy>(pub T);

impl<T: Copy> From<T> for Constant<T> {
    fn from(t: T) -> (constant: Self) {
        Constant(t)
    }
}

impl<T: Copy> FromSpecImpl<T> for Constant<T> {
    open spec fn obeys_from_spec() -> bool {
        true
    }

    open spec fn from_spec(t: T) -> Self {
        Constant(t)
    }
}

impl<T: Copy> Indicator for Constant<T> {
    type Output = T;

    open spec fn inv(&self) -> bool {
        true
    }

    open spec fn initial(self) -> Self {
        self
    }

    proof fn lemma_initial(self) {
    }
}

impl<T: Copy, N> Next<N> for Constant<T> {
    open spec fn next_spec(self, input: N) -> (Self, T) {
        (self, self.0)
    }

    proof fn lemma_next_keeps_initial(self, input: N) {
    }

    fn next(&mut self, input: N) -> (output: T) {
        self.0
    }
}

impl<T: Copy> Current for Constant<T> {
    open spec fn current_spec(&self) -> Option<T> {
        Some(self.0)
    }

    fn current(&self) -> (value: Option<T>) {
        Some(self.0)
    }
}

impl<T: Copy> Reset for Constant<T> {
    fn reset(&mut self) {
    }
}

/// `Constant` holds its value in every state.
pub proof fn lemma_constant_current<T: Copy, N>(constant: Constant<T>, input: N)
    ensures
        keeps_output(constant, input),
        constant.current_spec() == Some(constant.0),
{
}

} // verus!
