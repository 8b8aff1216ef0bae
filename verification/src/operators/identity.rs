use vstd::prelude::*;
use crate::{keeps_output, Current, Indicator, Next, Reset};

verus! {

/// The indicator that returns each input as it came and remembers the last.
pub struct Identity<T: Copy>(pub Option<T>);

impl<T: Copy> Identity<T> {
    pub fn new() -> (identity: Self)
        ensures
            identity == Identity::<T>(None),
            identity.inv(),
            identity.initial() == identity,
    {
        Identity(None)
    }
}

impl<T: Copy> Indicator for Identity<T> {
    type Output = T;

    open spec fn inv(&self) -> bool {
        true
    }

    open spec fn initial(self) -> Self {
        Identity(None)
    }

    proof fn lemma_initial(self) {
    }
}

impl<T: Copy> Next<T> for Identity<T> {
    open spec fn next_spec(self, input: T) -> (Self, T) {
        (Identity(Some(input)), input)
    }

    proof fn lemma_next_keeps_initial(self, input: T) {
    }

    fn next(&mut self, input: T) -> (output: T) {
        self.0 = Some(input);
        input
    }
}

impl<T: Copy> Current for Identity<T> {
    open spec fn current_spec(&self) -> Option<T> {
        self.0
    }

    fn current(&self) -> (value: Option<T>) {
        self.0
    }
}

impl<T: Copy> Reset for Identity<T> {
    fn reset(&mut self) {
        self.0 = None;
    }
}

/// `Identity` keeps what it returned, and holds nothing when new or reset.
pub proof fn lemma_identity_current<T: Copy>(identity: Identity<T>, input: T)
    ensures
        keeps_output(identity, input),
        identity.initial().current_spec() is None,
{
}

} // verus!
