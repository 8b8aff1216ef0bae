use vstd::prelude::*;
use crate::trace::{lemma_outputs_len, outputs, state_after};
use crate::{keeps_output, Current, Indicator, Next, Reset};

verus! {

/// Two indicators side by side: one input goes to both, and the two outputs
/// come back as a pair.
pub struct Together<Lhs, Rhs> where Lhs: Indicator, Rhs: Indicator {
    pub lhs: Lhs,
    pub rhs: Rhs,
}

impl<Lhs, Rhs> Together<Lhs, Rhs> where Lhs: Indicator, Rhs: Indicator {
    pub fn new(lhs: Lhs, rhs: Rhs) -> (together: Self)
        ensures
            together == (Together { lhs, rhs }),
            together.inv() <==> lhs.inv() && rhs.inv(),
    {
        Self { lhs, rhs }
    }

    /// Take out the indicators that compose this indicator.
    pub fn decompose(self) -> (parts: (Lhs, Rhs))
        ensures
            parts == (self.lhs, self.rhs),
    {
        (self.lhs, self.rhs)
    }
}

impl<Lhs, Rhs> Indicator for Together<Lhs, Rhs> where Lhs: Indicator, Rhs: Indicator {
    type Output = (Lhs::Output, Rhs::Output);

    open spec fn inv(&self) -> bool {
        self.lhs.inv() && self.rhs.inv()
    }

    open spec fn initial(self) -> Self {
        Together { lhs: self.lhs.initial(), rhs: self.rhs.initial() }
    }

    proof fn lemma_initial(self) {
        self.lhs.lemma_initial();
        self.rhs.lemma_initial();
    }
}

impl<Lhs, Rhs, T> Next<T> for Together<Lhs, Rhs> where
    T: Copy,
    Lhs: Indicator + Next<T>,
    Rhs: Indicator + Next<T>,
 {
    open spec fn next_spec(self, input: T) -> (Self, (Lhs::Output, Rhs::Output)) {
        let (lhs, left) = self.lhs.next_spec(input);
        let (rhs, right) = self.rhs.next_spec(input);
        (Together { lhs, rhs }, (left, right))
    }

    proof fn lemma_next_keeps_initial(self, input: T) {
        self.lhs.lemma_next_keeps_initial(input);
        self.rhs.lemma_next_keeps_initial(input);
    }

    fn next(&mut self, input: T) -> (output: (Lhs::Output, Rhs::Output)) {
        let left = self.lhs.next(input);
        let right = self.rhs.next(input);
        (left, right)
    }
}

impl<Lhs, Rhs> Current for Together<Lhs, Rhs> where
    Lhs: Indicator + Current,
    Rhs: Indicator + Current,
 {
    /// Present only when both sides have a value.
    open spec fn current_spec(&self) -> Option<(Lhs::Output, Rhs::Output)> {
        match (self.lhs.current_spec(), self.rhs.current_spec()) {
            (Some(left), Some(right)) => Some((left, right)),
            _ => None,
        }
    }

    fn current(&self) -> (value: Option<(Lhs::Output, Rhs::Output)>) {
        match (self.lhs.current(), self.rhs.current()) {
            (Some(left), Some(right)) => Some((left, right)),
            _ => None,
        }
    }
}

impl<Lhs, Rhs> Reset for Together<Lhs, Rhs> where
    Lhs: Indicator + Reset,
    Rhs: Indicator + Reset,
 {
    fn reset(&mut self) {
        self.lhs.reset();
        self.rhs.reset();
    }
}

/// Conjunctive readiness: the current value of `Together` is absent exactly
/// when that of either side is, and otherwise is the pair of the two.
pub proof fn lemma_together_conjunctive<Lhs, Rhs>(together: Together<Lhs, Rhs>) where
    Lhs: Indicator + Current,
    Rhs: Indicator + Current,

    ensures
        together.current_spec() is None <==> together.lhs.current_spec() is None
            || together.rhs.current_spec() is None,
        together.current_spec() matches Some(pair) ==> together.lhs.current_spec() == Some(pair.0)
            && together.rhs.current_spec() == Some(pair.1),
{
}

/// Once both sides have advanced, and each keeps what it returned, `Together`
/// holds the pair that it returned.
pub proof fn lemma_together_current<Lhs, Rhs, T>(together: Together<Lhs, Rhs>, input: T) where
    T: Copy,
    Lhs: Indicator + Next<T> + Current,
    Rhs: Indicator + Next<T> + Current,

    requires
        keeps_output(together.lhs, input),
        keeps_output(together.rhs, input),
    ensures
        keeps_output(together, input),
{
}

/// A run of `Together` is a run of each side on the same inputs, and its
/// outputs are the pairs of theirs.
pub proof fn lemma_together_run<Lhs, Rhs, T>(together: Together<Lhs, Rhs>, inputs: Seq<T>) where
    T: Copy,
    Lhs: Indicator + Next<T>,
    Rhs: Indicator + Next<T>,

    ensures
        state_after(together, inputs).lhs == state_after(together.lhs, inputs),
        state_after(together, inputs).rhs == state_after(together.rhs, inputs),
        outputs(together, inputs) == Seq::new(
            inputs.len(),
            |k: int| (outputs(together.lhs, inputs)[k], outputs(together.rhs, inputs)[k]),
        ),
    decreases inputs.len(),
{
    if inputs.len() > 0 {
        let shorter = inputs.drop_last();
        lemma_together_run(together, shorter);
        lemma_outputs_len(together.lhs, shorter);
        lemma_outputs_len(together.rhs, shorter);
        lemma_outputs_len(together, shorter);
    }
}

} // verus!
