use vstd::prelude::*;
use crate::trace::{outputs, state_after};
use crate::{keeps_output, Current, Indicator, Next, Reset};

verus! {

/// Two indicators in series: every output of `inner` is the next input of
/// `outer`.
pub struct Composition<Inner, Outer> where Inner: Indicator, Outer: Indicator + Next<Inner::Output> {
    pub inner: Inner,
    pub outer: Outer,
}

impl<Inner, Outer> Composition<Inner, Outer> where
    Inner: Indicator,
    Outer: Indicator + Next<Inner::Output>,
 {
    pub fn new(inner: Inner, outer: Outer) -> (composition: Self)
        ensures
            composition == (Composition { inner, outer }),
            composition.inv() <==> inner.inv() && outer.inv(),
    {
        Self { inner, outer }
    }

    /// Take out the indicators that compose this indicator.
    pub fn decompose(self) -> (parts: (Inner, Outer))
        ensures
            parts == (self.inner, self.outer),
    {
        (self.inner, self.outer)
    }
}

impl<Inner, Outer> Indicator for Composition<Inner, Outer> where
    Inner: Indicator,
    Outer: Indicator + Next<Inner::Output>,
 {
    type Output = Outer::Output;

    open spec fn inv(&self) -> bool {
        self.inner.inv() && self.outer.inv()
    }

    open spec fn initial(self) -> Self {
        Composition { inner: self.inner.initial(), outer: self.outer.initial() }
    }

    proof fn lemma_initial(self) {
        self.inner.lemma_initial();
        self.outer.lemma_initial();
    }
}

impl<Inner, Outer, N> Next<N> for Composition<Inner, Outer> where
    Inner: Indicator + Next<N>,
    Outer: Indicator + Next<Inner::Output>,
 {
    open spec fn next_spec(self, input: N) -> (Self, Outer::Output) {
        let (inner, passed) = self.inner.next_spec(input);
        let (outer, output) = self.outer.next_spec(passed);
        (Composition { inner, outer }, output)
    }

    proof fn lemma_next_keeps_initial(self, input: N) {
        self.inner.lemma_next_keeps_initial(input);
        self.outer.lemma_next_keeps_initial(self.inner.next_spec(input).1);
    }

    fn next(&mut self, input: N) -> (output: Outer::Output) {
        self.outer.next(self.inner.next(input))
    }
}

impl<Inner, Outer> Current for Composition<Inner, Outer> where
    Inner: Indicator,
    Outer: Indicator + Next<Inner::Output> + Current,
 {
    open spec fn current_spec(&self) -> Option<Outer::Output> {
        self.outer.current_spec()
    }

    fn current(&self) -> (value: Option<Outer::Output>) {
        self.outer.current()
    }
}

impl<Inner, Outer> Reset for Composition<Inner, Outer> where
    Inner: Indicator + Reset,
    Outer: Indicator + Next<Inner::Output> + Reset,
 {
    fn reset(&mut self) {
        self.inner.reset();
        self.outer.reset();
    }
}

/// A composition keeps what it returned where its outer indicator does.
pub proof fn lemma_composition_current<Inner, Outer, N>(
    composition: Composition<Inner, Outer>,
    input: N,
) where Inner: Indicator + Next<N>, Outer: Indicator + Next<Inner::Output> + Current
    requires
        keeps_output(composition.outer, composition.inner.next_spec(input).1),
    ensures
        keeps_output(composition, input),
{
}

/// A run of a composition is a run of its inner indicator followed by a run
/// of its outer indicator on what the inner one gave.
pub proof fn lemma_composition_run<Inner, Outer, N>(
    composition: Composition<Inner, Outer>,
    inputs: Seq<N>,
) where Inner: Indicator + Next<N>, Outer: Indicator + Next<Inner::Output>
    ensures
        state_after(composition, inputs).inner == state_after(composition.inner, inputs),
        state_after(composition, inputs).outer == state_after(
            composition.outer,
            outputs(composition.inner, inputs),
        ),
        outputs(composition, inputs) == outputs(
            composition.outer,
            outputs(composition.inner, inputs),
        ),
    decreases inputs.len(),
{
    if inputs.len() > 0 {
        let shorter = inputs.drop_last();
        lemma_composition_run(composition, shorter);
        let passed = outputs(composition.inner, inputs);
        assert(passed.drop_last() == outputs(composition.inner, shorter));
    } else {
        assert(outputs(composition.inner, inputs) == Seq::<Inner::Output>::empty());
    }
}

} // verus!
