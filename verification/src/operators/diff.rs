use vstd::prelude::*;
use vstd::std_specs::ops::SubSpec;
use core::ops::Sub;
use crate::trace::{lemma_outputs_len, outputs, state_after};
use crate::{keeps_output, Current, Indicator, Next, Reset};

verus! {

/// The difference of two indicators: each side has its own input, and the
/// output is the left output minus the right output.
pub struct Diff<Lhs, Rhs> where
    Lhs: Indicator,
    Rhs: Indicator<Output = Lhs::Output>,
    Lhs::Output: Sub,
 {
    pub lhs: Lhs,
    pub rhs: Rhs,
}

/// Subtraction on `T` is defined for every pair of values and has a
/// mathematical meaning.
pub open spec fn subtraction_is_total<T: Sub>() -> bool {
    &&& T::obeys_sub_spec()
    &&& forall|a: T, b: T| #[trigger] a.sub_req(b)
}

impl<Lhs, Rhs> Diff<Lhs, Rhs> where
    Lhs: Indicator,
    Rhs: Indicator<Output = Lhs::Output>,
    Lhs::Output: Sub,
 {
    pub fn new(lhs: Lhs, rhs: Rhs) -> (diff: Self)
        ensures
            diff == (Diff { lhs, rhs }),
            diff.inv() <==> lhs.inv() && rhs.inv() && subtraction_is_total::<Lhs::Output>(),
    {
        Self { lhs, rhs }
    }
}

impl<Lhs, Rhs> Indicator for Diff<Lhs, Rhs> where
    Lhs: Indicator,
    Rhs: Indicator<Output = Lhs::Output>,
    Lhs::Output: Sub,
 {
    type Output = <Lhs::Output as Sub>::Output;

    open spec fn inv(&self) -> bool {
        &&& self.lhs.inv()
        &&& self.rhs.inv()
        &&& subtraction_is_total::<Lhs::Output>()
    }

    open spec fn initial(self) -> Self {
        Diff { lhs: self.lhs.initial(), rhs: self.rhs.initial() }
    }

    proof fn lemma_initial(self) {
        self.lhs.lemma_initial();
        self.rhs.lemma_initial();
    }
}

impl<Lhs, Rhs, IL, IR> Next<(IL, IR)> for Diff<Lhs, Rhs> where
    Lhs: Indicator + Next<IL>,
    Rhs: Indicator<Output = Lhs::Output> + Next<IR>,
    Lhs::Output: Sub,
 {
    open spec fn next_spec(self, input: (IL, IR)) -> (Self, <Lhs::Output as Sub>::Output) {
        let (lhs, left) = self.lhs.next_spec(input.0);
        let (rhs, right) = self.rhs.next_spec(input.1);
        (Diff { lhs, rhs }, left.sub_spec(right))
    }

    proof fn lemma_next_keeps_initial(self, input: (IL, IR)) {
        self.lhs.lemma_next_keeps_initial(input.0);
        self.rhs.lemma_next_keeps_initial(input.1);
    }

    fn next(&mut self, input: (IL, IR)) -> (output: <Lhs::Output as Sub>::Output) {
        let (input_l, input_r) = input;
        let left = self.lhs.next(input_l);
        let right = self.rhs.next(input_r);
        left - right
    }
}

impl<Lhs, Rhs> Current for Diff<Lhs, Rhs> where
    Lhs: Indicator + Current,
    Rhs: Indicator<Output = Lhs::Output> + Current,
    Lhs::Output: Sub,
 {
    /// Present only when both sides have a value.
    open spec fn current_spec(&self) -> Option<<Lhs::Output as Sub>::Output> {
        match (self.lhs.current_spec(), self.rhs.current_spec()) {
            (Some(left), Some(right)) => Some(left.sub_spec(right)),
            _ => None,
        }
    }

    fn current(&self) -> (value: Option<<Lhs::Output as Sub>::Output>) {
        match (self.lhs.current(), self.rhs.current()) {
            (Some(left), Some(right)) => Some(left - right),
            _ => None,
        }
    }
}

impl<Lhs, Rhs> Reset for Diff<Lhs, Rhs> where
    Lhs: Indicator + Reset,
    Rhs: Indicator<Output = Lhs::Output> + Reset,
    Lhs::Output: Sub,
 {
    fn reset(&mut self) {
        self.lhs.reset();
        self.rhs.reset();
    }
}

/// Conjunctive readiness: the current value of `Diff` is absent exactly when
/// that of either side is.
pub proof fn lemma_diff_conjunctive<Lhs, Rhs>(diff: Diff<Lhs, Rhs>) where
    Lhs: Indicator + Current,
    Rhs: Indicator<Output = Lhs::Output> + Current,
    Lhs::Output: Sub,

    ensures
        diff.current_spec() is None <==> diff.lhs.current_spec() is None
            || diff.rhs.current_spec() is None,
{
}

/// Once both sides have advanced, and each keeps what it returned, `Diff`
/// holds the difference that it returned.
pub proof fn lemma_diff_current<Lhs, Rhs, IL, IR>(diff: Diff<Lhs, Rhs>, input: (IL, IR)) where
    Lhs: Indicator + Next<IL> + Current,
    Rhs: Indicator<Output = Lhs::Output> + Next<IR> + Current,
    Lhs::Output: Sub,

    requires
        keeps_output(diff.lhs, input.0),
        keeps_output(diff.rhs, input.1),
    ensures
        keeps_output(diff, input),
{
}

/// A run of `Diff` is a run of each side on its own half of the inputs, and
/// its outputs are the differences of theirs.
pub proof fn lemma_diff_run<Lhs, Rhs, IL, IR>(diff: Diff<Lhs, Rhs>, inputs: Seq<(IL, IR)>) where
    Lhs: Indicator + Next<IL>,
    Rhs: Indicator<Output = Lhs::Output> + Next<IR>,
    Lhs::Output: Sub,

    ensures
        state_after(diff, inputs).lhs == state_after(diff.lhs, inputs.map_values(|x: (IL, IR)| x.0)),
        state_after(diff, inputs).rhs == state_after(diff.rhs, inputs.map_values(|x: (IL, IR)| x.1)),
        outputs(diff, inputs) == Seq::new(
            inputs.len(),
            |k: int|
                outputs(diff.lhs, inputs.map_values(|x: (IL, IR)| x.0))[k].sub_spec(
                    outputs(diff.rhs, inputs.map_values(|x: (IL, IR)| x.1))[k],
                ),
        ),
    decreases inputs.len(),
{
    let left = inputs.map_values(|x: (IL, IR)| x.0);
    let right = inputs.map_values(|x: (IL, IR)| x.1);
    if inputs.len() > 0 {
        let shorter = inputs.drop_last();
        lemma_diff_run(diff, shorter);
        assert(left.drop_last() == shorter.map_values(|x: (IL, IR)| x.0));
        assert(right.drop_last() == shorter.map_values(|x: (IL, IR)| x.1));
        lemma_outputs_len(diff.lhs, left.drop_last());
        lemma_outputs_len(diff.rhs, right.drop_last());
        lemma_outputs_len(diff, shorter);
    }
}

} // verus!
