use vstd::prelude::*;
use crate::trace::{outputs, state_after};
use crate::{keeps_output, Current, Indicator, Next, Reset};

verus! {

/// An indicator whose first `period` outputs are withheld.
///
/// `cnt` starts at `period + 1` and falls by one with every withheld output
/// until it is 1; the advance that finds it at 1 or below passes the output
/// through and leaves it at 0.
pub struct Mature<I: Indicator> {
    pub i: I,
    pub period: usize,
    pub cnt: usize,
}

impl<I: Indicator> Mature<I> {
    pub fn new(i: I, period: usize) -> (mature: Self)
        requires
            period < usize::MAX,
        ensures
            mature == (Mature { i, period, cnt: (period + 1) as usize }),
            mature.inv() <==> i.inv(),
    {
        Self { i, period, cnt: period + 1 }
    }
}

impl<I: Indicator> Indicator for Mature<I> {
    type Output = Option<I::Output>;

    open spec fn inv(&self) -> bool {
        &&& self.i.inv()
        &&& self.period < usize::MAX
        &&& self.cnt <= self.period + 1
    }

    open spec fn initial(self) -> Self {
        Mature { i: self.i.initial(), period: self.period, cnt: (self.period + 1) as usize }
    }

    proof fn lemma_initial(self) {
        self.i.lemma_initial();
    }
}

impl<I: Indicator, N> Next<N> for Mature<I> where I: Next<N> {
    open spec fn next_spec(self, input: N) -> (Self, Option<I::Output>) {
        let (i, output) = self.i.next_spec(input);
        if self.cnt <= 1 {
            (Mature { i, period: self.period, cnt: 0 }, Some(output))
        } else {
            (Mature { i, period: self.period, cnt: (self.cnt - 1) as usize }, None)
        }
    }

    proof fn lemma_next_keeps_initial(self, input: N) {
        self.i.lemma_next_keeps_initial(input);
    }

    fn next(&mut self, input: N) -> (output: Option<I::Output>) {
        let output = self.i.next(input);
        if self.cnt <= 1 {
            self.cnt = 0;
            Some(output)
        } else {
            self.cnt -= 1;
            None
        }
    }
}

impl<I: Indicator> Current for Mature<I> where I: Current {
    /// Absent while outputs are withheld; afterwards whatever the wrapped
    /// indicator holds.
    open spec fn current_spec(&self) -> Option<Option<I::Output>> {
        if self.cnt <= 0 {
            Some(self.i.current_spec())
        } else {
            None
        }
    }

    fn current(&self) -> (value: Option<Option<I::Output>>) {
        if self.cnt <= 0 {
            Some(self.i.current())
        } else {
            None
        }
    }
}

impl<I: Indicator> Reset for Mature<I> where I: Reset {
    fn reset(&mut self) {
        self.i.reset();
        self.cnt = self.period + 1;
    }
}

/// The current value mirrors the countdown: while `Mature` withholds an
/// output it holds nothing; when it passes one, it holds what it returned
/// where the wrapped indicator does.
pub proof fn lemma_mature_current<I, N>(mature: Mature<I>, input: N) where I: Next<N> + Current
    ensures
        mature.cnt > 1 ==> mature.next_spec(input).1 is None && mature.next_spec(
            input,
        ).0.current_spec() is None,
        mature.cnt <= 1 && keeps_output(mature.i, input) ==> keeps_output(mature, input),
        mature.period < usize::MAX ==> mature.initial().current_spec() is None,
{
}

/// How a run of `Mature` relates to a run of the indicator it wraps: the
/// wrapped indicator sees every input, and the countdown falls by one per
/// input until it reaches 0.
pub proof fn lemma_mature_run<I: Next<N>, N>(mature: Mature<I>, inputs: Seq<N>)
    ensures
        state_after(mature, inputs).i == state_after(mature.i, inputs),
        state_after(mature, inputs).period == mature.period,
        state_after(mature, inputs).cnt == if inputs.len() == 0 {
            mature.cnt as int
        } else if mature.cnt <= inputs.len() {
            0
        } else {
            mature.cnt - inputs.len()
        },
    decreases inputs.len(),
{
    if inputs.len() > 0 {
        lemma_mature_run(mature, inputs.drop_last());
    }
}

/// The maturity threshold: of the outputs of `Mature { i, period, cnt }` the
/// first `cnt - 1` are absent, and every later one is the output that `i`
/// alone gives at the same place. For a newly made or reset `Mature`, `cnt` is
/// `period + 1`: exactly the first `period` outputs are withheld.
pub proof fn lemma_mature_threshold<I: Next<N>, N>(mature: Mature<I>, inputs: Seq<N>, k: int)
    requires
        0 <= k < inputs.len(),
    ensures
        outputs(mature, inputs).len() == inputs.len(),
        outputs(mature.i, inputs).len() == inputs.len(),
        outputs(mature, inputs)[k] == if k + 1 < mature.cnt {
            None
        } else {
            Some(outputs(mature.i, inputs)[k])
        },
    decreases inputs.len(),
{
    crate::trace::lemma_outputs_len(mature, inputs);
    crate::trace::lemma_outputs_len(mature.i, inputs);
    let shorter = inputs.drop_last();
    crate::trace::lemma_outputs_len(mature, shorter);
    crate::trace::lemma_outputs_len(mature.i, shorter);
    if k < shorter.len() {
        lemma_mature_threshold(mature, shorter, k);
    } else {
        lemma_mature_run(mature, shorter);
    }
}

} // verus!
