//! Indicators over whole input sequences.
use vstd::prelude::*;
use crate::{Indicator, Next, Reset};

verus! {

/// The state reached and the outputs produced by feeding `inputs` to `ind`
/// one by one, in order.
pub open spec fn run<I: Next<In>, In>(ind: I, inputs: Seq<In>) -> (I, Seq<I::Output>)
    decreases inputs.len(),
{
    if inputs.len() == 0 {
        (ind, Seq::empty())
    } else {
        let (before, outputs) = run(ind, inputs.drop_last());
        let (after, output) = before.next_spec(inputs.last());
        (after, outputs.push(output))
    }
}

/// The state `ind` is in after `inputs`.
pub open spec fn state_after<I: Next<In>, In>(ind: I, inputs: Seq<In>) -> I {
    run(ind, inputs).0
}

/// The outputs `ind` produces on `inputs`.
pub open spec fn outputs<I: Next<In>, In>(ind: I, inputs: Seq<In>) -> Seq<I::Output> {
    run(ind, inputs).1
}

/// Feed `inputs` to `ind` one by one, in order, and collect the outputs.
pub fn feed_all<I: Next<In>, In: Copy>(ind: &mut I, inputs: &[In]) -> (collected: Vec<I::Output>)
    requires
        old(ind).inv(),
    ensures
        final(ind).inv(),
        *final(ind) == state_after(*old(ind), inputs@),
        collected@ == outputs(*old(ind), inputs@),
{
    let mut collected: Vec<I::Output> = Vec::new();
    let mut at: usize = 0;
    while at < inputs.len()
        invariant
            at <= inputs@.len(),
            ind.inv(),
            *ind == state_after(*old(ind), inputs@.take(at as int)),
            collected@ == outputs(*old(ind), inputs@.take(at as int)),
        decreases inputs@.len() - at,
    {
        assert(inputs@.take(at + 1).drop_last() == inputs@.take(at as int));
        collected.push(ind.next(inputs[at]));
        at += 1;
    }
    assert(inputs@.take(at as int) == inputs@);
    collected
}

/// One output per input.
pub proof fn lemma_outputs_len<I: Next<In>, In>(ind: I, inputs: Seq<In>)
    ensures
        outputs(ind, inputs).len() == inputs.len(),
    decreases inputs.len(),
{
    if inputs.len() > 0 {
        lemma_outputs_len(ind, inputs.drop_last());
    }
}

/// Running over the first `k` inputs gives the first `k` outputs of the full
/// run.
pub proof fn lemma_run_prefix<I: Next<In>, In>(ind: I, inputs: Seq<In>, k: int)
    requires
        0 <= k <= inputs.len(),
    ensures
        outputs(ind, inputs.take(k)) == outputs(ind, inputs).take(k),
    decreases inputs.len(),
{
    lemma_outputs_len(ind, inputs);
    if k == inputs.len() {
        assert(inputs.take(k) == inputs);
        assert(outputs(ind, inputs).take(k) == outputs(ind, inputs));
    } else {
        let shorter = inputs.drop_last();
        lemma_run_prefix(ind, shorter, k);
        lemma_outputs_len(ind, shorter);
        assert(shorter.take(k) == inputs.take(k));
        assert(outputs(ind, shorter).take(k) == outputs(ind, inputs).take(k));
    }
}

/// No lookahead: two input sequences that agree on their first `k` elements
/// give the same first `k` outputs.
pub proof fn lemma_no_lookahead<I: Next<In>, In>(ind: I, a: Seq<In>, b: Seq<In>, k: int)
    requires
        0 <= k <= a.len(),
        k <= b.len(),
        a.take(k) == b.take(k),
    ensures
        outputs(ind, a).take(k) == outputs(ind, b).take(k),
{
    lemma_run_prefix(ind, a, k);
    lemma_run_prefix(ind, b, k);
}

/// Whatever was fed, the construction-time state stays the same: a reset
/// after any run leads to the state that a reset before it leads to.
pub proof fn lemma_run_keeps_initial<I: Next<In>, In>(ind: I, inputs: Seq<In>)
    ensures
        state_after(ind, inputs).initial() == ind.initial(),
    decreases inputs.len(),
{
    if inputs.len() > 0 {
        lemma_run_keeps_initial(ind, inputs.drop_last());
        state_after(ind, inputs.drop_last()).lemma_next_keeps_initial(inputs.last());
    }
}

/// Reset equivalence: an indicator in its construction-time state that runs
/// over `inputs`, is reset, and runs over `inputs` again gives the same
/// outputs both times.
pub proof fn lemma_reset_equivalence<I: Next<In> + Reset, In>(ind: I, inputs: Seq<In>)
    requires
        ind.initial() == ind,
    ensures
        outputs(state_after(ind, inputs).initial(), inputs) == outputs(ind, inputs),
{
    lemma_run_keeps_initial(ind, inputs);
}

} // verus!
