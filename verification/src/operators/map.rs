use vstd::prelude::*;
use crate::trace::{lemma_outputs_len, outputs, state_after};
use crate::{keeps_output, Current, Indicator, Next, Reset};

verus! {

/// A pure function from `A`, as a value: what it computes is the spec
/// function `project_spec`, and `project` computes it.
///
/// Every closure and function of one argument is a projection. Of such a
/// projection `project_spec` is whatever the closure returns, which Verus
/// knows only as far as the `ensures` clause of the closure speaks of results
/// of calls that were made. A type that implements this trait itself gives
/// `project_spec` a body, and the outputs of an indicator mapped by it can be
/// computed in proofs.
pub trait Projection<A> {
    type Output;

    /// The projection can be applied to every argument.
    spec fn well_defined(&self) -> bool;

    /// The result for `a`.
    spec fn project_spec(&self, a: A) -> Self::Output;

    fn project(&self, a: A) -> (projected: Self::Output)
        requires
            self.well_defined(),
        ensures
            projected == self.project_spec(a),
    ;
}

/// `f` can be called on every argument, and its result is a function of the
/// argument alone.
pub open spec fn is_pure<A, R, F: Fn(A) -> R>(f: F) -> bool {
    &&& forall|a: A| #[trigger] call_requires(f, (a,))
    &&& forall|a: A, r1: R, r2: R|
        #![trigger call_ensures(f, (a,), r1), call_ensures(f, (a,), r2)]
        call_ensures(f, (a,), r1) && call_ensures(f, (a,), r2) ==> r1 == r2
}

/// The result of a pure `f` on `a`.
pub open spec fn apply<A, R, F: Fn(A) -> R>(f: F, a: A) -> R {
    choose|r: R| call_ensures(f, (a,), r)
}

impl<A, R, F: Fn(A) -> R> Projection<A> for F {
    type Output = R;

    open spec fn well_defined(&self) -> bool {
        is_pure(*self)
    }

    open spec fn project_spec(&self, a: A) -> R {
        apply(*self, a)
    }

    fn project(&self, a: A) -> (projected: R) {
        self(a)
    }
}

/// What it means for a closure or function `f` to be a projection.
pub proof fn lemma_fn_projection<A, R, F: Fn(A) -> R>(f: F, a: A)
    ensures
        f.well_defined() <==> is_pure(f),
        f.project_spec(a) == apply(f, a),
        forall|r: R| is_pure(f) && call_ensures(f, (a,), r) ==> apply(f, a) == r,
{
}

/// An indicator followed by a projection of its output.
pub struct Mapped<I, F> where I: Indicator, F: Projection<I::Output> {
    pub i: I,
    pub f: F,
}

impl<I, F> Mapped<I, F> where I: Indicator, F: Projection<I::Output> {
    pub fn new(i: I, f: F) -> (mapped: Self)
        ensures
            mapped == (Mapped { i, f }),
            mapped.inv() <==> i.inv() && f.well_defined(),
    {
        Self { i, f }
    }

    /// Take out the inner indicator that composes this indicator.
    pub fn decompose(self) -> (inner: I)
        ensures
            inner == self.i,
    {
        self.i
    }
}

impl<I, F> Indicator for Mapped<I, F> where I: Indicator, F: Projection<I::Output> {
    type Output = F::Output;

    open spec fn inv(&self) -> bool {
        self.i.inv() && self.f.well_defined()
    }

    open spec fn initial(self) -> Self {
        Mapped { i: self.i.initial(), f: self.f }
    }

    proof fn lemma_initial(self) {
        self.i.lemma_initial();
    }
}

impl<I, F> Current for Mapped<I, F> where I: Indicator + Current, F: Projection<I::Output> {
    open spec fn current_spec(&self) -> Option<F::Output> {
        match self.i.current_spec() {
            Some(x) => Some(self.f.project_spec(x)),
            None => None,
        }
    }

    fn current(&self) -> (value: Option<F::Output>) {
        match self.i.current() {
            Some(x) => Some(self.f.project(x)),
            None => None,
        }
    }
}

impl<I, F, N> Next<N> for Mapped<I, F> where I: Indicator + Next<N>, F: Projection<I::Output> {
    open spec fn next_spec(self, input: N) -> (Self, F::Output) {
        let (i, passed) = self.i.next_spec(input);
        (Mapped { i, f: self.f }, self.f.project_spec(passed))
    }

    proof fn lemma_next_keeps_initial(self, input: N) {
        self.i.lemma_next_keeps_initial(input);
    }

    fn next(&mut self, input: N) -> (output: F::Output) {
        self.f.project(self.i.next(input))
    }
}

impl<I, F> Reset for Mapped<I, F> where I: Indicator + Reset, F: Projection<I::Output> {
    fn reset(&mut self) {
        self.i.reset();
    }
}

/// A mapped indicator keeps what it returned where the indicator inside does.
pub proof fn lemma_mapped_current<I, F, N>(mapped: Mapped<I, F>, input: N) where
    I: Indicator + Next<N> + Current,
    F: Projection<I::Output>,

    requires
        keeps_output(mapped.i, input),
    ensures
        keeps_output(mapped, input),
{
}

/// A run of a mapped indicator is a run of the indicator inside, with the
/// projection applied to every output.
pub proof fn lemma_mapped_run<I, F, N>(mapped: Mapped<I, F>, inputs: Seq<N>) where
    I: Indicator + Next<N>,
    F: Projection<I::Output>,

    ensures
        state_after(mapped, inputs).i == state_after(mapped.i, inputs),
        state_after(mapped, inputs).f == mapped.f,
        outputs(mapped, inputs) == outputs(mapped.i, inputs).map_values(
            |output: I::Output| mapped.f.project_spec(output),
        ),
    decreases inputs.len(),
{
    if inputs.len() > 0 {
        let shorter = inputs.drop_last();
        lemma_mapped_run(mapped, shorter);
        lemma_outputs_len(mapped.i, shorter);
        lemma_outputs_len(mapped, shorter);
    }
}

} // verus!
