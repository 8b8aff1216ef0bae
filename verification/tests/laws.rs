use indicator::indicator_iterator::IndicatorIterator;
use indicator::operators::{
    Composition, Constant, Diff, Identity, Mapped, Mature, Projection, Together, Window,
};
use indicator::trace::feed_all;
use indicator::{Current, Indicator, IndicatorExt, Next, Reset};

/// The running sum of its inputs, wrapping on overflow.
#[derive(Debug, Clone, PartialEq)]
struct RunningSum {
    sum: Option<i64>,
}

impl RunningSum {
    fn new() -> Self {
        Self { sum: None }
    }
}

impl Indicator for RunningSum {
    type Output = i64;

    fn inv(&self) -> bool {
        true
    }

    fn initial(self) -> Self {
        Self { sum: None }
    }

    fn lemma_initial(self) {}
}

impl Next<i64> for RunningSum {
    fn next_spec(mut self, input: i64) -> (Self, i64) {
        let output = self.next(input);
        (self, output)
    }

    fn lemma_next_keeps_initial(self, _input: i64) {}

    fn next(&mut self, input: i64) -> i64 {
        let sum = self.sum.unwrap_or(0).wrapping_add(input);
        self.sum = Some(sum);
        sum
    }
}

impl Current for RunningSum {
    fn current_spec(&self) -> Option<i64> {
        self.sum
    }

    fn current(&self) -> Option<i64> {
        self.sum
    }
}

impl Reset for RunningSum {
    fn reset(&mut self) {
        self.sum = None;
    }
}

/// A projection that says itself what it computes.
struct Triple;

impl Projection<i64> for Triple {
    type Output = i64;

    fn well_defined(&self) -> bool {
        true
    }

    fn project_spec(&self, a: i64) -> i64 {
        a.wrapping_mul(3)
    }

    fn project(&self, a: i64) -> i64 {
        a.wrapping_mul(3)
    }
}

/// A fixed pseudorandom series of small integers.
fn series(len: usize, seed: u64) -> Vec<i64> {
    let mut state = seed;
    (0..len)
        .map(|_| {
            state = state.wrapping_mul(6364136223846793005).wrapping_add(1442695040888963407);
            ((state >> 40) % 2001) as i64 - 1000
        })
        .collect()
}

/// An indicator on pairs, fed the same value on both sides.
struct Fanned<I>(I);

impl<I: Indicator> Indicator for Fanned<I> {
    type Output = I::Output;

    fn inv(&self) -> bool {
        self.0.inv()
    }

    fn initial(self) -> Self {
        Fanned(self.0.initial())
    }

    fn lemma_initial(self) {}
}

impl<I: Next<(i64, i64)>> Next<i64> for Fanned<I> {
    fn next_spec(self, input: i64) -> (Self, I::Output) {
        let (inner, output) = self.0.next_spec((input, input));
        (Fanned(inner), output)
    }

    fn lemma_next_keeps_initial(self, _input: i64) {}

    fn next(&mut self, input: i64) -> I::Output {
        self.0.next((input, input))
    }
}

impl<I: Current> Current for Fanned<I> {
    fn current_spec(&self) -> Option<I::Output> {
        self.0.current_spec()
    }

    fn current(&self) -> Option<I::Output> {
        self.0.current()
    }
}

impl<I: Reset> Reset for Fanned<I> {
    fn reset(&mut self) {
        self.0.reset()
    }
}

type Pipeline = Window<
    Mature<
        Together<
            Composition<RunningSum, Mapped<Identity<i64>, Triple>>,
            Fanned<Diff<Identity<i64>, RunningSum>>,
        >,
    >,
>;

/// Every combinator in one pipeline on integers.
fn pipeline() -> Pipeline {
    let tripled_sum = RunningSum::new().pullback(Identity::new().map(Triple));
    let spread = Fanned(Diff::new(Identity::new(), RunningSum::new()));
    Window::new(tripled_sum.together(spread).mature(2), 3)
}

fn feed(indicator: &mut Pipeline, inputs: &[i64]) -> Vec<Vec<Option<(i64, i64)>>> {
    feed_all(indicator, inputs).into_iter().map(|window| window.into_vec()).collect()
}

#[test]
fn pipeline_on_a_short_series() {
    let mut indicator = pipeline();
    assert_eq!(indicator.current(), None);
    // sums 1, 3, 6, 10; tripled 3, 9, 18, 30; spread x - sum: 0, -1, -3, -6
    let outputs = feed(&mut indicator, &[1, 2, 3, 4]);
    assert_eq!(outputs[0], vec![None, None, None]);
    assert_eq!(outputs[1], vec![None, None, None]);
    assert_eq!(outputs[2], vec![None, None, Some((18, -3))]);
    assert_eq!(outputs[3], vec![None, Some((18, -3)), Some((30, -6))]);
    assert_eq!(indicator.current().map(|w| w.to_vec()), Some(outputs[3].clone()));
}

#[test]
fn feed_all_is_one_advance_per_input() {
    let inputs = series(100, 11);
    let mut stepped = RunningSum::new();
    let by_steps: Vec<i64> = inputs.iter().map(|x| stepped.next(*x)).collect();
    let mut fed = RunningSum::new();
    assert_eq!(feed_all(&mut fed, &inputs), by_steps);
    assert_eq!(fed, stepped);
    assert_eq!(feed_all(&mut fed, &[]), Vec::<i64>::new());
    assert_eq!(fed, stepped);
    assert_eq!(feed_all(&mut fed, &[5, 6]), vec![stepped.next(5), stepped.next(6)]);
}

#[test]
fn no_lookahead() {
    let a = series(200, 1);
    for k in [0usize, 1, 2, 3, 50, 199, 200] {
        let mut b = a[..k].to_vec();
        b.extend(series(120, 2));
        let outputs_a = feed(&mut pipeline(), &a);
        let outputs_b = feed(&mut pipeline(), &b);
        assert_eq!(outputs_a[..k], outputs_b[..k]);
    }
}

#[test]
fn same_inputs_same_outputs() {
    let inputs = series(300, 3);
    assert_eq!(feed(&mut pipeline(), &inputs), feed(&mut pipeline(), &inputs));
}

#[test]
fn reset_equivalence() {
    let inputs = series(300, 4);
    let mut indicator = pipeline();
    let first = feed(&mut indicator, &inputs);
    indicator.reset();
    assert_eq!(indicator.current(), None);
    let second = feed(&mut indicator, &inputs);
    assert_eq!(first, second);
}

#[test]
fn reset_twice_is_reset_once() {
    let inputs = series(50, 5);
    let mut once = pipeline();
    let mut twice = pipeline();
    feed(&mut once, &inputs);
    feed(&mut twice, &inputs);
    once.reset();
    twice.reset();
    twice.reset();
    assert_eq!(feed(&mut once, &inputs), feed(&mut twice, &inputs));
}

#[test]
fn reset_of_a_new_indicator_changes_nothing() {
    let inputs = series(50, 6);
    let mut reset_first = pipeline();
    reset_first.reset();
    assert_eq!(feed(&mut reset_first, &inputs), feed(&mut pipeline(), &inputs));
}

#[test]
fn mature_threshold() {
    let inputs = series(40, 7);
    for period in 0usize..12 {
        let mut alone = RunningSum::new();
        let mut mature = Mature::new(RunningSum::new(), period);
        for (k, x) in inputs.iter().enumerate() {
            let value = alone.next(*x);
            let expected = if k < period { None } else { Some(value) };
            assert_eq!(mature.next(*x), expected);
            let current = if k < period { None } else { Some(Some(value)) };
            assert_eq!(mature.current(), current);
        }
    }
}

#[test]
fn mature_counts_down_to_zero() {
    let mut mature = Mature::new(Identity::new(), 2);
    assert_eq!((mature.period, mature.cnt), (2, 3));
    assert_eq!(mature.next(10), None);
    assert_eq!(mature.cnt, 2);
    assert_eq!(mature.next(11), None);
    assert_eq!(mature.cnt, 1);
    assert_eq!(mature.next(12), Some(12));
    assert_eq!(mature.cnt, 0);
    assert_eq!(mature.next(13), Some(13));
    assert_eq!(mature.cnt, 0);
    mature.reset();
    assert_eq!((mature.period, mature.cnt), (2, 3));
    assert_eq!(mature.i.current(), None);
}

#[test]
fn together_conjunctive_readiness() {
    let mut advanced = RunningSum::new();
    advanced.next(5);

    let neither = Together::new(RunningSum::new(), Identity::<i64>::new());
    assert_eq!(neither.current(), None);
    let left_only = Together::new(advanced.clone(), Identity::<i64>::new());
    assert_eq!(left_only.current(), None);
    let right_only = Together::new(Identity::<i64>::new(), advanced.clone());
    assert_eq!(right_only.current(), None);

    let mut both = Together::new(RunningSum::new(), Identity::new());
    assert_eq!(both.next(4), (4, 4));
    assert_eq!(both.current(), Some((4, 4)));
    assert_eq!(both.next(6), (10, 6));
    assert_eq!(both.current(), Some((10, 6)));
}

#[test]
fn diff_arithmetic() {
    let inputs = [(0, 0), (1, 1), (0, 2), (2, 0), (3, 1), (1, 9)];
    let outputs = [0, 0, -2, 2, 2, -8];
    let mut diff = Diff::new(Identity::<i64>::new(), Identity::<i64>::new());
    assert_eq!(diff.current(), None);
    for (x, correct) in inputs.into_iter().zip(outputs) {
        assert_eq!(diff.next(x), correct);
        assert_eq!(diff.current(), Some(correct));
    }
    diff.reset();
    assert_eq!(diff.current(), None);
}

#[test]
fn diff_current_needs_both_sides() {
    let advanced = || {
        let mut identity = Identity::<i64>::new();
        identity.next(5);
        identity
    };
    let left_only = Diff::new(advanced(), Identity::<i64>::new());
    assert_eq!(left_only.current(), None);
    let right_only = Diff::new(Identity::<i64>::new(), advanced());
    assert_eq!(right_only.current(), None);
    let both = Diff::new(advanced(), advanced());
    assert_eq!(both.current(), Some(0));
}

#[test]
fn map_composability() {
    let inputs = series(500, 8);
    let square = |x: i64| x.wrapping_mul(x);
    let mut plain = RunningSum::new();
    let mut by_closure = RunningSum::new().map(square);
    let mut by_projection = Mapped::new(RunningSum::new(), Triple);
    assert_eq!(by_closure.current(), None);
    for x in inputs {
        let value = plain.next(x);
        assert_eq!(by_closure.next(x), square(value));
        assert_eq!(by_closure.current(), Some(square(value)));
        assert_eq!(by_projection.next(x), value.wrapping_mul(3));
        assert_eq!(by_projection.current(), Some(value.wrapping_mul(3)));
    }
    by_closure.reset();
    assert_eq!(by_closure.current(), None);
    assert_eq!(by_closure.next(7), 49);
}

#[test]
fn closures_and_functions_are_projections() {
    fn negate(x: i64) -> i64 {
        -x
    }
    assert_eq!(negate.project(4), -4);
    assert_eq!((|x: i64| x + 1).project(4), 5);
    assert_eq!(Triple.project(4), 12);
}

#[test]
fn composition_feeds_inner_into_outer() {
    let add_one = |x: i64| x + 1;
    let double = |x: i64| x * 2;
    let mut composed = Composition::new(Identity::new().map(add_one), Identity::new().map(double));
    assert_eq!(composed.current(), None);
    assert_eq!(composed.next(5), 12);
    assert_eq!(composed.current(), Some(12));
    let (inner, outer) = composed.decompose();
    assert_eq!(inner.current(), Some(6));
    assert_eq!(outer.current(), Some(12));

    let mut other_way = Composition::new(Identity::new().map(double), Identity::new().map(add_one));
    assert_eq!(other_way.next(5), 11);
    other_way.reset();
    assert_eq!(other_way.current(), None);
    assert_eq!(other_way.inner.current(), None);
}

#[test]
fn window_over_the_history() {
    let inputs = series(60, 9);
    for size in 0usize..6 {
        let mut window = Window::new(RunningSum::new(), size);
        let mut alone = RunningSum::new();
        let mut history = Vec::new();
        for x in inputs.iter() {
            history.push(alone.next(*x));
            let expected: Vec<i64> = (0..size)
                .map(|slot| {
                    if history.len() + slot < size {
                        history[0]
                    } else {
                        history[history.len() + slot - size]
                    }
                })
                .collect();
            assert_eq!(window.next(*x).to_vec(), expected);
            assert_eq!(window.current().map(|w| w.to_vec()), Some(expected));
        }
    }
}

#[test]
fn window_slides_one_place_per_advance() {
    let mut window = Window::new(Identity::new(), 4);
    assert_eq!(&*window.next(1), &[1, 1, 1, 1][..]);
    assert_eq!(&*window.next(2), &[1, 1, 1, 2][..]);
    assert_eq!(&*window.next(3), &[1, 1, 2, 3][..]);
    assert_eq!(&*window.next(4), &[1, 2, 3, 4][..]);
    assert_eq!(&*window.next(5), &[2, 3, 4, 5][..]);
    assert_eq!(window.window_size, 4);
    window.reset();
    assert_eq!(window.window, None);
    assert_eq!(&*window.next(9), &[9, 9, 9, 9][..]);
}

#[test]
fn constant_ignores_its_input() {
    let mut constant = Constant::from(7);
    assert_eq!(constant.current(), Some(7));
    assert_eq!(constant.next("anything"), 7);
    assert_eq!(constant.next(()), 7);
    assert_eq!(constant.current(), Some(7));
    constant.reset();
    assert_eq!(constant.current(), Some(7));
    assert_eq!(constant.next(1.5), 7);
}

#[test]
fn identity_remembers_its_last_input() {
    let mut identity = Identity::new();
    assert_eq!(identity.current(), None);
    assert_eq!(identity.next(3), 3);
    assert_eq!(identity.next(-4), -4);
    assert_eq!(identity.current(), Some(-4));
    identity.reset();
    assert_eq!(identity.current(), None);
}

#[test]
fn iterator_gives_one_output_per_input() {
    let inputs = series(100, 10);
    let mut alone = RunningSum::new();
    let mut iterator = IndicatorIterator::new(RunningSum::new(), inputs.iter().copied());
    for x in inputs.iter() {
        assert_eq!(iterator.next(), Some(alone.next(*x)));
    }
    assert_eq!(iterator.next(), None);
    assert_eq!(iterator.decompose(), alone);
}

#[test]
fn iterator_over_no_inputs() {
    let mut iterator = RunningSum::new().iter_over(std::iter::empty::<i64>());
    assert_eq!(iterator.next(), None);
    assert_eq!(iterator.decompose(), RunningSum::new());
}
