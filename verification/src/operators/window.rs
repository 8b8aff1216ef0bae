use vstd::prelude::*;
use crate::trace::{outputs, state_after};
use crate::{keeps_output, Current, Indicator, Next, Reset};

verus! {

/// An indicator that outputs the last `window_size` outputs of the indicator
/// it wraps, oldest first.
///
/// `window` is what the last advance returned, and is absent until the first
/// advance. Until `window_size` outputs have been seen, the earliest output
/// fills the leading slots.
pub struct Window<Inner: Indicator> where Inner::Output: Copy {
    pub inner: Inner,
    pub window_size: usize,
    pub window: Option<Box<[Inner::Output]>>,
}

/// The window of `size` slots over a history of values: the last `size`
/// values, oldest first, with the earliest value repeated in the leading
/// slots as long as the history is shorter than the window.
pub open spec fn window_over<T>(history: Seq<T>, size: nat) -> Seq<T>
    recommends
        history.len() > 0,
{
    Seq::new(
        size,
        |slot: int|
            if history.len() - size + slot < 0 {
                history[0]
            } else {
                history[history.len() - size + slot]
            },
    )
}

/// The window that follows `window` when `value` arrives. The first value
/// fills every slot; a later one enters at the end while the oldest leaves.
pub open spec fn next_window<T>(window: Option<Seq<T>>, size: nat, value: T) -> Seq<T> {
    match window {
        None => Seq::new(size, |slot: int| value),
        Some(w) => if w.len() == 0 {
            w
        } else {
            w.drop_first().push(value)
        },
    }
}

/// The boxed slice that holds exactly `items`.
pub open spec fn boxed<T>(items: Seq<T>) -> Box<[T]> {
    choose|slice: Box<[T]>| slice@ == items
}

/// A boxed slice is determined by what it holds.
pub proof fn lemma_boxed<T>(slice: Box<[T]>)
    ensures
        boxed(slice@) == slice,
{
    broadcast use vstd::slice::group_slice_axioms;

    assert(boxed(slice@) =~= slice);
}

/// `Vec::into_boxed_slice`: the boxed slice holds the items of the vector,
/// in the same order.
#[verifier::external_body]
fn into_boxed_slice<T>(items: Vec<T>) -> (slice: Box<[T]>)
    ensures
        slice@ == items@,
{
    items.into_boxed_slice()
}

/// A copy of `slice`.
fn copy_of<T: Copy>(slice: &Box<[T]>) -> (copy: Box<[T]>)
    ensures
        copy == *slice,
{
    let mut items: Vec<T> = Vec::new();
    let mut at: usize = 0;
    while at < slice.len()
        invariant
            at <= slice@.len(),
            items@ == slice@.take(at as int),
        decreases slice@.len() - at,
    {
        items.push(slice[at]);
        at += 1;
    }
    assert(items@ == slice@);
    let copy = into_boxed_slice(items);
    proof {
        lemma_boxed(copy);
        lemma_boxed(*slice);
    }
    copy
}

impl<Inner: Indicator> Window<Inner> where Inner::Output: Copy {
    pub fn new(inner: Inner, window_size: usize) -> (window: Self)
        ensures
            window == (Window { inner, window_size, window: None }),
            window.inv() <==> inner.inv(),
    {
        Self { inner, window_size, window: None }
    }

    /// Take out the inner indicator that composes this indicator.
    pub fn decompose(self) -> (inner: Inner)
        ensures
            inner == self.inner,
    {
        self.inner
    }

    /// What the window holds, if there is one.
    pub open spec fn contents(&self) -> Option<Seq<Inner::Output>> {
        match self.window {
            Some(w) => Some(w@),
            None => None,
        }
    }

    /// The window is absent or has `window_size` slots.
    pub open spec fn window_fits(&self) -> bool {
        self.window matches Some(w) ==> w@.len() == self.window_size
    }

    /// Let `value` into the window.
    fn update_window(&mut self, value: Inner::Output)
        requires
            old(self).window_fits(),
        ensures
            final(self).inner == old(self).inner,
            final(self).window_size == old(self).window_size,
            final(self).window == Some(
                boxed(next_window(old(self).contents(), old(self).window_size as nat, value)),
            ),
            final(self).contents() == Some(
                next_window(old(self).contents(), old(self).window_size as nat, value),
            ),
            final(self).window_fits(),
    {
        let size = self.window_size;
        let ghost target = next_window(self.contents(), size as nat, value);
        let mut items: Vec<Inner::Output> = Vec::new();
        match &self.window {
            None => {
                let mut at: usize = 0;
                while at < size
                    invariant
                        at <= size,
                        target == Seq::new(size as nat, |slot: int| value),
                        items@ == target.take(at as int),
                    decreases size - at,
                {
                    items.push(value);
                    at += 1;
                }
            },
            Some(w) => {
                if size > 0 {
                    let mut at: usize = 1;
                    while at < size
                        invariant
                            1 <= at <= size,
                            w@.len() == size,
                            target == w@.drop_first().push(value),
                            items@ == target.take(at - 1),
                        decreases size - at,
                    {
                        items.push(w[at]);
                        at += 1;
                    }
                    items.push(value);
                }
            },
        }
        assert(items@ == target);
        let slice = into_boxed_slice(items);
        proof {
            lemma_boxed(slice);
        }
        self.window = Some(slice);
    }

    /// A copy of the window.
    fn window(&self) -> (window: Box<[Inner::Output]>)
        requires
            self.window is Some,
        ensures
            Some(window) == self.window,
    {
        copy_of(self.window.as_ref().unwrap())
    }
}

impl<Inner: Indicator> Indicator for Window<Inner> where Inner::Output: Copy {
    type Output = Box<[Inner::Output]>;

    open spec fn inv(&self) -> bool {
        self.inner.inv() && self.window_fits()
    }

    open spec fn initial(self) -> Self {
        Window { inner: self.inner.initial(), window_size: self.window_size, window: None }
    }

    proof fn lemma_initial(self) {
        self.inner.lemma_initial();
    }
}

impl<Inner: Indicator, N> Next<N> for Window<Inner> where Inner: Next<N>, Inner::Output: Copy {
    open spec fn next_spec(self, input: N) -> (Self, Box<[Inner::Output]>) {
        let (inner, value) = self.inner.next_spec(input);
        let window = boxed(next_window(self.contents(), self.window_size as nat, value));
        (Window { inner, window_size: self.window_size, window: Some(window) }, window)
    }

    proof fn lemma_next_keeps_initial(self, input: N) {
        self.inner.lemma_next_keeps_initial(input);
    }

    fn next(&mut self, input: N) -> (output: Box<[Inner::Output]>)
        ensures
            output@ == next_window(
                old(self).contents(),
                old(self).window_size as nat,
                old(self).inner.next_spec(input).1,
            ),
    {
        let value = self.inner.next(input);
        self.update_window(value);
        self.window()
    }
}

impl<Inner: Indicator> Current for Window<Inner> where Inner: Current, Inner::Output: Copy {
    open spec fn current_spec(&self) -> Option<Box<[Inner::Output]>> {
        self.window
    }

    fn current(&self) -> (value: Option<Box<[Inner::Output]>>) {
        if self.window.is_none() {
            None
        } else {
            Some(self.window())
        }
    }
}

impl<Inner: Indicator> Reset for Window<Inner> where Inner: Reset, Inner::Output: Copy {
    fn reset(&mut self) {
        self.inner.reset();
        self.window = None;
    }
}

/// `Window` keeps what it returned, and holds nothing when new or reset.
pub proof fn lemma_window_current<Inner, N>(window: Window<Inner>, input: N) where
    Inner: Next<N> + Current,
    Inner::Output: Copy,

    ensures
        keeps_output(window, input),
        window.initial().current_spec() is None,
{
}

/// Some boxed slice holds any given `size` values. (Whether a slice of that
/// length can exist is for the allocator to say.)
pub open spec fn slices_exist<T>(size: nat) -> bool {
    forall|items: Seq<T>| items.len() == size ==> (#[trigger] boxed(items))@ == items
}

/// The first value fills the window; each later value makes the window over
/// the history slide by one place.
pub proof fn lemma_window_slides<T>(history: Seq<T>, size: nat, value: T)
    ensures
        next_window(None, size, value) == window_over(seq![value], size),
        history.len() > 0 ==> next_window(Some(window_over(history, size)), size, value)
            == window_over(history.push(value), size),
{
    assert(next_window(None, size, value) =~= window_over(seq![value], size));
    if history.len() > 0 {
        let slid = next_window(Some(window_over(history, size)), size, value);
        let over = window_over(history.push(value), size);
        assert(slid.len() == over.len());
        assert forall|slot: int| 0 <= slot < size implies slid[slot] == over[slot] by {
            if slot < size - 1 {
                assert(slid[slot] == window_over(history, size)[slot + 1]);
            }
        }
        assert(slid =~= over);
    }
}

/// The window in terms of the whole history: after a run on at least one
/// input from a state without a window, the window is the window over the
/// outputs that the wrapped indicator gave on those inputs, and so is the
/// last output.
pub proof fn lemma_window_history<Inner: Next<N>, N>(window: Window<Inner>, inputs: Seq<N>) where
    Inner::Output: Copy,

    requires
        window.window is None,
        inputs.len() > 0,
        slices_exist::<Inner::Output>(window.window_size as nat),
    ensures
        state_after(window, inputs).inner == state_after(window.inner, inputs),
        state_after(window, inputs).window_size == window.window_size,
        state_after(window, inputs).contents() == Some(
            window_over(outputs(window.inner, inputs), window.window_size as nat),
        ),
        Some(outputs(window, inputs).last()) == state_after(window, inputs).window,
    decreases inputs.len(),
{
    let size = window.window_size as nat;
    let shorter = inputs.drop_last();
    let before = state_after(window, shorter);
    let (inner, value) = before.inner.next_spec(inputs.last());
    crate::trace::lemma_outputs_len(window.inner, shorter);
    if shorter.len() == 0 {
        lemma_window_slides(seq![value], size, value);
        assert(outputs(window.inner, inputs) =~= seq![value]);
    } else {
        lemma_window_history(window, shorter);
        lemma_window_slides(outputs(window.inner, shorter), size, value);
    }
}

} // verus!
