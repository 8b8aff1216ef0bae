use vstd::prelude::*;
use vstd::std_specs::iter::IteratorSpec;
use crate::{Indicator, Next};

verus! {

/// An indicator fed from an iterator: each call of `next` draws one input and
/// answers with the output for it.
pub struct IndicatorIterator<Inner, InputIterator> where
    Inner: Indicator + Next<InputIterator::Item>,
    InputIterator: Iterator,
 {
    pub inner: Inner,
    pub input_iterator: InputIterator,
}

impl<Inner, InputIterator> IndicatorIterator<Inner, InputIterator> where
    Inner: Indicator + Next<InputIterator::Item>,
    InputIterator: Iterator,
 {
    pub fn new(inner: Inner, input_iterator: InputIterator) -> (iterator: Self)
        ensures
            iterator == (IndicatorIterator { inner, input_iterator }),
    {
        Self { inner, input_iterator }
    }

    pub fn decompose(self) -> (inner: Inner)
        ensures
            inner == self.inner,
    {
        self.inner
    }

    /// Draw the next input and advance with it; `None` when the inputs have
    /// ended.
    pub fn next(&mut self) -> (output: Option<Inner::Output>)
        requires
            old(self).inner.inv(),
        ensures
            final(self).inner.inv(),
            output is None ==> final(self).inner == old(self).inner,
            output is Some ==> exists|input: InputIterator::Item|
                (final(self).inner, output->0) == #[trigger] old(self).inner.next_spec(input),
            old(self).input_iterator.obeys_prophetic_iter_laws() ==> {
                let remaining = old(self).input_iterator.remaining();
                if remaining.len() > 0 {
                    &&& final(self).input_iterator.remaining() == remaining.drop_first()
                    &&& output is Some
                    &&& (final(self).inner, output->0) == old(self).inner.next_spec(remaining[0])
                } else {
                    output is None
                }
            },
    {
        let drawn = self.input_iterator.next();
        feed(&mut self.inner, drawn)
    }
}

/// The step of an indicator that is fed from a source of inputs, for what the
/// source gave: an input to advance with, or nothing when the inputs have
/// ended.
pub fn feed<Inner, Input>(inner: &mut Inner, drawn: Option<Input>) -> (output: Option<
    Inner::Output,
>) where Inner: Indicator + Next<Input>
    requires
        old(inner).inv(),
    ensures
        final(inner).inv(),
        match drawn {
            Some(input) => (*final(inner), output) == (
                old(inner).next_spec(input).0,
                Some(old(inner).next_spec(input).1),
            ),
            None => *final(inner) == *old(inner) && output is None,
        },
{
    if let Some(input) = drawn {
        Some(inner.next(input))
    } else {
        None
    }
}

} // verus!
