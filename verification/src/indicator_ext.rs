use vstd::prelude::*;
use crate::indicator_iterator::IndicatorIterator;
use crate::operators::map::Projection;
use crate::operators::{Composition, Mapped, Mature, Together};
use crate::{Indicator, Next};

verus! {

/// Builders that every indicator has.
pub trait IndicatorExt: Indicator + Sized {
    /// Withhold the first `period` outputs of this indicator.
    fn mature(self, period: usize) -> (mature: Mature<Self>)
        requires
            period < usize::MAX,
        ensures
            mature == (Mature { i: self, period, cnt: (period + 1) as usize }),
            mature.inv() <==> self.inv(),
    {
        Mature::new(self, period)
    }

    /// Apply `f` to every output of this indicator.
    fn map<F>(self, f: F) -> (mapped: Mapped<Self, F>) where F: Projection<Self::Output>
        ensures
            mapped == (Mapped { i: self, f }),
            mapped.inv() <==> self.inv() && f.well_defined(),
    {
        Mapped::new(self, f)
    }

    /// Put `inner` in front of this indicator: `inner`'s outputs are this
    /// indicator's inputs.
    fn pushforward<N, Inner>(self, inner: Inner) -> (composition: Composition<Inner, Self>) where
        Self: Next<N>,
        Inner: Indicator<Output = N>,

        ensures
            composition == (Composition { inner, outer: self }),
            composition.inv() <==> inner.inv() && self.inv(),
    {
        Composition::new(inner, self)
    }

    /// Put `outer` behind this indicator: this indicator's outputs are
    /// `outer`'s inputs.
    fn pullback<Outer>(self, outer: Outer) -> (composition: Composition<Self, Outer>) where
        Outer: Indicator + Next<Self::Output>,

        ensures
            composition == (Composition { inner: self, outer }),
            composition.inv() <==> self.inv() && outer.inv(),
    {
        Composition::new(self, outer)
    }

    /// Run `companion` beside this indicator, on the same inputs.
    fn together<Companion>(self, companion: Companion) -> (together: Together<Self, Companion>) where
        Companion: Indicator,

        ensures
            together == (Together { lhs: self, rhs: companion }),
            together.inv() <==> self.inv() && companion.inv(),
    {
        Together::new(self, companion)
    }

    /// Feed this indicator from `input_iterator`.
    fn iter_over<InputIterator>(self, input_iterator: InputIterator) -> (iterator: IndicatorIterator<
        Self,
        InputIterator,
    >) where InputIterator: Iterator, Self: Next<InputIterator::Item>
        ensures
            iterator == (IndicatorIterator { inner: self, input_iterator }),
    {
        IndicatorIterator::new(self, input_iterator)
    }
}

impl<I> IndicatorExt for I where I: Indicator + Sized {
}

} // verus!
