//! The rules on the parameters of the primitive indicators.
//!
//! A primitive indicator is built only from parameters that pass the rule
//! given here for it; the first rule that fails names the error.
use vstd::prelude::*;
use crate::error::{Error, InvalidBinaryRelationError, InvalidRangeError, Parameter, Range};

verus! {

/// The period of a relative strength index that is built by default.
pub const RSI_DEFAULT_PERIOD: usize = 14;

/// The period of an Aroon indicator or oscillator that is built by default.
pub const AROON_DEFAULT_PERIOD: usize = 14;

/// The periods of a moving average convergence/divergence that is built by
/// default.
pub const MACD_DEFAULT_SHORT_PERIOD: usize = 12;

pub const MACD_DEFAULT_LONG_PERIOD: usize = 26;

pub const MACD_DEFAULT_SIGNAL_PERIOD: usize = 9;

/// The periods of a stochastic oscillator that is built by default.
pub const STOCHASTICS_DEFAULT_N_PERIOD: usize = 14;

pub const STOCHASTICS_DEFAULT_M_PERIOD: usize = 3;

pub const STOCHASTICS_DEFAULT_X_PERIOD: usize = 3;

/// The error for a parameter `name` whose `value` is below `min`.
pub open spec fn below_minimum<F>(name: &'static str, value: usize, min: usize) -> Error<F> {
    Error::InvalidUintRange(
        InvalidRangeError { param: Parameter { name, value }, range: Range::LowerBounded { min } },
    )
}

/// The error for a pair of parameters of which the left is not below the
/// right.
pub open spec fn not_below<F>(
    lname: &'static str,
    lvalue: usize,
    rname: &'static str,
    rvalue: usize,
) -> Error<F> {
    Error::InvalidRelation(
        InvalidBinaryRelationError {
            operator: "<",
            lhs: Parameter { name: lname, value: lvalue },
            rhs: Parameter { name: rname, value: rvalue },
        },
    )
}

/// What `at_least` answers.
pub open spec fn at_least_spec<F>(name: &'static str, value: usize, min: usize) -> Result<
    (),
    Error<F>,
> {
    if value < min {
        Err(below_minimum(name, value, min))
    } else {
        Ok(())
    }
}

/// A parameter with a lower bound: accepted iff `min <= value`.
pub fn at_least<F>(name: &'static str, value: usize, min: usize) -> (checked: Result<(), Error<F>>)
    ensures
        checked == at_least_spec::<F>(name, value, min),
{
    if value < min {
        Err(Error::InvalidUintRange(InvalidRangeError::new(name, value, Range::LowerBounded { min })))
    } else {
        Ok(())
    }
}

/// Two parameters in order: accepted iff `lvalue < rvalue`.
pub fn less_than<F>(lname: &'static str, lvalue: usize, rname: &'static str, rvalue: usize) -> (checked:
    Result<(), Error<F>>)
    ensures
        checked == if lvalue < rvalue {
            Ok(())
        } else {
            Err(not_below::<F>(lname, lvalue, rname, rvalue))
        },
{
    if !(lvalue < rvalue) {
        Err(
            Error::InvalidRelation(
                InvalidBinaryRelationError {
                    operator: "<",
                    lhs: Parameter::new(lname, lvalue),
                    rhs: Parameter::new(rname, rvalue),
                },
            ),
        )
    } else {
        Ok(())
    }
}

/// The period of a moving average, of a moving extremum or its index, of a
/// standard deviation, or of a volume-weighted moving average: at least 1.
pub fn moving_period<F>(period: usize) -> (checked: Result<(), Error<F>>)
    ensures
        checked == at_least_spec::<F>("period", period, 1),
{
    at_least("period", period, 1)
}

/// The period of a running moving average, and so of a relative strength
/// index, which keeps two of them: at least 2.
pub fn running_period<F>(period: usize) -> (checked: Result<(), Error<F>>)
    ensures
        checked == at_least_spec::<F>("period", period, 2),
{
    at_least("period", period, 2)
}

/// The period of an Aroon indicator: at least 1. The answer is the number of
/// values that its moving extrema look back on, one more than the period.
pub fn aroon_period<F>(period: usize) -> (checked: Result<usize, Error<F>>)
    requires
        period < usize::MAX,
    ensures
        checked == if period < 1 {
            Err(below_minimum::<F>("period", period, 1))
        } else {
            Ok((period + 1) as usize)
        },
{
    match at_least("period", period, 1) {
        Err(error) => Err(error),
        Ok(()) => Ok(period + 1),
    }
}

/// What `macd_periods` answers.
pub open spec fn macd_periods_spec<F>(short_period: usize, long_period: usize, signal_period: usize)
    -> Result<(), Error<F>> {
    if !(short_period < long_period) {
        Err(not_below("short_period", short_period, "long_period", long_period))
    } else if short_period < 1 {
        Err(below_minimum("period", short_period, 1))
    } else if signal_period < 1 {
        Err(below_minimum("period", signal_period, 1))
    } else {
        Ok(())
    }
}

/// The periods of a moving average convergence/divergence: the short period
/// is below the long one, and the short, the long and the signal period are
/// each the period of a moving average. The first failure is reported.
pub fn macd_periods<F>(short_period: usize, long_period: usize, signal_period: usize) -> (checked:
    Result<(), Error<F>>)
    ensures
        checked == macd_periods_spec::<F>(short_period, long_period, signal_period),
{
    match less_than("short_period", short_period, "long_period", long_period) {
        Err(error) => Err(error),
        Ok(()) => match moving_period(short_period) {
            Err(error) => Err(error),
            Ok(()) => match moving_period(long_period) {
                Err(error) => Err(error),
                Ok(()) => moving_period(signal_period),
            },
        },
    }
}

/// What `stochastics_periods` answers.
pub open spec fn stochastics_periods_spec<F>(n_period: usize, m_period: usize, x_period: usize)
    -> Result<(), Error<F>> {
    if n_period < 1 {
        Err(below_minimum("period", n_period, 1))
    } else if m_period < 1 {
        Err(below_minimum("period", m_period, 1))
    } else if x_period < 1 {
        Err(below_minimum("period", x_period, 1))
    } else {
        Ok(())
    }
}

/// The periods of a stochastic oscillator: `n_period` is the period of its
/// moving extrema, `m_period` and `x_period` are periods of moving averages.
/// The first failure is reported.
pub fn stochastics_periods<F>(n_period: usize, m_period: usize, x_period: usize) -> (checked:
    Result<(), Error<F>>)
    ensures
        checked == stochastics_periods_spec::<F>(n_period, m_period, x_period),
{
    match moving_period(n_period) {
        Err(error) => Err(error),
        Ok(()) => match moving_period(m_period) {
            Err(error) => Err(error),
            Ok(()) => moving_period(x_period),
        },
    }
}

/// The default parameters pass their rules, so an indicator can be built from
/// them.
pub proof fn lemma_defaults_are_valid<F>()
    ensures
        at_least_spec::<F>("period", RSI_DEFAULT_PERIOD, 2) is Ok,
        at_least_spec::<F>("period", AROON_DEFAULT_PERIOD, 1) is Ok,
        at_least_spec::<F>("period", (AROON_DEFAULT_PERIOD + 1) as usize, 1) is Ok,
        macd_periods_spec::<F>(
            MACD_DEFAULT_SHORT_PERIOD,
            MACD_DEFAULT_LONG_PERIOD,
            MACD_DEFAULT_SIGNAL_PERIOD,
        ) is Ok,
        stochastics_periods_spec::<F>(
            STOCHASTICS_DEFAULT_N_PERIOD,
            STOCHASTICS_DEFAULT_M_PERIOD,
            STOCHASTICS_DEFAULT_X_PERIOD,
        ) is Ok,
{
}

} // verus!
