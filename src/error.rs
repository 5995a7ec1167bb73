//! The errors that the timers report.

use vstd::prelude::*;

verus! {

/// A value above the largest one its register accepts.
#[derive(Debug, Clone, Copy, PartialEq, Eq, Structural)]
pub struct OverValueError {
    /// The value that was asked for.
    pub value: u32,
    /// The largest value that is accepted.
    pub upper_bound: u32,
}

/// The recoverable errors of the timers.
#[derive(Debug, Clone, Copy, PartialEq, Eq, Structural)]
pub enum TimerError {
    /// A prescaler or compare value outside the range the hardware can hold.
    ConfigurationError(OverValueError),
    /// A duration whose tick count at the current frequency does not fit the
    /// counter's width.
    ConversionOverflow,
}

/// A poll that found the timer has not fired yet.
#[derive(Debug, Clone, Copy, PartialEq, Eq, Structural)]
pub struct WouldBlock;

} // verus!
