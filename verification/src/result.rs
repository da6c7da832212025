use vstd::prelude::*;

verus! {

/// The single failure kind of the timer domain. No operation of the
/// finished state machine actually produces it during ticking; it is
/// reported when an invalid configuration is rejected at construction.
#[derive(Debug, Copy, Clone, PartialEq, Eq, Structural)]
pub enum TimerStateError {
    InvalidState,
}

pub type TimerResult<T> = Result<T, TimerStateError>;

} // verus!
