//! A pomodoro interval timer: a verified state machine that converts
//! elapsed-time increments into phase transitions, remaining-time
//! bookkeeping and completed-cycle counting, together with a
//! play/pause/stop controller that gates whether ticks are applied.

pub mod args;
pub mod config;
pub mod mode;
pub mod result;
pub mod resumable;
pub mod state;
pub mod timer;
