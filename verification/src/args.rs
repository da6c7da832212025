use vstd::prelude::*;

verus! {

/// The command-line options of a session, as plain values. The
/// surrounding binary owns the actual argument parsing and hands the
/// parsed values over in this form; `PomoConfig` is derived from it.
#[derive(Debug)]
pub struct PomodoroArgs {
    /// Duration of a work period in minutes.
    pub duration: u8,
    /// Duration of a short break in minutes.
    pub break_duration: u8,
    /// Duration of a long break in minutes.
    pub long_break_duration: u8,
    /// Number of work periods to complete.
    pub cycles: u8,
    /// Optional name for the current work period.
    pub name: Option<String>,
    /// Whether to render the detailed visual display.
    pub visual: bool,
}

} // verus!
