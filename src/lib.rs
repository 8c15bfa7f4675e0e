//! Runs a command line and keeps what it produced: the decisions around one
//! process run (how to spawn it, whether to capture its output, how its exit
//! status and output become a result, and when that result is fatal), with
//! the spawning itself left to the caller.

mod laws;
mod runner;

pub use runner::{
    after_output, after_run, decimal, digit_char, digits, executep_verdict, output_error,
    report_text, OutputView, RunCmd, RunCmdError, RunCmdOutput, RunCmdView, SpawnPlan, INTERRUPTED,
};
pub use laws::{
    lemma_command_kept, lemma_latest_run_wins, lemma_nonzero_exit_fails, lemma_zero_exit_succeeds,
};
