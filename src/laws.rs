use vstd::prelude::*;
use vstd::utf8::valid_utf8;
use crate::runner::{
    after_output, after_run, executep_verdict, output_error, RunCmdError, RunCmdView,
};

verus! {

/// A run that exits with 0 and writes text is recorded with code 0, and the
/// fatal action accepts it.
pub proof fn lemma_zero_exit_succeeds(s: RunCmdView, stdout: Seq<u8>, stderr: Seq<u8>)
    requires
        valid_utf8(stdout),
        valid_utf8(stderr),
    ensures
        output_error(Some(0i32), stdout, stderr) is None,
        after_output(s, Some(0i32), stdout, stderr).last.exitcode == 0,
        executep_verdict(s, Some(0i32), stdout, stderr) == Ok::<(), RunCmdError>(()),
{
}

/// A run that exits with a code `n` from 1 to 255 and writes text is recorded
/// with code `n`, and the fatal action rejects it with that code.
pub proof fn lemma_nonzero_exit_fails(s: RunCmdView, n: i32, stdout: Seq<u8>, stderr: Seq<u8>)
    requires
        0 < n <= 255,
        valid_utf8(stdout),
        valid_utf8(stderr),
    ensures
        output_error(Some(n), stdout, stderr) is None,
        after_output(s, Some(n), stdout, stderr).last.exitcode == n,
        executep_verdict(s, Some(n), stdout, stderr) == Err::<(), RunCmdError>(
            RunCmdError::NonZeroExit(n),
        ),
{
}

/// Recording a run, whatever its outcome, never changes the command line, nor
/// the options.
pub proof fn lemma_command_kept(s: RunCmdView, code: Option<i32>, stdout: Seq<u8>, stderr: Seq<u8>)
    ensures
        after_output(s, code, stdout, stderr).last.cmd == s.last.cmd,
        after_output(s, code, stdout, stderr).verbose == s.verbose,
        after_output(s, code, stdout, stderr).shell == s.shell,
{
}

/// Of two runs recorded in turn, the second decides the result: nothing of
/// the first is kept, except the standard output that a run without an exit
/// code leaves in place.
pub proof fn lemma_latest_run_wins(
    s: RunCmdView,
    code1: Option<i32>,
    stdout1: Seq<char>,
    stderr1: Seq<char>,
    code2: Option<i32>,
    stdout2: Seq<char>,
    stderr2: Seq<char>,
)
    ensures
        code2 is Some ==> after_run(after_run(s, code1, stdout1, stderr1), code2, stdout2, stderr2)
            == after_run(s, code2, stdout2, stderr2),
        after_run(after_run(s, code1, stdout1, stderr1), code2, stdout2, stderr2).last.exitcode
            == after_run(s, code2, stdout2, stderr2).last.exitcode,
        after_run(after_run(s, code1, stdout1, stderr1), code2, stdout2, stderr2).last.stderr
            == after_run(s, code2, stdout2, stderr2).last.stderr,
{
}

} // verus!
