use vstd::prelude::*;
use vstd::string::StringExecFns;
use vstd::utf8::{decode_utf8, valid_utf8};

verus! {

/// What one run of a command left behind.
#[derive(Clone)]
pub struct RunCmdOutput {
    pub cmd: String,
    pub stdout: String,
    pub stderr: String,
    pub exitcode: i32,
}

/// The mathematical value of a `RunCmdOutput`.
pub struct OutputView {
    pub cmd: Seq<char>,
    pub stdout: Seq<char>,
    pub stderr: Seq<char>,
    pub exitcode: i32,
}

impl View for RunCmdOutput {
    type V = OutputView;

    open spec fn view(&self) -> OutputView {
        OutputView {
            cmd: self.cmd@,
            stdout: self.stdout@,
            stderr: self.stderr@,
            exitcode: self.exitcode,
        }
    }
}

/// A command line together with how it is to be run and its latest result.
pub struct RunCmd {
    retval: RunCmdOutput,
    verbose: bool,
    shell: bool,
}

/// The mathematical value of a `RunCmd`.
pub struct RunCmdView {
    /// The result of the latest run (empty output and code 0 before any run).
    pub last: OutputView,
    /// Print the command, its output and its exit code after each run.
    pub verbose: bool,
    /// Hand the command line to a shell instead of splitting it.
    pub shell: bool,
}

impl View for RunCmd {
    type V = RunCmdView;

    closed spec fn view(&self) -> RunCmdView {
        RunCmdView {
            last: self.retval@,
            verbose: self.verbose,
            shell: self.shell,
        }
    }
}

impl RunCmd {
    /// A runner for `cmd`, with every option off and an empty result.
    pub fn new(cmd: &str) -> (r: RunCmd)
        ensures
            r@ == (RunCmdView {
                last: OutputView { cmd: cmd@, stdout: seq![], stderr: seq![], exitcode: 0 },
                verbose: false,
                shell: false,
            }),
    {
        RunCmd {
            retval: RunCmdOutput {
                cmd: cmd.to_owned(),
                stdout: String::new(),
                stderr: String::new(),
                exitcode: 0,
            },
            verbose: false,
            shell: false,
        }
    }

    /// Print the command, its output and its exit code after each run; output
    /// is then always captured.
    pub fn verbose(&mut self) -> (r: &mut RunCmd)
        ensures
            r@ == (RunCmdView { verbose: true, ..old(self)@ }),
            *final(self) == *final(r),
    {
        self.verbose = true;
        self
    }

    /// Hand the command line to a shell, which parses quoting, pipes and
    /// redirections.
    pub fn shell(&mut self) -> (r: &mut RunCmd)
        ensures
            r@ == (RunCmdView { shell: true, ..old(self)@ }),
            *final(self) == *final(r),
    {
        self.shell = true;
        self
    }

    /// The command line, as it was given.
    pub fn cmd(&self) -> (r: &str)
        ensures
            r@ == self@.last.cmd,
    {
        self.retval.cmd.as_str()
    }

    /// Whether the verbose option is on.
    pub fn is_verbose(&self) -> (r: bool)
        ensures
            r == self@.verbose,
    {
        self.verbose
    }

    /// Whether the shell option is on.
    pub fn is_shell(&self) -> (r: bool)
        ensures
            r == self@.shell,
    {
        self.shell
    }

    /// A copy of the result of the latest run.
    pub fn last_result(&self) -> (r: RunCmdOutput)
        ensures
            r@ == self@.last,
    {
        RunCmdOutput {
            cmd: self.retval.cmd.clone(),
            stdout: self.retval.stdout.clone(),
            stderr: self.retval.stderr.clone(),
            exitcode: self.retval.exitcode,
        }
    }

    /// How the process is to be started for the run that returns its result:
    /// its output is always captured, since the result holds it.
    pub fn spawn_plan(&self) -> (r: SpawnPlan)
        ensures
            r == (SpawnPlan { shell: self@.shell, capture: true }),
    {
        SpawnPlan { shell: self.shell, capture: true }
    }

    /// How the process is to be started for the action that fails on a
    /// non-zero exit: its output passes through to the caller's own streams,
    /// unless verbose mode needs it captured for the report.
    pub fn fatal_plan(&self) -> (r: SpawnPlan)
        ensures
            r == (SpawnPlan { shell: self@.shell, capture: self@.verbose }),
    {
        SpawnPlan { shell: self.shell, capture: self.verbose }
    }

    /// Records a finished run from its exit code (`None` when the process
    /// ended without one) and its output already read as text.
    pub fn record(&mut self, code: Option<i32>, stdout: String, stderr: String) -> (r:
        RunCmdOutput)
        ensures
            final(self)@ == after_run(old(self)@, code, stdout@, stderr@),
            r@ == final(self)@.last,
    {
        match code {
            Some(c) => {
                self.retval.exitcode = c;
                self.retval.stdout = stdout;
                self.retval.stderr = stderr;
            },
            None => {
                self.retval.exitcode = -1;
                self.retval.stderr = String::from_str(INTERRUPTED);
            },
        }
        self.last_result()
    }

    /// Records a finished run from its exit code and the bytes it wrote. When
    /// there is an exit code, both streams must be valid UTF-8; otherwise the
    /// runner is left as it was and the stream at fault is named.
    pub fn record_output(&mut self, code: Option<i32>, stdout: Vec<u8>, stderr: Vec<u8>) -> (r:
        Result<RunCmdOutput, RunCmdError>)
        ensures
            match output_error(code, stdout@, stderr@) {
                Some(e) => r == Err::<RunCmdOutput, RunCmdError>(e) && final(self)@ == old(self)@,
                None => r is Ok && final(self)@ == after_output(old(self)@, code, stdout@, stderr@)
                    && r->Ok_0@ == final(self)@.last,
            },
    {
        if code.is_none() {
            return Ok(self.record(code, String::new(), String::new()));
        }
        let out = match decode_text(stdout) {
            Some(t) => t,
            None => return Err(RunCmdError::InvalidStdout),
        };
        let err = match decode_text(stderr) {
            Some(t) => t,
            None => return Err(RunCmdError::InvalidStderr),
        };
        Ok(self.record(code, out, err))
    }

    /// Records a run made for the action that fails on a non-zero exit, and
    /// says whether it failed.
    pub fn executep(&mut self, code: Option<i32>, stdout: Vec<u8>, stderr: Vec<u8>) -> (r: Result<
        (),
        RunCmdError,
    >)
        ensures
            r == executep_verdict(old(self)@, code, stdout@, stderr@),
            final(self)@ == (if output_error(code, stdout@, stderr@) is None {
                after_output(old(self)@, code, stdout@, stderr@)
            } else {
                old(self)@
            }),
    {
        let out = self.record_output(code, stdout, stderr)?;
        if out.exitcode != 0 {
            Err(RunCmdError::NonZeroExit(out.exitcode))
        } else {
            Ok(())
        }
    }

    /// The block that verbose mode prints: the command, both streams and the
    /// exit code of the latest run.
    pub fn report(&self) -> (r: String)
        ensures
            r@ == report_text(self@.last),
    {
        let mut r = String::from_str("cmd:\n '");
        r.append(self.retval.cmd.as_str());
        r.append("'\n\nstdout:\n '");
        r.append(self.retval.stdout.as_str());
        r.append("'\n\nstderr:\n '");
        r.append(self.retval.stderr.as_str());
        r.append("'\n\nexitcode: '");
        let code = decimal_text(self.retval.exitcode);
        r.append(code.as_str());
        r.append("'\n\n\n");
        r
    }

    /// The block to print after a run: present exactly in verbose mode.
    pub fn verbose_report(&self) -> (r: Option<String>)
        ensures
            r is Some <==> self@.verbose,
            r is Some ==> r->0@ == report_text(self@.last),
    {
        if self.verbose {
            Some(self.report())
        } else {
            None
        }
    }
}

/// How a process is to be started.
#[derive(Clone, Copy, Debug, PartialEq, Eq, Structural)]
pub struct SpawnPlan {
    /// Through a shell, rather than by splitting the command line into a
    /// program and its arguments.
    pub shell: bool,
    /// With standard output and standard error read into memory, rather than
    /// passed through to the caller's own streams.
    pub capture: bool,
}

/// Why a run did not give a usable, successful result.
#[derive(Clone, Copy, Debug, PartialEq, Eq, Structural)]
pub enum RunCmdError {
    /// Standard output was not valid UTF-8.
    InvalidStdout,
    /// Standard error was not valid UTF-8.
    InvalidStderr,
    /// The process exited with this non-zero code (-1: no code at all).
    NonZeroExit(i32),
}

/// What standard error holds after a process ended without an exit code.
pub const INTERRUPTED: &'static str = "Interrupted! in RunCmd";

/// The runner after a run that ended with `code` and wrote the given text.
/// Without a code the result reads -1, standard error says so, and standard
/// output keeps what it held.
pub open spec fn after_run(s: RunCmdView, code: Option<i32>, stdout: Seq<char>, stderr: Seq<char>) -> RunCmdView {
    RunCmdView {
        last: match code {
            Some(c) => OutputView { cmd: s.last.cmd, stdout, stderr, exitcode: c },
            None => OutputView {
                cmd: s.last.cmd,
                stdout: s.last.stdout,
                stderr: INTERRUPTED@,
                exitcode: -1i32,
            },
        },
        ..s
    }
}

/// Why the bytes of a run cannot be read as text, if they cannot: they are
/// read only when there is an exit code, standard output first.
pub open spec fn output_error(code: Option<i32>, stdout: Seq<u8>, stderr: Seq<u8>) -> Option<RunCmdError> {
    if code is None {
        None
    } else if !valid_utf8(stdout) {
        Some(RunCmdError::InvalidStdout)
    } else if !valid_utf8(stderr) {
        Some(RunCmdError::InvalidStderr)
    } else {
        None
    }
}

/// The runner after a run that ended with `code` and wrote the given bytes.
pub open spec fn after_output(s: RunCmdView, code: Option<i32>, stdout: Seq<u8>, stderr: Seq<u8>) -> RunCmdView {
    after_run(s, code, decode_utf8(stdout), decode_utf8(stderr))
}

/// The outcome of the fatal action for such a run.
pub open spec fn executep_verdict(s: RunCmdView, code: Option<i32>, stdout: Seq<u8>, stderr: Seq<u8>) -> Result<(), RunCmdError> {
    match output_error(code, stdout, stderr) {
        Some(e) => Err(e),
        None => {
            let c = after_output(s, code, stdout, stderr).last.exitcode;
            if c == 0 {
                Ok(())
            } else {
                Err(RunCmdError::NonZeroExit(c))
            }
        },
    }
}

/// The character of a decimal digit.
pub open spec fn digit_char(d: nat) -> char {
    seq!['0', '1', '2', '3', '4', '5', '6', '7', '8', '9'][d as int]
}

/// The decimal digits of `n`, with no leading zero.
pub open spec fn digits(n: nat) -> Seq<char>
    decreases n,
{
    if n < 10 {
        seq![digit_char(n)]
    } else {
        digits(n / 10).push(digit_char(n % 10))
    }
}

/// `n` written in decimal, with a leading '-' when negative.
pub open spec fn decimal(n: int) -> Seq<char> {
    if n < 0 {
        seq!['-'] + digits((-n) as nat)
    } else {
        digits(n as nat)
    }
}

/// The verbose block for a result.
pub open spec fn report_text(o: OutputView) -> Seq<char> {
    "cmd:\n '"@ + o.cmd + "'\n\nstdout:\n '"@ + o.stdout + "'\n\nstderr:\n '"@ + o.stderr
        + "'\n\nexitcode: '"@ + decimal(o.exitcode as int) + "'\n\n\n"@
}

/// Relies on `String::from_utf8`: it succeeds exactly on valid UTF-8 and then
/// holds the characters that the bytes encode.
#[verifier::external_body]
fn decode_text(b: Vec<u8>) -> (r: Option<String>)
    ensures
        r is Some <==> valid_utf8(b@),
        r is Some ==> r->0@ == decode_utf8(b@),
{
    String::from_utf8(b).ok()
}

/// The one-character string of a decimal digit.
fn digit_str(d: u64) -> (r: &'static str)
    requires
        d < 10,
    ensures
        r@ == seq![digit_char(d as nat)],
{
    proof {
        reveal_strlit("0");
        reveal_strlit("1");
        reveal_strlit("2");
        reveal_strlit("3");
        reveal_strlit("4");
        reveal_strlit("5");
        reveal_strlit("6");
        reveal_strlit("7");
        reveal_strlit("8");
        reveal_strlit("9");
    }
    if d == 0 {
        "0"
    } else if d == 1 {
        "1"
    } else if d == 2 {
        "2"
    } else if d == 3 {
        "3"
    } else if d == 4 {
        "4"
    } else if d == 5 {
        "5"
    } else if d == 6 {
        "6"
    } else if d == 7 {
        "7"
    } else if d == 8 {
        "8"
    } else {
        "9"
    }
}

/// Appends the decimal digits of `n` to `s`.
fn push_digits(s: &mut String, n: u64)
    ensures
        final(s)@ == old(s)@ + digits(n as nat),
    decreases n,
{
    if n >= 10 {
        push_digits(s, n / 10);
    }
    s.append(digit_str(n % 10));
    proof {
        if n >= 10 {
            assert(digits(n as nat) == digits((n / 10) as nat).push(digit_char((n % 10) as nat)));
            assert(s@ =~= old(s)@ + digits(n as nat));
        } else {
            assert(s@ =~= old(s)@ + digits(n as nat));
        }
    }
}

/// `n` in decimal, as `i32`'s `Display` writes it.
fn decimal_text(n: i32) -> (r: String)
    ensures
        r@ == decimal(n as int),
{
    let mut r = String::new();
    if n < 0 {
        proof {
            reveal_strlit("-");
        }
        r.append("-");
        let m: i64 = -(n as i64);
        push_digits(&mut r, m as u64);
        assert(r@ =~= seq!['-'] + digits((-n) as nat));
    } else {
        push_digits(&mut r, n as u64);
        assert(r@ =~= digits(n as nat));
    }
    r
}

} // verus!
