//! The options of one run.
use vstd::prelude::*;

verus! {

/// What to run, where to put what it writes, and how.
#[derive(Debug)]
pub struct Pipe {
    /// The variable that receives the standard output.
    pub stdout: String,
    /// The variable that receives the standard error.
    pub stderr: String,
    /// The variable that receives the exit code, if one is wanted.
    pub exit_code: Option<String>,
    /// Whether the variables are exported or only set.
    pub export: bool,
    /// Whether output is captured only, or also shown on the terminal.
    pub capture: bool,
    /// Whether the standard output is captured only.
    pub capture_out: bool,
    /// Whether the standard error is captured only.
    pub capture_err: bool,
    /// Whether the command runs through a shell.
    pub sh: bool,
    /// The shell to run it with and whose syntax the statements use.
    pub shell: Option<String>,
    /// The command and its arguments.
    pub command: Vec<String>,
}

impl Pipe {
    /// Whether lines of the standard output are also shown on the terminal.
    pub fn echo_stdout(&self) -> (r: bool)
        ensures
            r == (!self.capture || !self.capture_out),
    {
        !self.capture || !self.capture_out
    }

    /// Whether lines of the standard error are also shown on the terminal.
    pub fn echo_stderr(&self) -> (r: bool)
        ensures
            r == (!self.capture || !self.capture_err),
    {
        !self.capture || !self.capture_err
    }
}

} // verus!
