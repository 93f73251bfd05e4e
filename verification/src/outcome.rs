//! The value a command execution produces: both output streams, the exit
//! status, and best-effort completeness flags for the two reads.

use vstd::prelude::*;

use crate::errors::ExecError;

verus! {

/// The text placed between the two streams when [`CommandResult::combined`]
/// joins a non-empty stderr buffer onto stdout.
pub open spec fn stderr_separator_view() -> Seq<char> {
    "\n--- STDERR ---\n"@
}

/// The separator line as a string slice, for callers that assemble or split
/// combined output themselves.
pub fn stderr_separator() -> (r: &'static str)
    ensures
        r@ == stderr_separator_view(),
{
    "\n--- STDERR ---\n"
}

/// What one remote command produced.
///
/// The two streams are kept separate so that callers can tell them apart
/// programmatically; [`CommandResult::combined`] renders the historical
/// joined form.  The reads that fill the buffers are best-effort: when a
/// read fails mid-way the partial buffer is kept and the matching
/// `*_complete` flag is cleared, so a soft failure is never silently
/// discarded.
#[derive(Clone, Debug, PartialEq)]
pub struct CommandResult {
    /// Everything the command wrote to its standard output.
    pub stdout: String,
    /// Everything the command wrote to its standard error.
    pub stderr: String,
    /// The numeric exit status reported by the remote side.
    pub exit_code: i32,
    /// Whether the command exited with status zero.
    pub succeeded: bool,
    /// Whether the standard-output stream was drained without a read error.
    pub stdout_complete: bool,
    /// Whether the standard-error stream was drained without a read error.
    pub stderr_complete: bool,
}

impl CommandResult {
    /// A result is well formed exactly when `succeeded` mirrors a zero exit
    /// status.
    pub open spec fn wf(&self) -> bool {
        self.succeeded <==> self.exit_code == 0
    }

    /// The two streams joined as one text: stdout alone when stderr is
    /// empty, otherwise stdout, the separator line, and stderr.
    pub open spec fn combined_view(&self) -> Seq<char> {
        if self.stderr@.len() == 0 {
            self.stdout@
        } else {
            self.stdout@ + stderr_separator_view() + self.stderr@
        }
    }

    /// Render the combined output text.
    pub fn combined(&self) -> (r: String)
        ensures
            r@ == self.combined_view(),
    {
        if self.stderr.as_str().is_empty() {
            self.stdout.clone()
        } else {
            let mut out = self.stdout.clone();
            out.append(stderr_separator());
            out.append(self.stderr.as_str());
            out
        }
    }
}

/// Turn the drained streams and the retrieved exit status into the caller's
/// view of the execution: a successful result for status zero, and an error
/// that carries the command line, the exact status and both buffers for any
/// other status, so that "command ran but failed" stays distinct from
/// "could not run command at all".
pub fn assemble_result(
    command: &str,
    stdout: String,
    stdout_complete: bool,
    stderr: String,
    stderr_complete: bool,
    exit_code: i32,
) -> (r: Result<CommandResult, ExecError>)
    ensures
        exit_code == 0 ==> r == Ok::<CommandResult, ExecError>(
            (CommandResult {
                stdout: stdout,
                stderr: stderr,
                exit_code: 0,
                succeeded: true,
                stdout_complete: stdout_complete,
                stderr_complete: stderr_complete,
            }),
        ),
        exit_code != 0 ==> (r matches Err(ExecError::CommandNonZeroExit {
            command: c,
            result: res,
        }) && c@ == command@ && res == (CommandResult {
            stdout: stdout,
            stderr: stderr,
            exit_code: exit_code,
            succeeded: false,
            stdout_complete: stdout_complete,
            stderr_complete: stderr_complete,
        })),
{
    let succeeded = exit_code == 0;
    let result = CommandResult {
        stdout,
        stderr,
        exit_code,
        succeeded,
        stdout_complete,
        stderr_complete,
    };
    if succeeded {
        Ok(result)
    } else {
        Err(ExecError::CommandNonZeroExit { command: command.to_owned(), result })
    }
}

} // verus!
