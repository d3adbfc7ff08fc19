use vstd::prelude::*;

verus! {

/// What a non-blocking status check of the child reported.
#[derive(Clone, Copy, PartialEq, Eq, Structural, Debug)]
pub enum ChildProbe {
    /// The child has exited, with its exit code when one was obtainable and
    /// `None` when it terminated by signal or the code is otherwise missing.
    Exited(Option<i32>),
    /// The child is still running.
    Running,
    /// The status check itself failed.
    Failed,
}

/// Which fatal condition ends a session. Every I/O failure on the four data
/// paths, a failure of the readiness wait, and a failure of the child-status
/// check are fatal; a missing capability never is.
#[derive(Clone, Copy, PartialEq, Eq, Structural, Debug)]
pub enum Diag {
    /// The readiness-multiplexing wait failed.
    SelectFailed,
    /// Reading the pseudo-terminal failed while the child was confirmed alive.
    PtyReadWhileChildAlive,
    /// The status check after a pseudo-terminal read failure itself failed.
    StatusCheckAfterReadError,
    /// The unconditional per-iteration status check failed.
    StatusCheckFailed,
    /// Writing the interpreted output to the real output stream failed.
    OutputWriteFailed,
    /// Flushing the real output stream failed.
    OutputFlushFailed,
    /// Reading the real input stream failed.
    InputReadFailed,
    /// Forwarding real input to the pseudo-terminal failed.
    PtyWriteFailed,
}

/// What the scheduler's loop does next.
#[derive(Clone, Copy, PartialEq, Eq, Structural, Debug)]
pub enum Verdict {
    /// Keep multiplexing.
    Continue,
    /// End the session; the process exits with this code.
    Exit(u8),
    /// Abort the whole session with this diagnostic.
    Fatal(Diag),
}

/// The process exit code owed for a finished child: its own exit code when
/// one in byte range was obtainable, and 1 otherwise (signal termination, or
/// a code that no process exit status can carry).
pub open spec fn exit_code_of(code: Option<i32>) -> u8 {
    match code {
        Some(c) => if 0 <= c <= 255 {
            c as u8
        } else {
            1u8
        },
        None => 1u8,
    }
}

/// The verdict owed after a pseudo-terminal read failure, from what a
/// non-blocking status check of the child then reported: a read failure on a
/// child that already exited is the normal end of the session, one on a live
/// child is fatal, and a failing status check is fatal too.
pub open spec fn read_error_verdict(probe: ChildProbe) -> Verdict {
    match probe {
        ChildProbe::Exited(code) => Verdict::Exit(exit_code_of(code)),
        ChildProbe::Running => Verdict::Fatal(Diag::PtyReadWhileChildAlive),
        ChildProbe::Failed => Verdict::Fatal(Diag::StatusCheckAfterReadError),
    }
}

/// The verdict owed after the unconditional end-of-iteration status check,
/// which detects a child that exits without further output.
pub open spec fn status_check_verdict(probe: ChildProbe) -> Verdict {
    match probe {
        ChildProbe::Exited(code) => Verdict::Exit(exit_code_of(code)),
        ChildProbe::Running => Verdict::Continue,
        ChildProbe::Failed => Verdict::Fatal(Diag::StatusCheckFailed),
    }
}

/// Computes the process exit code for a finished child.
pub fn child_exit_code(code: Option<i32>) -> (r: u8)
    ensures
        r == exit_code_of(code),
{
    match code {
        Some(c) => if 0 <= c && c <= 255 {
            c as u8
        } else {
            1
        },
        None => 1,
    }
}

/// Decides the session's fate after a pseudo-terminal read failure.
pub fn after_pty_read_error(probe: ChildProbe) -> (v: Verdict)
    ensures
        v == read_error_verdict(probe),
{
    match probe {
        ChildProbe::Exited(code) => Verdict::Exit(child_exit_code(code)),
        ChildProbe::Running => Verdict::Fatal(Diag::PtyReadWhileChildAlive),
        ChildProbe::Failed => Verdict::Fatal(Diag::StatusCheckAfterReadError),
    }
}

/// Decides the session's fate after the unconditional per-iteration check of
/// the child's status.
pub fn after_status_check(probe: ChildProbe) -> (v: Verdict)
    ensures
        v == status_check_verdict(probe),
{
    match probe {
        ChildProbe::Exited(code) => Verdict::Exit(child_exit_code(code)),
        ChildProbe::Running => Verdict::Continue,
        ChildProbe::Failed => Verdict::Fatal(Diag::StatusCheckFailed),
    }
}

} // verus!
