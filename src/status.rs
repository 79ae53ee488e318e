use vstd::prelude::*;

verus! {

/// How a child process ended.
#[derive(Clone, Copy, Debug, PartialEq, Eq)]
pub enum ExitStatus {
    /// It exited on its own, with this exit code.
    Exited(i32),
    /// It was terminated by this signal.
    Signaled(i32),
}

impl ExitStatus {
    /// Whether the child exited on its own with code zero.
    pub fn success(&self) -> (r: bool)
        ensures
            r == (*self == ExitStatus::Exited(0)),
    {
        match self {
            ExitStatus::Exited(c) => *c == 0,
            ExitStatus::Signaled(_) => false,
        }
    }

    /// The exit code, where the child exited on its own.
    pub fn code(&self) -> (r: Option<i32>)
        ensures
            r == (match *self {
                ExitStatus::Exited(c) => Some(c),
                ExitStatus::Signaled(_) => None::<i32>,
            }),
    {
        match self {
            ExitStatus::Exited(c) => Some(*c),
            ExitStatus::Signaled(_) => None,
        }
    }

    /// The terminating signal, where the child was killed by one.
    pub fn signal(&self) -> (r: Option<i32>)
        ensures
            r == (match *self {
                ExitStatus::Signaled(s) => Some(s),
                ExitStatus::Exited(_) => None::<i32>,
            }),
    {
        match self {
            ExitStatus::Signaled(s) => Some(*s),
            ExitStatus::Exited(_) => None,
        }
    }
}

/// Why waiting for a child failed.
#[derive(Clone, Copy, Debug, PartialEq, Eq)]
pub enum ReapError {
    /// The non-blocking status query failed with this OS error code.
    Probe(i32),
    /// The notification sequence yielded this OS error code.
    Signal(i32),
    /// The notification sequence ended: no exit can be observed any more.
    SignalsEnded,
}

/// Why a kill request failed.
#[derive(Clone, Copy, Debug, PartialEq, Eq)]
pub enum KillError {
    /// The child's exit was already observed: there is nothing to kill.
    Exited,
    /// The OS refused the request with this error code.
    Os(i32),
}

} // verus!
