//! Process identifiers, signals and exit statuses, as plain values.
use vstd::prelude::*;

verus! {

/// A process identifier.
#[derive(Clone, Copy, Hash, PartialEq, Eq, PartialOrd, Ord, Debug, Structural)]
pub struct Pid {
    pub raw: i32,
}

/// The identifier of a process that the operating system reports as `id`. There
/// is none where the process has already been reaped, or where the number is out
/// of the range of process identifiers.
pub open spec fn pid_of(id: Option<u32>) -> Option<Pid> {
    match id {
        Some(id) => if id <= i32::MAX {
            Some(Pid { raw: id as i32 })
        } else {
            None
        },
        None => None,
    }
}

impl Pid {
    /// The identifier of a process that the operating system reports as `id`:
    /// `None` for a process that has been reaped, and for a number over
    /// `i32::MAX`.
    pub fn from_id(id: Option<u32>) -> (pid: Option<Pid>)
        ensures
            pid == pid_of(id),
    {
        match id {
            Some(id) => if id <= i32::MAX as u32 {
                Some(Pid { raw: id as i32 })
            } else {
                None
            },
            None => None,
        }
    }
}

/// The number of the signal that asks a process to end, the same on every unix.
pub const SIGTERM: i32 = 15;

/// A unix signal, by its number.
#[derive(Clone, Copy, Hash, PartialEq, Eq, PartialOrd, Ord, Debug, Structural)]
pub struct Signal {
    pub number: i32,
}

/// How a process ended: with an exit code, or, where there is none, by a signal.
#[derive(Clone, Copy, Hash, PartialEq, Eq, Debug, Structural)]
pub struct ExitStatus {
    pub code: Option<i32>,
}

impl ExitStatus {
    /// The process exited with code zero.
    pub open spec fn is_success(&self) -> bool {
        self.code == Some(0i32)
    }

    /// Whether the process exited with code zero. Being ended by a signal is no
    /// success.
    pub fn success(&self) -> (success: bool)
        ensures
            success == self.is_success(),
    {
        match self.code {
            Some(code) => code == 0,
            None => false,
        }
    }
}

/// What a poll says of whether the child has ended: a poll that failed counts as
/// one that found it running.
pub open spec fn seen_terminated<E>(polled: Result<Option<ExitStatus>, E>) -> bool {
    polled matches Ok(Some(_))
}

/// What a poll says of whether the child has ended well: `false` both for a child
/// that still runs and for one that failed. An error of the poll is passed on.
pub open spec fn seen_success<E>(polled: Result<Option<ExitStatus>, E>) -> Result<bool, E> {
    match polled {
        Ok(Some(status)) => Ok(status.is_success()),
        Ok(None) => Ok(false),
        Err(err) => Err(err),
    }
}

} // verus!
