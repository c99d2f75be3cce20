//! A garden of child processes.
//!
//! Every child process that is put into a [`Kindergarten`] gets a [`Ticket`].
//! Whoever holds the ticket can come back for the child: for its standard
//! streams, to poll it, to wait for it, to send it a signal or to kill it.
//! A child that has been seen to end leaves the garden, and its pipes are
//! closed with the last [`Kind`] that refers to it.
//!
//! The library holds the bookkeeping and the decisions. What only the
//! operating system can do (start a process, lock a stream, poll, signal, wait)
//! is done between two calls: an operation that has to wait for the outside
//! returns a value that says what to do next, such as [`Waiting`], and that
//! value takes the outcome and carries the operation on. A garden that is
//! shared between tasks is locked for each call, not for the time between
//! calls, so every operation states its effect on the garden as it is when the
//! outcome arrives.
pub mod calls;
pub mod child;
pub mod effects;
pub mod garden;
pub mod kind;
pub mod laws;
pub mod outside;
pub mod pending;
pub mod status;
pub mod ticket;

pub use child::{ChildAccess, ChildProcess};
pub use garden::Kindergarten;
pub use kind::{Kind, Spawned};
pub use pending::{
    KillRequest, PidQuery, SignalReady, SignalRequest, SuccessCheck, TerminationCheck, Waiting,
};
pub use status::{ExitStatus, Pid, Signal};
pub use ticket::Ticket;
