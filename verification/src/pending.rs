//! Operations that wait for the operating system. Each type here is one point at
//! which an operation stands still: it says what is to be done outside, and its
//! method takes the outcome and carries the operation on.
use crate::garden::Kindergarten;
use crate::kind::Kind;
use crate::status::{ExitStatus, Pid, Signal};
use crate::ticket::Ticket;
use vstd::prelude::*;

verus! {

/// `kind` is to be polled for whether it has ended.
pub struct TerminationCheck {
    pub ticket: Ticket,
    pub kind: Kind,
}

/// What a poll does to the garden where it was asked whether the child has
/// ended: a child that has leaves.
pub open spec fn termination_change<E>(
    ticket: Ticket,
    polled: Result<Option<ExitStatus>, E>,
) -> crate::garden::Change {
    if crate::status::seen_terminated(polled) {
        crate::garden::Change::Remove(ticket)
    } else {
        crate::garden::Change::Keep
    }
}

impl TerminationCheck {
    /// How the operation begins on these children: with the child that the
    /// ticket leads to, or not at all.
    pub open spec fn begun(children: Map<u128, Kind>, t: Ticket) -> Option<TerminationCheck> {
        match children.get(t@) {
            Some(kind) => Some(TerminationCheck { ticket: t, kind }),
            None => None,
        }
    }

    /// Whether the child has ended, now that it has been polled. One that has
    /// leaves the garden. A poll that failed counts as one that found the child
    /// running.
    pub fn polled<E>(
        self,
        garden: &mut Kindergarten,
        polled: Result<Option<ExitStatus>, E>,
    ) -> (terminated: bool)
        ensures
            terminated == crate::status::seen_terminated(polled),
            final(garden)@ == termination_change(self.ticket, polled).apply(old(garden)@),
    {
        let terminated = match polled {
            Ok(status) => status.is_some(),
            Err(_) => false,
        };
        if terminated {
            garden.remove(self.ticket);
        }
        terminated
    }
}

/// `kind` is to be polled for whether it has ended well.
pub struct SuccessCheck {
    pub ticket: Ticket,
    pub kind: Kind,
}

/// What a poll does to the garden where it was asked whether the child has ended
/// well: any answer lets the child go, only a poll that failed keeps it.
pub open spec fn success_change<E>(
    ticket: Ticket,
    polled: Result<Option<ExitStatus>, E>,
) -> crate::garden::Change {
    if polled is Ok {
        crate::garden::Change::Remove(ticket)
    } else {
        crate::garden::Change::Keep
    }
}

impl SuccessCheck {
    /// How the operation begins on these children: with the child that the
    /// ticket leads to, or not at all.
    pub open spec fn begun(children: Map<u128, Kind>, t: Ticket) -> Option<SuccessCheck> {
        match children.get(t@) {
            Some(kind) => Some(SuccessCheck { ticket: t, kind }),
            None => None,
        }
    }

    /// Whether the child has ended well, now that it has been polled. With the
    /// answer the child leaves the garden, also where it still runs. An error of
    /// the poll is passed on, and the child stays.
    pub fn polled<E>(
        self,
        garden: &mut Kindergarten,
        polled: Result<Option<ExitStatus>, E>,
    ) -> (success: Result<bool, E>)
        ensures
            success == crate::status::seen_success(polled),
            final(garden)@ == success_change(self.ticket, polled).apply(old(garden)@),
    {
        let success = match polled {
            Ok(Some(status)) => Ok(status.success()),
            Ok(None) => Ok(false),
            Err(err) => Err(err),
        };
        if success.is_ok() {
            garden.remove(self.ticket);
        }
        success
    }
}

/// `kind` is to be asked for the number that the operating system has for it.
pub struct PidQuery {
    pub kind: Kind,
}

impl PidQuery {
    /// How the operation begins on these children: with the child that the
    /// ticket leads to, or not at all.
    pub open spec fn begun(children: Map<u128, Kind>, t: Ticket) -> Option<PidQuery> {
        match children.get(t@) {
            Some(kind) => Some(PidQuery { kind }),
            None => None,
        }
    }

    /// The process identifier, now that the number is known. `None` for a child
    /// that has been reaped, and for a number over `i32::MAX`.
    pub fn identified(self, id: Option<u32>) -> (pid: Option<Pid>)
        ensures
            pid == crate::status::pid_of(id),
    {
        Pid::from_id(id)
    }
}

/// A signal is to be sent, once the child has been asked for its number.
pub struct SignalRequest {
    pub ticket: Ticket,
    pub signal: Signal,
    pub query: PidQuery,
}

impl SignalRequest {
    /// How the operation begins on these children: with the child that the
    /// ticket leads to, or not at all.
    pub open spec fn begun(children: Map<u128, Kind>, t: Ticket, signal: Signal) -> Option<SignalRequest> {
        match children.get(t@) {
            Some(kind) => Some(SignalRequest { ticket: t, signal, query: PidQuery { kind } }),
            None => None,
        }
    }

    /// How the operation goes on with the child's number.
    pub open spec fn after(self, id: Option<u32>) -> Option<SignalReady> {
        match crate::status::pid_of(id) {
            Some(pid) => Some(SignalReady { ticket: self.ticket, signal: self.signal, pid }),
            None => None,
        }
    }

    /// Where the signal goes, now that the child's number is known. `None` ends
    /// the operation: the child has no process identifier.
    pub fn identified(self, id: Option<u32>) -> (next: Option<SignalReady>)
        ensures
            next == self.after(id),
    {
        match self.query.identified(id) {
            Some(pid) => Some(SignalReady { ticket: self.ticket, signal: self.signal, pid }),
            None => None,
        }
    }
}

/// `signal` is to be sent to `pid`.
pub struct SignalReady {
    pub ticket: Ticket,
    pub signal: Signal,
    pub pid: Pid,
}

impl SignalReady {
    /// How the operation goes on when the signal has been sent and the garden has
    /// these children.
    pub open spec fn after<E>(self, children: Map<u128, Kind>, sent: Result<(), E>) -> Option<
        Result<Waiting, E>,
    > {
        match sent {
            Ok(_) => match Waiting::begun(children, self.ticket) {
                Some(waiting) => Some(Ok(waiting)),
                None => None,
            },
            Err(err) => Some(Err(err)),
        }
    }

    /// Goes on to wait for the child, now that the signal has been sent. An error
    /// of sending it ends the operation. `None` ends it too: the child has left
    /// the garden in the meantime.
    pub fn sent<E>(self, garden: &Kindergarten, sent: Result<(), E>) -> (next: Option<
        Result<Waiting, E>,
    >)
        ensures
            next == self.after(garden@, sent),
    {
        match sent {
            Ok(_) => match garden.wait(self.ticket) {
                Some(waiting) => Some(Ok(waiting)),
                None => None,
            },
            Err(err) => Some(Err(err)),
        }
    }
}

/// A kill of `kind` is to be started.
pub struct KillRequest {
    pub ticket: Ticket,
    pub kind: Kind,
}

impl KillRequest {
    /// How the operation begins on these children: with the child that the
    /// ticket leads to, or not at all.
    pub open spec fn begun(children: Map<u128, Kind>, t: Ticket) -> Option<KillRequest> {
        match children.get(t@) {
            Some(kind) => Some(KillRequest { ticket: t, kind }),
            None => None,
        }
    }

    /// How the operation goes on when the kill has been started.
    pub open spec fn after<E>(self, started: Result<(), E>) -> Result<Waiting, E> {
        match started {
            Ok(_) => Ok(Waiting { ticket: self.ticket, kind: self.kind }),
            Err(err) => Err(err),
        }
    }

    /// Goes on to wait for the child, now that the kill has been started. An
    /// error of starting it ends the operation.
    pub fn started<E>(self, started: Result<(), E>) -> (next: Result<Waiting, E>)
        ensures
            next == self.after(started),
    {
        match started {
            Ok(_) => Ok(Waiting { ticket: self.ticket, kind: self.kind }),
            Err(err) => Err(err),
        }
    }
}

/// `kind` is to be waited for.
pub struct Waiting {
    pub ticket: Ticket,
    pub kind: Kind,
}

impl Waiting {
    /// How the operation begins on these children: with the child that the
    /// ticket leads to, or not at all.
    pub open spec fn begun(children: Map<u128, Kind>, t: Ticket) -> Option<Waiting> {
        match children.get(t@) {
            Some(kind) => Some(Waiting { ticket: t, kind }),
            None => None,
        }
    }

    /// What the end of the wait does to the garden, however the wait ended: the
    /// child leaves.
    pub open spec fn change(self) -> crate::garden::Change {
        crate::garden::Change::Remove(self.ticket)
    }

    /// The status of the child, now that the wait is over. The child leaves the
    /// garden, also where the wait failed.
    pub fn exited<S, E>(self, garden: &mut Kindergarten, status: Result<S, E>) -> (reply: Result<
        S,
        E,
    >)
        ensures
            reply == status,
            final(garden)@ == self.change().apply(old(garden)@),
    {
        garden.remove(self.ticket);
        status
    }
}

} // verus!
