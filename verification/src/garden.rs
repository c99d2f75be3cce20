//! The garden: which child a ticket leads to.
use crate::kind::{Kind, Spawned};
use crate::outside::{map_default, map_get, map_insert, map_remove};
use crate::pending::{
    KillRequest, PidQuery, SignalRequest, SuccessCheck, TerminationCheck, Waiting,
};
use crate::status::{Signal, SIGTERM};
use crate::ticket::Ticket;
use dashmap::DashMap;
use std::sync::Arc;
use tokio::process::{ChildStderr, ChildStdin, ChildStdout};
use tokio::sync::Mutex;
use vstd::prelude::*;

verus! {

/// What one call does to the children of a garden.
pub enum Change {
    /// Nothing.
    Keep,
    /// The kind stands under the ticket from now on, in place of any other.
    Put(Ticket, Kind),
    /// Nothing stands under the ticket any more.
    Remove(Ticket),
}

impl Change {
    /// The children after this change.
    pub open spec fn apply(self, children: Map<u128, Kind>) -> Map<u128, Kind> {
        match self {
            Change::Keep => children,
            Change::Put(ticket, kind) => children.insert(ticket@, kind),
            Change::Remove(ticket) => children.remove(ticket@),
        }
    }

    /// The change is about this ticket.
    pub open spec fn concerns(self, ticket: Ticket) -> bool {
        match self {
            Change::Keep => false,
            Change::Put(other, _) => other@ == ticket@,
            Change::Remove(other) => other@ == ticket@,
        }
    }
}

/// The ticket leads to no child: one may be started for it.
pub open spec fn is_free(children: Map<u128, Kind>, t: Ticket) -> bool {
    children.get(t@) is None
}

/// `kind` is what the ticket leads to in `before`, and nothing changes; or
/// nothing is there, and what `f` returned decides: a child that it started is
/// put under the ticket and `kind` refers to it, and an error is passed on.
pub open spec fn got_or_inserted<E, F: FnOnce() -> Result<Spawned, E>>(
    before: Map<u128, Kind>,
    t: Ticket,
    f: F,
    kind: Result<Kind, E>,
    after: Map<u128, Kind>,
) -> bool {
    match before.get(t@) {
        Some(present) => {
            &&& kind == Ok::<Kind, E>(present)
            &&& after == Change::Keep.apply(before)
        },
        None => match kind {
            Ok(kind) => {
                &&& exists|spawned: Spawned| #[trigger]
                    f.ensures((), Ok::<Spawned, E>(spawned)) && kind.made_of(spawned)
                &&& after == Change::Put(t, kind).apply(before)
            },
            Err(err) => {
                &&& f.ensures((), Err::<Spawned, E>(err))
                &&& after == Change::Keep.apply(before)
            },
        },
    }
}

/// Holds child processes by their tickets. What changes the garden takes it by
/// exclusive reference, so that its children are known between two calls; tasks
/// that share a garden put a lock around it.
pub struct Kindergarten {
    access: DashMap<u128, Kind>,
}

impl View for Kindergarten {
    type V = Map<u128, Kind>;

    /// The children, each under the number of its ticket.
    closed spec fn view(&self) -> Map<u128, Kind> {
        crate::outside::map_contents(self.access)
    }
}

impl Default for Kindergarten {
    /// A garden without children.
    fn default() -> (garden: Self)
        ensures
            garden@ == Map::<u128, Kind>::empty(),
    {
        Kindergarten { access: map_default() }
    }
}

impl Kindergarten {
    /// Takes in a child that has just been started, and gives out the ticket for
    /// it: a random UUID. Should that ticket be in use, the child under it gives
    /// way to the new one. Where the child could not be started, the error is
    /// passed on and the garden stays as it is.
    pub fn spawn<E>(&mut self, spawned: Result<Spawned, E>) -> (ticket: Result<Ticket, E>)
        requires
            spawned matches Ok(spawned) ==> spawned.piped(),
        ensures
            match spawned {
                Ok(spawned) => {
                    &&& ticket matches Ok(ticket)
                    &&& crate::outside::drawn(ticket@)
                    &&& crate::outside::is_random_uuid(ticket@)
                    &&& final(self)@.contains_key(ticket@)
                    &&& final(self)@[ticket@].made_of(spawned)
                    &&& final(self)@ == Change::Put(ticket, final(self)@[ticket@]).apply(old(self)@)
                },
                Err(err) => {
                    &&& ticket == Err::<Ticket, E>(err)
                    &&& final(self)@ == Change::Keep.apply(old(self)@)
                },
            },
    {
        self.spawn_under(Ticket::random(), spawned)
    }

    /// Takes in a child that has just been started, under this ticket. Should the
    /// ticket be in use, the child under it gives way to the new one. Where the
    /// child could not be started, the error is passed on and the garden stays as
    /// it is.
    pub fn spawn_under<E>(&mut self, t: Ticket, spawned: Result<Spawned, E>) -> (ticket: Result<
        Ticket,
        E,
    >)
        requires
            spawned matches Ok(spawned) ==> spawned.piped(),
        ensures
            match spawned {
                Ok(spawned) => {
                    &&& ticket == Ok::<Ticket, E>(t)
                    &&& final(self)@.contains_key(t@)
                    &&& final(self)@[t@].made_of(spawned)
                    &&& final(self)@ == Change::Put(t, final(self)@[t@]).apply(old(self)@)
                },
                Err(err) => {
                    &&& ticket == Err::<Ticket, E>(err)
                    &&& final(self)@ == Change::Keep.apply(old(self)@)
                },
            },
    {
        match Kind::new(spawned) {
            Ok(kind) => {
                map_insert(&mut self.access, t.as_u128(), kind);
                Ok(t)
            },
            Err(err) => Err(err),
        }
    }

    /// Gets a handle to a child. Streams must be locked separately to use. For a
    /// single stream the getters below do with one clone in place of four.
    pub fn get(&self, t: Ticket) -> (kind: Option<Kind>)
        ensures
            kind == self@.get(t@),
    {
        map_get(&self.access, t.as_u128(), Kind::clone)
    }

    /// Removes a child from the garden, and returns the handle to it. Dropping
    /// the handle closes the pipes that nothing else refers to.
    pub fn remove(&mut self, t: Ticket) -> (kind: Option<Kind>)
        ensures
            kind == old(self)@.get(t@),
            final(self)@ == Change::Remove(t).apply(old(self)@),
    {
        match map_remove(&mut self.access, t.as_u128()) {
            Some((_, kind)) => Some(kind),
            None => None,
        }
    }

    /// Gets a handle to the child under the ticket. Where there is none, and only
    /// there, starts one with `f` and puts it there; where that fails, the error
    /// is passed on and the garden stays as it is.
    pub fn get_or_insert_with<E, F: FnOnce() -> Result<Spawned, E>>(&mut self, t: Ticket, f: F) -> (kind:
        Result<Kind, E>)
        requires
            is_free(old(self)@, t) ==> f.requires(()),
            is_free(old(self)@, t) ==> forall|spawned: Spawned| #[trigger]
                f.ensures((), Ok::<Spawned, E>(spawned)) ==> spawned.piped(),
        ensures
            got_or_inserted(old(self)@, t, f, kind, final(self)@),
    {
        match self.get(t) {
            Some(kind) => Ok(kind),
            None => match Kind::new(f()) {
                Ok(kind) => {
                    let handle = kind.clone();
                    map_insert(&mut self.access, t.as_u128(), kind);
                    Ok(handle)
                },
                Err(err) => Err(err),
            },
        }
    }

    /// The standard input of a child, to be locked before use.
    pub fn stdin(&self, t: Ticket) -> (stdin: Option<Arc<Mutex<ChildStdin>>>)
        ensures
            match self@.get(t@) {
                Some(kind) => stdin matches Some(stdin) && *stdin == kind.stdin_mutex(),
                None => stdin is None,
            },
    {
        map_get(&self.access, t.as_u128(), Kind::stdin)
    }

    /// The standard output of a child, to be locked before use.
    pub fn stdout(&self, t: Ticket) -> (stdout: Option<Arc<Mutex<ChildStdout>>>)
        ensures
            match self@.get(t@) {
                Some(kind) => stdout matches Some(stdout) && *stdout == kind.stdout_mutex(),
                None => stdout is None,
            },
    {
        map_get(&self.access, t.as_u128(), Kind::stdout)
    }

    /// The standard error of a child, to be locked before use.
    pub fn stderr(&self, t: Ticket) -> (stderr: Option<Arc<Mutex<ChildStderr>>>)
        ensures
            match self@.get(t@) {
                Some(kind) => stderr matches Some(stderr) && *stderr == kind.stderr_mutex(),
                None => stderr is None,
            },
    {
        map_get(&self.access, t.as_u128(), Kind::stderr)
    }

    /// Asks whether a child has ended. `None` where the ticket leads to no
    /// child; else the child is to be polled.
    pub fn has_terminated(&self, t: Ticket) -> (next: Option<TerminationCheck>)
        ensures
            next == TerminationCheck::begun(self@, t),
    {
        match self.get(t) {
            Some(kind) => Some(TerminationCheck { ticket: t, kind }),
            None => None,
        }
    }

    /// Asks whether a child has ended well. `None` where the ticket leads to no
    /// child; else the child is to be polled.
    pub fn success(&self, t: Ticket) -> (next: Option<SuccessCheck>)
        ensures
            next == SuccessCheck::begun(self@, t),
    {
        match self.get(t) {
            Some(kind) => Some(SuccessCheck { ticket: t, kind }),
            None => None,
        }
    }

    /// Asks for the process identifier of a child. `None` where the ticket leads
    /// to no child; else the child is to be asked for its number.
    pub fn pid(&self, t: Ticket) -> (next: Option<PidQuery>)
        ensures
            next == PidQuery::begun(self@, t),
    {
        match self.get(t) {
            Some(kind) => Some(PidQuery { kind }),
            None => None,
        }
    }

    /// Sends SIGTERM to a child and waits for it.
    pub fn terminate(&self, t: Ticket) -> (next: Option<SignalRequest>)
        ensures
            next == SignalRequest::begun(self@, t, (Signal { number: SIGTERM })),
    {
        self.send_signal(t, Signal { number: SIGTERM })
    }

    /// Sends a signal to a child and waits for it. `None` where the ticket leads
    /// to no child; else the child is to be asked for its number.
    pub fn send_signal(&self, t: Ticket, sig: Signal) -> (next: Option<SignalRequest>)
        ensures
            next == SignalRequest::begun(self@, t, sig),
    {
        match self.pid(t) {
            Some(query) => Some(SignalRequest { ticket: t, signal: sig, query }),
            None => None,
        }
    }

    /// Kills a child and waits for it. `None` where the ticket leads to no child;
    /// else the kill is to be started.
    pub fn kill(&self, t: Ticket) -> (next: Option<KillRequest>)
        ensures
            next == KillRequest::begun(self@, t),
    {
        match self.get(t) {
            Some(kind) => Some(KillRequest { ticket: t, kind }),
            None => None,
        }
    }

    /// Waits for a child to end. `None` where the ticket leads to no child.
    pub fn wait(&self, t: Ticket) -> (next: Option<Waiting>)
        ensures
            next == Waiting::begun(self@, t),
    {
        match self.get(t) {
            Some(kind) => Some(Waiting { ticket: t, kind }),
            None => None,
        }
    }
}

/// A garden is its children and nothing besides: two gardens with the same map are
/// the same. So no call can lay anything by for a later one but in the map.
proof fn law_garden_is_its_map(a: Kindergarten, b: Kindergarten)
    requires
        a.access == b.access,
    ensures
        a == b,
        a@ == b@,
{
}

} // verus!
